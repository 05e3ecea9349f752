//! # Lock ordering enforcement at compile time
//!
//! This library contains types and traits to ensure that locks that are held
//! at the same time are acquired in the correct order. This lets code authors
//! check, while the code is being compiled, that it is free of deadlock
//! opportunities arising from inconsistent lock acquisition order.
//!
//! Orderings between marker types that represent lock levels are declared with
//! the traits in [`relation`]. The core logic lives in the [`LockedAt`] type;
//! it uses trait bounds to ensure that any acquisition of locks respects the
//! declared orderings.
//!
//! Declared orderings must form a directed acyclic graph. A cycle among the
//! declared edges is a programmer error that the trait bounds alone do not
//! detect; the [`order`] module holds a verified checker that walks a declared
//! edge list, computes its transitive closure, and rejects cycles.

use vstd::prelude::*;

pub mod lock;
pub mod lockedat;
pub mod locked;
pub mod order;
pub mod relation;
pub mod state;

pub use lockedat::{LockedAt, MutualExclusion, ReadWrite};
pub use locked::Locked;

verus! {

/// The least-restrictive lock level, when no locks are held.
pub struct Unlocked;

/// Marker for a type that indicates a level in the locking hierarchy.
pub trait LockLevel {
    /// How the lock can be acquired.
    ///
    /// This should be either [`MutualExclusion`] or [`ReadWrite`].
    type Method;
}

} // verus!
