//! Traits that describe how locked data is accessed.

use vstd::prelude::*;

pub mod mutex;
pub mod rwlock;

pub use mutex::MutexLock;
pub use rwlock::RwLock;

use crate::{LockLevel, MutualExclusion, ReadWrite};

verus! {

/// Connects a [`LockLevel`] with a [`MutexLock`] implementation.
///
/// The associated mutex type is expected to implement [`MutexLock`]; the
/// acquisition methods on [`crate::LockedAt`] demand that bound where they
/// need it, for the borrow lifetime of the acquisition.
pub trait MutexLockLevel: LockLevel<Method = MutualExclusion> {
    type Mutex;
}

/// Connects a [`LockLevel`] with a [`RwLock`] implementation.
///
/// The associated lock type is expected to implement [`RwLock`]; the
/// acquisition methods on [`crate::LockedAt`] demand that bound where they
/// need it, for the borrow lifetime of the acquisition.
pub trait RwLockLevel: LockLevel<Method = ReadWrite> {
    type RwLock;
}

/// Connects a [`LockLevel`] with a cooperative mutual-exclusion lock.
///
/// The suspending adapters themselves are `async` and live outside the
/// verified core; only this binding of a level to its lock type lives here,
/// so that the same levels serve blocking and cooperative call trees.
pub trait AsyncMutexLockLevel: LockLevel<Method = MutualExclusion> {
    type Mutex;
}

/// Connects a [`LockLevel`] with a cooperative shared-read/exclusive-write
/// lock.
///
/// The suspending adapters themselves are `async` and live outside the
/// verified core; only this binding of a level to its lock type lives here.
pub trait AsyncRwLockLevel: LockLevel<Method = ReadWrite> {
    type RwLock;
}

} // verus!
