//! Traits for describing the relationships between lock orders.

use vstd::prelude::*;

verus! {

/// Indicates that `Self` is locked before `Other`.
///
/// Indicates that a lock corresponding to the lock level `Other` can be
/// acquired while a lock corresponding to the implementing type `Self` is
/// held.
///
/// This is similar to [`LockAfter`] but with inverted `Self` and `Other`
/// types. Like `From` and `Into`, it allows writing `where` bounds more
/// naturally. This trait is blanket-implemented in terms of `LockAfter`.
pub trait LockBefore<Other> {}

/// Indicates that `Self` is locked after `Other`.
///
/// Indicates that a lock corresponding to the lock level for `Self` can be
/// acquired while a lock corresponding to the other lock level type `Other`
/// is held.
///
/// The trait bound `B: LockAfter<A>` indicates that, while a lock with level
/// `A` is held, a lock with level `B` can be acquired. The trait
/// [`LockBefore`] is blanket-implemented in terms of this trait, so
/// `B: LockAfter<A>` implies `A: LockBefore<B>`.
///
/// The declared edges must form a directed acyclic graph; a cycle among them
/// is a programmer error that these bounds alone do not detect, with the
/// consequence that acquisitions that deadlock at run time are accepted. The
/// transitive impl of a derived edge `A => B` is written
///
/// ```text
/// impl<L> LockAfter<L> for B
/// where
///     A: LockAfter<L>,
///     B: LockAfter<A>,
/// {
/// }
/// ```
///
/// beside every direct edge; this materialises the transitive closure that
/// the acquisition bounds need without overlapping the direct declarations
/// (the derived rule is conditional on both endpoints). The [`crate::order`]
/// module holds a verified checker that validates a declared edge list:
/// it computes the same closure and rejects cycles.
pub trait LockAfter<Other> {}

impl<Before, After> LockBefore<After> for Before where After: LockAfter<Before> {}

} // verus!
