//! Traits that name locked state held in a state object.

use vstd::prelude::*;

use crate::lock::{AsyncMutexLockLevel, AsyncRwLockLevel, MutexLockLevel, RwLockLevel};

verus! {

/// Implementing types correspond to [`crate::lock::MutexLock`] state in `T`.
///
/// This should be implemented on marker types that correspond to locked
/// state in `T`.
pub trait MutexLockedState<T> {
    /// The lock level associated with the locked state in `T`.
    type LockLevel: MutexLockLevel;

    /// Returns a reference to the corresponding mutex in `T`.
    fn mutex(t: &T) -> &<Self::LockLevel as MutexLockLevel>::Mutex;
}

/// Implementing types correspond to [`crate::lock::RwLock`] state in `T`.
///
/// This should be implemented on marker types that correspond to
/// read/write-locked state in `T`.
pub trait RwLockedState<T> {
    /// The lock level associated with the read/write-locked state in `T`.
    type LockLevel: RwLockLevel;

    /// Returns a reference to the corresponding read/write lock in `T`.
    fn rw_lock(t: &T) -> &<Self::LockLevel as RwLockLevel>::RwLock;
}

/// Implementing types correspond to cooperative mutex state in `T`.
///
/// This should be implemented on marker types that correspond to
/// asynchronously accessed locked state in `T`.
pub trait AsyncMutexLockedState<T> {
    /// The lock level associated with the async locked state in `T`.
    type LockLevel: AsyncMutexLockLevel;

    /// Returns a reference to the corresponding async mutex in `T`.
    fn mutex(t: &T) -> &<Self::LockLevel as AsyncMutexLockLevel>::Mutex;
}

/// Implementing types correspond to cooperative read/write-locked state in
/// `T`.
///
/// This should be implemented on marker types that correspond to
/// asynchronously accessed read/write-locked state in `T`.
pub trait AsyncRwLockedState<T> {
    /// The lock level associated with the async read/write-locked state in
    /// `T`.
    type LockLevel: AsyncRwLockLevel;

    /// Returns a reference to the corresponding async read/write lock in
    /// `T`.
    fn rw_lock(t: &T) -> &<Self::LockLevel as AsyncRwLockLevel>::RwLock;
}

} // verus!
