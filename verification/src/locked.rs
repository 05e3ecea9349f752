//! A lock context coupled with the state object owning the locks.

use vstd::prelude::*;

use crate::lock::{MutexLock, MutexLockLevel, RwLock, RwLockLevel};
use crate::relation::LockBefore;
use crate::state::{MutexLockedState, RwLockedState};
use crate::lockedat::keep_guard;
use crate::{LockedAt, Unlocked};

verus! {

/// Allows safe access to locked values held in some state.
///
/// This type wraps a value of `&T` and provides access to locked state held
/// in `T` while enforcing correct lock ordering. Locks are named by marker
/// types implementing [`MutexLockedState`] or [`RwLockedState`] rather than
/// by a reference to the concrete lock.
pub struct Locked<'l, T, L> {
    state: &'l T,
    locked: LockedAt<'l, L>,
}

impl<'l, T, L> Locked<'l, T, L> {
    /// The state object this wrapper was built around.
    pub closed spec fn spec_state(self) -> &'l T {
        self.state
    }
}

impl<'l, T> Locked<'l, T, Unlocked> {
    /// Creates a new `Locked` assuming no locks are held.
    pub fn new(state: &'l T) -> (r: Self)
        ensures
            r.spec_state() == state,
    {
        Locked { state, locked: LockedAt::new() }
    }
}

impl<'l, T, L> Locked<'l, T, L> {
    /// Scopes the current lock level lower in the ordering tree.
    ///
    /// Acts as if the current lock level is `NewLock` without actually
    /// acquiring any locks. This is notionally equivalent to calling
    /// [`Locked::with_lock`] and then dropping the returned guard, but
    /// without performing any locking operations. The child wraps the same
    /// state object as the receiver.
    pub fn skip_locking<'a, NewLock>(&'a mut self) -> (r: Locked<'a, T, NewLock>) where
        L: LockBefore<NewLock>,
        ensures
            r.spec_state() == old(self).spec_state(),
            final(self).spec_state() == old(self).spec_state(),
    {
        let state = self.state;
        Locked { state, locked: self.locked.skip_locking() }
    }

    /// Attempts to acquire a lock on `NewLock` state in `T`.
    ///
    /// Acquires access to the state indicated by the marker type `NewLock`.
    /// If the lock acquisition fails, the adapter's error is returned
    /// unchanged. Otherwise, this method returns a new `Locked` along with
    /// the accessor for the held state that the adapter produced.
    ///
    /// If no further locking calls need to be made after this one, consider
    /// using [`Locked::lock`] instead. A successfully returned wrapper wraps
    /// the same state object as the receiver.
    pub fn with_lock<'a, NewLock>(&'a mut self) -> (r: Result<
        (
            Locked<'a, T, NewLock::LockLevel>,
            <<NewLock::LockLevel as MutexLockLevel>::Mutex as MutexLock<'a>>::Guard,
        ),
        <<NewLock::LockLevel as MutexLockLevel>::Mutex as MutexLock<'a>>::Error,
    >) where
        NewLock: MutexLockedState<T>,
        NewLock::LockLevel: MutexLockLevel,
        <NewLock::LockLevel as MutexLockLevel>::Mutex: MutexLock<'a>,
        L: LockBefore<NewLock::LockLevel>,
        'l: 'a,
        ensures
            r matches Ok(pair) ==> pair.0.spec_state() == old(self).spec_state(),
            final(self).spec_state() == old(self).spec_state(),
    {
        let state = self.state;
        let mutex = NewLock::mutex(state);
        match self.locked.with_lock(mutex) {
            Ok((locked, guard)) => Ok((Locked { state, locked }, guard)),
            Err(e) => Err(e),
        }
    }

    /// Attempts to acquire a shared lock on `NewLock` state in `T`.
    ///
    /// Provides access to state indicated by the marker type `NewLock`. If
    /// the lock acquisition fails, the adapter's error is returned
    /// unchanged. Otherwise, this method returns a new `Locked` along with
    /// the read-only accessor for the held state that the adapter produced.
    ///
    /// If no further locking calls need to be made after this one, consider
    /// using [`Locked::read_lock`] instead. A successfully returned wrapper
    /// wraps the same state object as the receiver.
    pub fn with_read_lock<'a, NewLock>(&'a mut self) -> (r: Result<
        (
            Locked<'a, T, NewLock::LockLevel>,
            <<NewLock::LockLevel as RwLockLevel>::RwLock as RwLock<'a>>::ReadGuard,
        ),
        <<NewLock::LockLevel as RwLockLevel>::RwLock as RwLock<'a>>::ReadError,
    >) where
        NewLock: RwLockedState<T>,
        NewLock::LockLevel: RwLockLevel,
        <NewLock::LockLevel as RwLockLevel>::RwLock: RwLock<'a>,
        L: LockBefore<NewLock::LockLevel>,
        'l: 'a,
        ensures
            r matches Ok(pair) ==> pair.0.spec_state() == old(self).spec_state(),
            final(self).spec_state() == old(self).spec_state(),
    {
        let state = self.state;
        let rw_lock = NewLock::rw_lock(state);
        match self.locked.with_read_lock(rw_lock) {
            Ok((locked, guard)) => Ok((Locked { state, locked }, guard)),
            Err(e) => Err(e),
        }
    }

    /// Attempts to acquire an exclusive lock on `NewLock` state in `T`.
    ///
    /// Provides access to state indicated by the marker type `NewLock`. If
    /// the lock acquisition fails, the adapter's error is returned
    /// unchanged. Otherwise, this method returns a new `Locked` along with
    /// the read/write accessor for the held state that the adapter produced.
    ///
    /// If no further locking calls need to be made after this one, consider
    /// using [`Locked::write_lock`] instead. A successfully returned wrapper
    /// wraps the same state object as the receiver.
    pub fn with_write_lock<'a, NewLock>(&'a mut self) -> (r: Result<
        (
            Locked<'a, T, NewLock::LockLevel>,
            <<NewLock::LockLevel as RwLockLevel>::RwLock as RwLock<'a>>::WriteGuard,
        ),
        <<NewLock::LockLevel as RwLockLevel>::RwLock as RwLock<'a>>::WriteError,
    >) where
        NewLock: RwLockedState<T>,
        NewLock::LockLevel: RwLockLevel,
        <NewLock::LockLevel as RwLockLevel>::RwLock: RwLock<'a>,
        L: LockBefore<NewLock::LockLevel>,
        'l: 'a,
        ensures
            r matches Ok(pair) ==> pair.0.spec_state() == old(self).spec_state(),
            final(self).spec_state() == old(self).spec_state(),
    {
        let state = self.state;
        let rw_lock = NewLock::rw_lock(state);
        match self.locked.with_write_lock(rw_lock) {
            Ok((locked, guard)) => Ok((Locked { state, locked }, guard)),
            Err(e) => Err(e),
        }
    }

    /// Provides access to state in `T` indicated by `NewLock`.
    ///
    /// Convenience wrapper for [`Locked::with_lock`] for when no further
    /// locks need to be acquired after `NewLock`.
    pub fn lock<'a, NewLock>(&'a mut self) -> (r: Result<
        <<NewLock::LockLevel as MutexLockLevel>::Mutex as MutexLock<'a>>::Guard,
        <<NewLock::LockLevel as MutexLockLevel>::Mutex as MutexLock<'a>>::Error,
    >) where
        NewLock: MutexLockedState<T>,
        NewLock::LockLevel: MutexLockLevel + 'a,
        <NewLock::LockLevel as MutexLockLevel>::Mutex: MutexLock<'a>,
        L: LockBefore<NewLock::LockLevel>,
        'l: 'a,
        ensures
            final(self).spec_state() == old(self).spec_state(),
    {
        keep_guard(self.with_lock::<NewLock>())
    }

    /// Provides read-only access to state in `T` indicated by `NewLock`.
    ///
    /// Convenience wrapper for [`Locked::with_read_lock`] for when no
    /// further locks need to be acquired after `NewLock`.
    pub fn read_lock<'a, NewLock>(&'a mut self) -> (r: Result<
        <<NewLock::LockLevel as RwLockLevel>::RwLock as RwLock<'a>>::ReadGuard,
        <<NewLock::LockLevel as RwLockLevel>::RwLock as RwLock<'a>>::ReadError,
    >) where
        NewLock: RwLockedState<T>,
        NewLock::LockLevel: RwLockLevel + 'a,
        <NewLock::LockLevel as RwLockLevel>::RwLock: RwLock<'a>,
        L: LockBefore<NewLock::LockLevel>,
        'l: 'a,
        ensures
            final(self).spec_state() == old(self).spec_state(),
    {
        keep_guard(self.with_read_lock::<NewLock>())
    }

    /// Provides write access to state in `T` indicated by `NewLock`.
    ///
    /// Convenience wrapper for [`Locked::with_write_lock`] for when no
    /// further locks need to be acquired after `NewLock`.
    pub fn write_lock<'a, NewLock>(&'a mut self) -> (r: Result<
        <<NewLock::LockLevel as RwLockLevel>::RwLock as RwLock<'a>>::WriteGuard,
        <<NewLock::LockLevel as RwLockLevel>::RwLock as RwLock<'a>>::WriteError,
    >) where
        NewLock: RwLockedState<T>,
        NewLock::LockLevel: RwLockLevel + 'a,
        <NewLock::LockLevel as RwLockLevel>::RwLock: RwLock<'a>,
        L: LockBefore<NewLock::LockLevel>,
        'l: 'a,
        ensures
            final(self).spec_state() == old(self).spec_state(),
    {
        keep_guard(self.with_write_lock::<NewLock>())
    }
}

} // verus!
