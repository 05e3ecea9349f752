//! The lock context type that enforces acquisition ordering.

use vstd::prelude::*;

use crate::lock::{MutexLock, MutexLockLevel, RwLock, RwLockLevel};
use crate::relation::LockBefore;
use crate::Unlocked;

verus! {

/// Indicator type for a mutual exclusion lock.
///
/// This can be used as the [`crate::LockLevel::Method`] associated type for
/// lock levels whose data is accessed by enforcing mutual exclusion.
pub struct MutualExclusion;

/// Indicator type for a shared-read/exclusive-write lock.
///
/// This can be used as the [`crate::LockLevel::Method`] associated type for
/// lock levels whose data can be accessed either by multiple simultaneous
/// readers or by a single writer.
pub struct ReadWrite;

/// Empty type that enforces lock acquisition ordering.
///
/// This type wraps a lock level `L` representing the level of the "currently
/// held" lock, and provides methods for accessing state for other lock
/// levels. For a given `L`, the methods on `LockedAt<'_, L>` will allow
/// accessing state for a lock level `M` if `L: LockBefore<M>` holds.
///
/// The `with_` methods on this type will (if they don't return an error)
/// produce two values: a new `LockedAt` instance and an accessor for locked
/// state. Both values will exclusively borrow the original `LockedAt`
/// instance, preventing its use, until the new values go out of scope.
pub struct LockedAt<'a, L>(core::marker::PhantomData<&'a mut L>);

/// Projects an acquisition outcome onto the guard alone, discarding the
/// child context, for leaf acquisitions after which no further lock is
/// taken.
///
/// The outcome is handed through unchanged: the guard of a successful
/// acquisition alone, an error alone.
pub(crate) fn keep_guard<C, G, E>(outcome: Result<(C, G), E>) -> (r: Result<G, E>)
    ensures
        match outcome {
            Ok(pair) => r matches Ok(guard) && guard == pair.1,
            Err(error) => r matches Err(e) && e == error,
        },
{
    match outcome {
        Ok((_locked, guard)) => Ok(guard),
        Err(error) => Err(error),
    }
}

impl LockedAt<'static, Unlocked> {
    /// Creates a new `LockedAt` without any locks held.
    ///
    /// At most one `LockedAt` should originate per call tree: "root"
    /// functions that are only called externally can construct one, but any
    /// non-root function that acquires a lock should take a
    /// `&mut LockedAt<'_, L>` as an argument instead.
    pub fn new() -> Self {
        LockedAt(core::marker::PhantomData)
    }
}

impl<'s, L> LockedAt<'s, L> {
    /// Pairs a lock acquisition outcome with the fresh child context that the
    /// successful acquisition authorises.
    ///
    /// The outcome is handed through unchanged: a guard is returned beside
    /// the child context, an error alone.
    fn grant<'a, NewLock, G, E>(outcome: Result<G, E>) -> (r: Result<(LockedAt<'a, NewLock>, G), E>)
        ensures
            match outcome {
                Ok(guard) => r matches Ok(pair) && pair.1 == guard,
                Err(error) => r matches Err(e) && e == error,
            },
    {
        match outcome {
            Ok(guard) => Ok((LockedAt(core::marker::PhantomData), guard)),
            Err(error) => Err(error),
        }
    }

    /// Scopes the current lock level lower in the ordering tree.
    ///
    /// Acts as if the current lock level is `NewLock` without actually
    /// acquiring any locks. This is notionally equivalent to acquiring
    /// `NewLock` and then dropping the returned guard, but without performing
    /// any locking operations: later acquisitions through the child are
    /// restricted to levels after `NewLock`, and the current context stays
    /// unusable while the child lives.
    pub fn skip_locking<'a, NewLock>(&'a mut self) -> LockedAt<'a, NewLock> where
        L: LockBefore<NewLock>,
    {
        LockedAt(core::marker::PhantomData)
    }

    /// Attempts to acquire a lock on `NewLock` state.
    ///
    /// Assuming `NewLock` is a lock level that can be acquired after `L`,
    /// this method provides access to state held in the [`MutexLock`] type
    /// `NewLock::Mutex`. If the lock acquisition fails, the adapter's error
    /// is returned unchanged. Otherwise, this method returns a new `LockedAt`
    /// along with the accessor for the held state that the adapter produced.
    ///
    /// If no further `LockedAt` calls need to be made after this one,
    /// consider using [`LockedAt::lock`] instead.
    pub fn with_lock<'a, NewLock>(
        &'a mut self,
        t: &'a NewLock::Mutex,
    ) -> Result<
        (LockedAt<'a, NewLock>, <NewLock::Mutex as MutexLock<'a>>::Guard),
        <NewLock::Mutex as MutexLock<'a>>::Error,
    > where
        NewLock: MutexLockLevel,
        NewLock::Mutex: MutexLock<'a>,
        L: LockBefore<NewLock>,
    {
        Self::grant(t.lock())
    }

    /// Attempts to acquire a shared lock on `NewLock` state.
    ///
    /// Assuming `NewLock` is a lock level that can be acquired after `L`,
    /// this method provides access to state held in the [`RwLock`] type
    /// `NewLock::RwLock`. If the lock acquisition fails, the adapter's error
    /// is returned unchanged. Otherwise, this method returns a new `LockedAt`
    /// along with the read-only accessor for the held state that the adapter
    /// produced.
    ///
    /// If no further `LockedAt` calls need to be made after this one,
    /// consider using [`LockedAt::read_lock`] instead.
    pub fn with_read_lock<'a, NewLock>(
        &'a mut self,
        t: &'a NewLock::RwLock,
    ) -> Result<
        (LockedAt<'a, NewLock>, <NewLock::RwLock as RwLock<'a>>::ReadGuard),
        <NewLock::RwLock as RwLock<'a>>::ReadError,
    > where
        NewLock: RwLockLevel,
        NewLock::RwLock: RwLock<'a>,
        L: LockBefore<NewLock>,
    {
        Self::grant(t.read())
    }

    /// Attempts to acquire an exclusive lock on `NewLock` state.
    ///
    /// Assuming `NewLock` is a lock level that can be acquired after `L`,
    /// this method provides access to state held in the [`RwLock`] type
    /// `NewLock::RwLock`. If the lock acquisition fails, the adapter's error
    /// is returned unchanged. Otherwise, this method returns a new `LockedAt`
    /// along with the read/write accessor for the held state that the adapter
    /// produced.
    ///
    /// If no further `LockedAt` calls need to be made after this one,
    /// consider using [`LockedAt::write_lock`] instead.
    pub fn with_write_lock<'a, NewLock>(
        &'a mut self,
        t: &'a NewLock::RwLock,
    ) -> Result<
        (LockedAt<'a, NewLock>, <NewLock::RwLock as RwLock<'a>>::WriteGuard),
        <NewLock::RwLock as RwLock<'a>>::WriteError,
    > where
        NewLock: RwLockLevel,
        NewLock::RwLock: RwLock<'a>,
        L: LockBefore<NewLock>,
    {
        Self::grant(t.write())
    }

    /// Provides access to a [`MutexLock`]'s state.
    ///
    /// Convenience variant of [`LockedAt::with_lock`] that discards the child
    /// context, for leaf acquisitions after which no further lock is taken.
    pub fn lock<'a, NewLock>(
        &'a mut self,
        t: &'a NewLock::Mutex,
    ) -> Result<<NewLock::Mutex as MutexLock<'a>>::Guard, <NewLock::Mutex as MutexLock<'a>>::Error>
        where
        NewLock: MutexLockLevel + 'a,
        NewLock::Mutex: MutexLock<'a>,
        L: LockBefore<NewLock>,
    {
        keep_guard(self.with_lock::<NewLock>(t))
    }

    /// Provides read access to a [`RwLock`]'s state.
    ///
    /// Convenience variant of [`LockedAt::with_read_lock`] that discards the
    /// child context, for leaf acquisitions after which no further lock is
    /// taken.
    pub fn read_lock<'a, NewLock>(
        &'a mut self,
        t: &'a NewLock::RwLock,
    ) -> Result<
        <NewLock::RwLock as RwLock<'a>>::ReadGuard,
        <NewLock::RwLock as RwLock<'a>>::ReadError,
    > where
        NewLock: RwLockLevel + 'a,
        NewLock::RwLock: RwLock<'a>,
        L: LockBefore<NewLock>,
    {
        keep_guard(self.with_read_lock::<NewLock>(t))
    }

    /// Provides read/write access to a [`RwLock`]'s state.
    ///
    /// Convenience variant of [`LockedAt::with_write_lock`] that discards the
    /// child context, for leaf acquisitions after which no further lock is
    /// taken.
    pub fn write_lock<'a, NewLock>(
        &'a mut self,
        t: &'a NewLock::RwLock,
    ) -> Result<
        <NewLock::RwLock as RwLock<'a>>::WriteGuard,
        <NewLock::RwLock as RwLock<'a>>::WriteError,
    > where
        NewLock: RwLockLevel + 'a,
        NewLock::RwLock: RwLock<'a>,
        L: LockBefore<NewLock>,
    {
        keep_guard(self.with_write_lock::<NewLock>(t))
    }
}

} // verus!
