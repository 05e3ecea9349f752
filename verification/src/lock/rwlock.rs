//! Locking implementation for [`crate::ReadWrite`].

use vstd::prelude::*;

verus! {

/// Locking implementation for [`crate::ReadWrite`].
///
/// Describes how to acquire access to the state for a [`crate::LockLevel`]
/// implementation whose `Method` is [`crate::ReadWrite`]. The error and RAII
/// guard types are implementation-defined. The lifetime parameter is the
/// lifetime for which the lock itself is borrowed; the guards and the errors
/// may borrow the lock for that long.
pub trait RwLock<'a> {
    /// Error that could be produced when acquiring read access.
    ///
    /// For implementations where acquiring a lock is an infallible
    /// operation, the error type `core::convert::Infallible` can be used.
    type ReadError;

    /// Error that could be produced when acquiring write access.
    type WriteError;

    /// RAII guard for shared access to data protected by the lock.
    type ReadGuard;

    /// RAII guard for exclusive access to data protected by the lock.
    type WriteGuard;

    /// Attempts to acquire shared access to data.
    ///
    /// Returns an RAII guard that provides shared (read) access to the data,
    /// or an error on failure.
    fn read(&'a self) -> Result<Self::ReadGuard, Self::ReadError>;

    /// Attempts to acquire exclusive access to data.
    ///
    /// Returns an RAII guard that provides exclusive (read/write) access to
    /// the data, or an error on failure.
    fn write(&'a self) -> Result<Self::WriteGuard, Self::WriteError>;
}

#[verifier::external_type_specification]
#[verifier::external_body]
#[verifier::reject_recursive_types(T)]
pub struct ExRwLock<T: ?Sized>(std::sync::RwLock<T>);

#[verifier::external_type_specification]
#[verifier::external_body]
#[verifier::reject_recursive_types(T)]
pub struct ExRwLockReadGuard<'a, T: ?Sized>(std::sync::RwLockReadGuard<'a, T>);

#[verifier::external_type_specification]
#[verifier::external_body]
#[verifier::reject_recursive_types(T)]
pub struct ExRwLockWriteGuard<'a, T: ?Sized + 'a>(std::sync::RwLockWriteGuard<'a, T>);

/// Relies on std::sync::RwLock::read: blocks the calling thread until no
/// writer holds the lock, and returns an error exactly when the lock was
/// poisoned by a panic in a writer.
#[verifier::external_body]
fn sys_rwlock_read<T: ?Sized>(
    l: &std::sync::RwLock<T>,
) -> Result<
    std::sync::RwLockReadGuard<'_, T>,
    std::sync::PoisonError<std::sync::RwLockReadGuard<'_, T>>,
> {
    l.read()
}

/// Relies on std::sync::RwLock::write: blocks the calling thread until no
/// reader or writer holds the lock, and returns an error exactly when the
/// lock was poisoned by a panic in a writer.
#[verifier::external_body]
fn sys_rwlock_write<T: ?Sized>(
    l: &std::sync::RwLock<T>,
) -> Result<
    std::sync::RwLockWriteGuard<'_, T>,
    std::sync::PoisonError<std::sync::RwLockWriteGuard<'_, T>>,
> {
    l.write()
}

impl<'a, T: ?Sized + 'a> RwLock<'a> for std::sync::RwLock<T> {
    type ReadError = std::sync::PoisonError<std::sync::RwLockReadGuard<'a, T>>;

    type WriteError = std::sync::PoisonError<std::sync::RwLockWriteGuard<'a, T>>;

    type ReadGuard = std::sync::RwLockReadGuard<'a, T>;

    type WriteGuard = std::sync::RwLockWriteGuard<'a, T>;

    fn read(&'a self) -> Result<Self::ReadGuard, Self::ReadError> {
        sys_rwlock_read(self)
    }

    fn write(&'a self) -> Result<Self::WriteGuard, Self::WriteError> {
        sys_rwlock_write(self)
    }
}

} // verus!
