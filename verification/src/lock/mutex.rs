//! Locking implementation for [`crate::MutualExclusion`].

use vstd::prelude::*;

verus! {

/// Locking implementation for [`crate::MutualExclusion`].
///
/// Describes how to acquire access to the state for a [`crate::LockLevel`]
/// implementation whose `Method` is [`crate::MutualExclusion`]. The error and
/// RAII guard types are implementation-defined. The lifetime parameter is the
/// lifetime for which the lock itself is borrowed; the guard and the error
/// may borrow the lock for that long.
pub trait MutexLock<'a> {
    /// Error that could be produced when acquiring the lock.
    ///
    /// For implementations where acquiring a lock is an infallible
    /// operation, the error type `core::convert::Infallible` can be used.
    type Error;

    /// RAII guard for accessing data protected by the lock.
    type Guard;

    /// Attempts to acquire exclusive access to data.
    ///
    /// Returns an RAII guard that provides access to the data, or an error
    /// on failure.
    fn lock(&'a self) -> Result<Self::Guard, Self::Error>;
}

#[verifier::external_type_specification]
#[verifier::external_body]
#[verifier::reject_recursive_types(T)]
pub struct ExMutex<T: ?Sized>(std::sync::Mutex<T>);

#[verifier::external_type_specification]
#[verifier::external_body]
#[verifier::reject_recursive_types(T)]
pub struct ExMutexGuard<'a, T: ?Sized + 'a>(std::sync::MutexGuard<'a, T>);

#[verifier::external_type_specification]
#[verifier::external_body]
#[verifier::reject_recursive_types(T)]
pub struct ExPoisonError<T>(std::sync::PoisonError<T>);

/// Relies on std::sync::Mutex::lock: blocks the calling thread until the
/// mutex is free, and returns an error exactly when the mutex was poisoned
/// by a panic in another holder. Calling it while the same thread already
/// holds the mutex deadlocks or panics; the ordering bounds on the callers
/// keep a disciplined call tree from doing so.
#[verifier::external_body]
fn sys_mutex_lock<T: ?Sized>(
    m: &std::sync::Mutex<T>,
) -> Result<std::sync::MutexGuard<'_, T>, std::sync::PoisonError<std::sync::MutexGuard<'_, T>>> {
    m.lock()
}

impl<'a, T: ?Sized + 'a> MutexLock<'a> for std::sync::Mutex<T> {
    type Guard = std::sync::MutexGuard<'a, T>;

    type Error = std::sync::PoisonError<std::sync::MutexGuard<'a, T>>;

    fn lock(&'a self) -> Result<Self::Guard, Self::Error> {
        sys_mutex_lock(self)
    }
}

} // verus!
