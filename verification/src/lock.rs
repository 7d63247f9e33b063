//! The lock that guards the supervisor, taken without waiting.

use vstd::prelude::*;
use tokio::sync::{RwLock, RwLockWriteGuard, TryLockError};
use crate::error::SupervisorError;

verus! {

/// `tokio::sync::RwLock`, carried as an opaque value.
#[verifier::external_type_specification]
#[verifier::external_body]
#[verifier::reject_recursive_types(T)]
pub struct ExRwLock<T: ?Sized>(tokio::sync::RwLock<T>);

/// `tokio::sync::RwLockWriteGuard`, carried as an opaque value.
#[verifier::external_type_specification]
#[verifier::external_body]
#[verifier::reject_recursive_types(T)]
pub struct ExRwLockWriteGuard<'a, T: ?Sized>(tokio::sync::RwLockWriteGuard<'a, T>);

/// `tokio::sync::TryLockError`, the error of a lock that could not be taken
/// at once; carried as an opaque value.
#[verifier::external_type_specification]
#[verifier::external_body]
pub struct ExTryLockError(tokio::sync::TryLockError);

/// Calls `RwLock::new`. Nothing is claimed of the lock: what it holds lies
/// behind a shared reference.
#[verifier::external_body]
pub(crate) fn lock_new<T>(value: T) -> (lock: RwLock<T>) {
    RwLock::new(value)
}

/// Calls `RwLock::try_write`, which returns at once with a guard or with an
/// error. Which of the two depends on who else holds the lock, so nothing is
/// claimed of the result.
#[verifier::external_body]
pub(crate) fn lock_try_write<'a, T>(lock: &'a RwLock<T>) -> (attempt: Result<
    RwLockWriteGuard<'a, T>,
    TryLockError,
>) {
    lock.try_write()
}

/// Calls `DerefMut::deref_mut` of `RwLockWriteGuard`, which gives access to
/// what the lock holds. Nothing is claimed of the value found there.
#[verifier::external_body]
pub(crate) fn guard_target<'a, 'b, T>(guard: &'a mut RwLockWriteGuard<'b, T>) -> (target:
    &'a mut T) {
    std::ops::DerefMut::deref_mut(guard)
}

/// Turns the outcome of a non-blocking attempt on the lock into the
/// supervisor's terms: what was acquired is handed on, and contention
/// becomes `Busy`, so that the caller can retry or escalate instead of
/// waiting.
pub fn busy_on_contention<G>(attempt: Result<G, TryLockError>) -> (r: Result<G, SupervisorError>)
    ensures
        attempt is Ok ==> r == Ok::<G, SupervisorError>(attempt->Ok_0),
        attempt is Err ==> r == Err::<G, SupervisorError>(SupervisorError::Busy),
{
    match attempt {
        Ok(guard) => Ok(guard),
        Err(_) => Err(SupervisorError::Busy),
    }
}

} // verus!
