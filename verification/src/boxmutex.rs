//! Shared mutable box: a reference-counted handle to a value behind a lock.

use std::sync::Arc;
use std::sync::LockResult;
use std::sync::Mutex;
use std::sync::MutexGuard;
use vstd::prelude::*;

verus! {

#[verifier::external_type_specification]
#[verifier::external_body]
#[verifier::reject_recursive_types(T)]
pub struct ExMutex<T: ?Sized>(Mutex<T>);

#[verifier::external_type_specification]
#[verifier::external_body]
#[verifier::reject_recursive_types(T)]
pub struct ExMutexGuard<'a, T: ?Sized + 'a>(MutexGuard<'a, T>);

#[verifier::external_type_specification]
#[verifier::external_body]
#[verifier::reject_recursive_types(T)]
pub struct ExPoisonError<T>(std::sync::PoisonError<T>);

/// `Mutex::new` of the standard library: a fresh, unlocked, unpoisoned lock
/// around `t`. Nothing is claimed of the result, since what a lock guards can
/// change behind a shared reference.
pub assume_specification<T>[ Mutex::<T>::new ](t: T) -> (m: Mutex<T>);

/// `Mutex::lock` of the standard library: blocks until the lock is free. The
/// outcome depends on the other holders (an error reports that one of them
/// failed while it held the lock), so nothing is claimed of it.
pub assume_specification<'a, T: ?Sized>[ Mutex::<T>::lock ](m: &'a Mutex<T>) -> (r: LockResult<
    MutexGuard<'a, T>,
>);

/// A handle to one lock-guarded value. Handles are cheap to clone, and every
/// clone reaches the same value through the same lock.
#[verifier::reject_recursive_types(T)]
pub struct BoxMutex<T>(pub Arc<Mutex<T>>);

impl<T> BoxMutex<T> {
    /// A first handle to `value`, behind a fresh lock.
    pub fn new(value: T) -> (r: Self) {
        Self(Arc::new(Mutex::new(value)))
    }

    /// Acquires the lock. Fails if an earlier holder failed while holding it.
    pub fn lock(&self) -> (r: Result<MutexGuard<'_, T>, crate::engine::BridgeError>)
        ensures
            r matches Err(error) ==> error == crate::engine::BridgeError::LockPoisoned,
    {
        lock_from(self.0.lock())
    }
}

/// Whether `r` is what the lock's answer becomes: the guard, or the report
/// that the lock is poisoned.
pub open spec fn lock_outcome<'a, T>(
    answer: LockResult<MutexGuard<'a, T>>,
    r: Result<MutexGuard<'a, T>, crate::engine::BridgeError>,
) -> bool {
    match answer {
        Ok(guard) => r == Ok::<MutexGuard<'a, T>, crate::engine::BridgeError>(guard),
        Err(_) => r == Err::<MutexGuard<'a, T>, crate::engine::BridgeError>(
            crate::engine::BridgeError::LockPoisoned,
        ),
    }
}

/// Turns the answer of a lock into the library's: a poisoned lock is reported
/// as such, and the guard that came with the report is given up, which frees
/// the lock for the next holder to find it poisoned too.
pub fn lock_from<'a, T>(answer: LockResult<MutexGuard<'a, T>>) -> (r: Result<
    MutexGuard<'a, T>,
    crate::engine::BridgeError,
>)
    ensures
        lock_outcome(answer, r),
{
    match answer {
        Ok(guard) => Ok(guard),
        Err(_) => Err(crate::engine::BridgeError::LockPoisoned),
    }
}

impl<T> Clone for BoxMutex<T> {
    /// Another handle to the same lock and value: the count of handles goes
    /// up, and the value is not duplicated.
    fn clone(&self) -> (r: Self)
        ensures
            r == *self,
    {
        Self(Arc::clone(&self.0))
    }
}

} // verus!
