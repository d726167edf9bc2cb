//! The lock, the signals and the shared ownership that the queues are built
//! on, as the standard library provides them.
//!
//! Nothing in this file is proved. Each item says what is taken for granted
//! of the standard library; the queues are verified against these statements.
//!
//! A lock hides the state it protects, and other threads change that state
//! whenever the lock is free. So nothing here says what a guard gives access
//! to: what is known of the state comes from the state's own type.

use std::ops::DerefMut;
use std::sync::Arc;
use std::sync::Condvar;
use std::sync::Mutex;
use std::sync::MutexGuard;
use vstd::prelude::*;

verus! {

/// `std::sync::Mutex`, a mutual-exclusion lock around a state.
#[verifier::external_type_specification]
#[verifier::external_body]
#[verifier::reject_recursive_types(T)]
pub struct ExMutex<T: ?Sized>(Mutex<T>);

/// `std::sync::MutexGuard`, the proof that the lock is held; dropping it
/// releases the lock.
#[verifier::external_type_specification]
#[verifier::external_body]
#[verifier::reject_recursive_types(T)]
pub struct ExMutexGuard<'a, T: ?Sized + 'a>(MutexGuard<'a, T>);

/// `std::sync::Condvar`, a signal on which threads sleep until another
/// thread notifies it.
#[verifier::external_type_specification]
#[verifier::external_body]
pub struct ExCondvar(Condvar);

/// `Mutex::new`: a free lock around `t`.
pub assume_specification<T>[ Mutex::<T>::new ](t: T) -> (mutex: Mutex<T>)
;

/// `Condvar::new`: a signal on which nobody sleeps yet.
pub assume_specification[ Condvar::new ]() -> (signal: Condvar)
;

/// `Condvar::notify_one`: wakes one of the threads that sleep on the signal,
/// if there is one.
pub assume_specification[ Condvar::notify_one ](signal: &Condvar)
;

/// `Arc::clone`: another owner of the same allocation. Taken for granted: to
/// the verifier an `Arc` is the value it points to, and the new owner points
/// to the very same value.
#[verifier::external_body]
pub(crate) fn share<S>(owner: &Arc<S>) -> (other: Arc<S>)
    ensures
        other == *owner,
{
    Arc::clone(owner)
}

/// `Mutex::lock`: sleeps until the lock is free, then holds it until the
/// guard is dropped. A lock that a panicking thread has poisoned is taken
/// all the same. The caller must not hold this lock already.
#[verifier::external_body]
pub(crate) fn lock<'a, S>(mutex: &'a Mutex<S>) -> (guard: MutexGuard<'a, S>) {
    match mutex.lock() {
        Ok(guard) => guard,
        Err(poisoned) => poisoned.into_inner(),
    }
}

/// `DerefMut::deref_mut` of a `MutexGuard`: the state that the held lock
/// protects, for as long as the guard is borrowed.
#[verifier::external_body]
pub(crate) fn state_mut<'g, 'a, S>(guard: &'g mut MutexGuard<'a, S>) -> (state: &'g mut S) {
    guard.deref_mut()
}

/// `Condvar::wait_while`: calls `again` on the protected state and on
/// `carry`, and while the answer is `true` releases the lock, sleeps on
/// `signal` until it is notified, takes the lock back and asks again.
///
/// Taken for granted: it returns, with the lock held, only after a call of
/// `again` has answered `false`, and `carry` is as that call left it. All
/// calls are made with the lock held. Whether it returns at all depends on
/// the other threads. After a wake-up on a poisoned lock the wait is taken
/// up again.
#[verifier::external_body]
pub(crate) fn wait_while<'a, S, X, F>(
    signal: &Condvar,
    guard: MutexGuard<'a, S>,
    carry: &mut X,
    again: F,
) -> (held: MutexGuard<'a, S>) where F: Fn(&mut S, &mut X) -> bool
    requires
        forall|state: &mut S, last: &mut X| #[trigger] call_requires(again, (state, last)),
    ensures
        exists|state: &mut S, last: &mut X|
            if *final(last) == *final(carry) {
                #[trigger] call_ensures(again, (state, last), false)
            } else {
                false
            },
{
    let mut guard = guard;
    loop {
        match signal.wait_while(guard, |state| again(state, carry)) {
            Ok(held) => return held,
            Err(poisoned) => guard = poisoned.into_inner(),
        }
    }
}

} // verus!
