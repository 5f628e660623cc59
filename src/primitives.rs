//! Declarations of the `parking_lot` and `std` items the monitor is built on.
//!
//! Every blocking operation lives here. Whether a lock attempt succeeds, and
//! how a wait ends, depends on the other threads and on the clock, so these
//! contracts promise nothing about that. They do say which mutex a held lock
//! belongs to, and the wait operations demand that a condition variable is
//! only ever used with the mutex of its own monitor.

use vstd::prelude::*;

use parking_lot::lock_api;
use parking_lot::{Condvar, Mutex, MutexGuard, WaitTimeoutResult};
use std::time::{Duration, Instant};

use crate::monitor::Monitor;

verus! {

/// `lock_api::Mutex`, of which parking_lot's `Mutex<T>` is an instance;
/// carried opaque.
#[verifier::external_type_specification]
#[verifier::external_body]
#[verifier::reject_recursive_types(R)]
#[verifier::reject_recursive_types(T)]
pub struct ExMutex<R, T: ?Sized>(lock_api::Mutex<R, T>);

/// parking_lot's `MutexGuard`, which releases its lock when dropped. Verus
/// cannot declare that type itself (its bound is a trait of `lock_api`), so
/// it is carried here, opaque.
#[verifier::external_body]
#[verifier::reject_recursive_types(T)]
pub struct LockToken<'a, T> {
    guard: MutexGuard<'a, T>,
}

/// A held lock, together with the mutex it locks.
#[verifier::reject_recursive_types(T)]
pub struct HeldLock<'a, T> {
    token: LockToken<'a, T>,
    mutex: &'a Mutex<T>,
}

impl<'a, T> HeldLock<'a, T> {
    /// The mutex this lock is held on.
    pub closed spec fn lock_of(&self) -> Mutex<T> {
        *self.mutex
    }
}

#[verifier::external_type_specification]
#[verifier::external_body]
pub struct ExRawMutex(parking_lot::RawMutex);

/// parking_lot's condition variable; opaque.
#[verifier::external_type_specification]
#[verifier::external_body]
pub struct ExCondvar(parking_lot::Condvar);

/// What a bounded wait reports (`timed_out`); opaque.
#[verifier::external_type_specification]
#[verifier::external_body]
pub struct ExWaitTimeoutResult(parking_lot::WaitTimeoutResult);

/// A deadline for the bounded operations; opaque.
#[verifier::external_type_specification]
#[verifier::external_body]
pub struct ExInstant(std::time::Instant);

/// Relies on parking_lot's `Mutex::new`: a fresh, unlocked mutex around `val`.
#[verifier::external_body]
pub(crate) fn mutex_new<T>(val: T) -> Mutex<T> {
    Mutex::new(val)
}

/// Relies on parking_lot's `Condvar::new`: a fresh condition variable.
#[verifier::external_body]
pub(crate) fn condvar_new() -> Condvar {
    Condvar::new()
}

/// Relies on `Mutex::lock`: blocks until the lock is held, then hands out
/// the guard that releases it when dropped.
#[verifier::external_body]
pub(crate) fn mutex_lock<T>(m: &Mutex<T>) -> (r: HeldLock<'_, T>)
    ensures
        r.lock_of() == *m,
{
    HeldLock { token: LockToken { guard: m.lock() }, mutex: m }
}

/// Relies on `Mutex::try_lock`: never blocks; `None` when the lock is held
/// elsewhere.
#[verifier::external_body]
pub(crate) fn mutex_try_lock<T>(m: &Mutex<T>) -> (r: Option<HeldLock<'_, T>>)
    ensures
        r is Some ==> r->0.lock_of() == *m,
{
    m.try_lock().map(|guard| HeldLock { token: LockToken { guard }, mutex: m })
}

/// Relies on `Mutex::try_lock_for`: blocks at most for `timeout`; `None`
/// when the lock could not be taken in that time.
#[verifier::external_body]
pub(crate) fn mutex_try_lock_for<T>(m: &Mutex<T>, timeout: Duration) -> (r: Option<HeldLock<'_, T>>)
    ensures
        r is Some ==> r->0.lock_of() == *m,
{
    m.try_lock_for(timeout).map(|guard| HeldLock { token: LockToken { guard }, mutex: m })
}

/// Relies on `Mutex::try_lock_until`: blocks at most until `timeout`; `None`
/// when the lock could not be taken by then.
#[verifier::external_body]
pub(crate) fn mutex_try_lock_until<T>(m: &Mutex<T>, timeout: Instant) -> (r: Option<HeldLock<'_, T>>)
    ensures
        r is Some ==> r->0.lock_of() == *m,
{
    m.try_lock_until(timeout).map(|guard| HeldLock { token: LockToken { guard }, mutex: m })
}

/// Relies on `Mutex::into_inner`: takes the value out of a mutex that is
/// owned, without locking.
#[verifier::external_body]
pub(crate) fn mutex_into_inner<T>(m: Mutex<T>) -> T {
    m.into_inner()
}

/// Relies on `Mutex::get_mut`: direct access to the value through an
/// exclusive borrow of the mutex, without locking.
#[verifier::external_body]
pub(crate) fn mutex_get_mut<T>(m: &mut Mutex<T>) -> &mut T {
    m.get_mut()
}

/// Relies on the `Deref` impl of `MutexGuard`: shared access to the locked
/// value.
#[verifier::external_body]
pub(crate) fn guard_deref<'b, 'a, T>(g: &'b HeldLock<'a, T>) -> &'b T {
    &*g.token.guard
}

/// Relies on the `DerefMut` impl of `MutexGuard`: exclusive access to the
/// locked value; it does not panic, and the lock stays held.
#[verifier::external_body]
pub(crate) fn guard_deref_mut<'b, 'a, T>(g: &'b mut HeldLock<'a, T>) -> (r: &'b mut T)
    ensures
        final(g).lock_of() == old(g).lock_of(),
    no_unwind
{
    &mut *g.token.guard
}

/// Relies on `Condvar::notify_one`: wakes at most one waiter; the lock is
/// not released.
#[verifier::external_body]
pub(crate) fn condvar_notify_one(cv: &Condvar) {
    cv.notify_one();
}

/// Relies on `Condvar::notify_all`: wakes every waiter; the lock is not
/// released.
#[verifier::external_body]
pub(crate) fn condvar_notify_all(cv: &Condvar) {
    cv.notify_all();
}

/// Relies on `Condvar::wait`: releases the guard's lock, sleeps until woken
/// (possibly spuriously), and takes the lock again before returning. It
/// panics when another thread waits on the same condition variable with a
/// different mutex, so the guard must hold the lock of the monitor whose
/// condition variable is waited on: each monitor's condition variable is
/// then only ever used with that monitor's mutex, and the wait does not
/// panic.
#[verifier::external_body]
pub(crate) fn condvar_wait<T>(m: &Monitor<T>, g: &mut HeldLock<'_, T>)
    requires
        old(g).lock_of() == m.lock_of(),
    ensures
        final(g).lock_of() == old(g).lock_of(),
    no_unwind
{
    m.cv.wait(&mut g.token.guard)
}

/// Relies on `Condvar::wait_for`: as `condvar_wait`, but wakes after at most
/// about `timeout`; the lock is held again on return either way.
#[verifier::external_body]
pub(crate) fn condvar_wait_for<T>(
    m: &Monitor<T>,
    g: &mut HeldLock<'_, T>,
    timeout: Duration,
) -> (r: WaitTimeoutResult)
    requires
        old(g).lock_of() == m.lock_of(),
    ensures
        final(g).lock_of() == old(g).lock_of(),
    no_unwind
{
    m.cv.wait_for(&mut g.token.guard, timeout)
}

/// Relies on `Condvar::wait_until`: as `condvar_wait`, but wakes at about
/// `timeout` at the latest; the lock is held again on return either way.
#[verifier::external_body]
pub(crate) fn condvar_wait_until<T>(
    m: &Monitor<T>,
    g: &mut HeldLock<'_, T>,
    timeout: Instant,
) -> (r: WaitTimeoutResult)
    requires
        old(g).lock_of() == m.lock_of(),
    ensures
        final(g).lock_of() == old(g).lock_of(),
    no_unwind
{
    m.cv.wait_until(&mut g.token.guard, timeout)
}

} // verus!
