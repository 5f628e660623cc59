//! The monitor type and its guard.

use vstd::prelude::*;

use crate::primitives::{
    condvar_new, condvar_notify_all, condvar_notify_one, condvar_wait, condvar_wait_for,
    condvar_wait_until, guard_deref, guard_deref_mut, mutex_get_mut, mutex_into_inner,
    mutex_lock, mutex_new, mutex_try_lock, mutex_try_lock_for, mutex_try_lock_until, HeldLock,
};
use parking_lot::{Condvar, Mutex, WaitTimeoutResult};
use std::time::{Duration, Instant};

verus! {

/// A value of type `T` that is only reachable while holding the monitor's
/// lock, together with a condition variable bound to that same lock.
#[derive(Debug, Default)]
#[verifier::reject_recursive_types(T)]
pub struct Monitor<T> {
    pub(crate) mutex: Mutex<T>,
    pub(crate) cv: Condvar,
}

/// Exclusive access to a monitor's value, with the right to wait and notify
/// on the monitor's condition variable. It always holds the lock of the
/// monitor it refers to; dropping it releases that lock.
#[verifier::reject_recursive_types(T)]
pub struct MonitorGuard<'a, T> {
    monitor: &'a Monitor<T>,
    guard: HeldLock<'a, T>,
}

impl<T> Monitor<T> {
    /// The condition variable this monitor owns.
    pub closed spec fn condvar(&self) -> Condvar {
        self.cv
    }

    /// The mutex this monitor owns.
    pub closed spec fn lock_of(&self) -> Mutex<T> {
        self.mutex
    }

    /// Builds a monitor around `t`, with a fresh lock and condition variable.
    pub fn new(t: T) -> (r: Self) {
        Monitor { mutex: mutex_new(t), cv: condvar_new() }
    }

    /// Blocks until the lock is held and returns a guard on this monitor.
    pub fn lock(&self) -> (r: MonitorGuard<'_, T>)
        ensures
            r.is_guard_of(self),
    {
        MonitorGuard::new(self, mutex_lock(&self.mutex))
    }

    /// Wraps a held lock of this monitor's mutex into a guard.
    fn guard_from<'a>(&'a self, held: Option<HeldLock<'a, T>>) -> (r: Option<MonitorGuard<'a, T>>)
        requires
            held is Some ==> held->0.lock_of() == self.lock_of(),
        ensures
            r is Some <==> held is Some,
            r is Some ==> r->0.is_guard_of(self),
    {
        match held {
            Some(h) => Some(MonitorGuard::new(self, h)),
            None => None,
        }
    }

    /// Takes the lock only if it is free right now; `None` otherwise.
    pub fn try_lock(&self) -> (r: Option<MonitorGuard<'_, T>>)
        ensures
            r is Some ==> r->0.is_guard_of(self),
    {
        self.guard_from(mutex_try_lock(&self.mutex))
    }

    /// Tries to take the lock for at most `timeout`; `None` if that time
    /// runs out first.
    pub fn try_lock_for(&self, timeout: Duration) -> (r: Option<MonitorGuard<'_, T>>)
        ensures
            r is Some ==> r->0.is_guard_of(self),
    {
        self.guard_from(mutex_try_lock_for(&self.mutex, timeout))
    }

    /// Tries to take the lock until the instant `timeout`; `None` if it
    /// passes first.
    pub fn try_lock_until(&self, timeout: Instant) -> (r: Option<MonitorGuard<'_, T>>)
        ensures
            r is Some ==> r->0.is_guard_of(self),
    {
        self.guard_from(mutex_try_lock_until(&self.mutex, timeout))
    }

    /// Takes the lock and hands the guard to `f`; the lock is released
    /// before this returns, since `f` owns the guard and drops it.
    pub fn with_lock<'a, U, F>(&'a self, f: F) -> (r: U)
        where
            F: FnOnce(MonitorGuard<'a, T>) -> U,
        requires
            forall|g: MonitorGuard<'a, T>| g.is_guard_of(self) ==> #[trigger] f.requires((g,)),
        ensures
            exists|g: MonitorGuard<'a, T>| g.is_guard_of(self) && #[trigger] f.ensures((g,), r),
    {
        let g = self.lock();
        f(g)
    }

    /// The outcome of a lock attempt handed to `f`: `f`'s result on the
    /// guard if there is one, `None` without calling `f` otherwise.
    pub fn apply_to_guard<'a, U, F>(g: Option<MonitorGuard<'a, T>>, f: F) -> (r: Option<U>)
        where
            F: FnOnce(MonitorGuard<'a, T>) -> U,
        requires
            g is Some ==> f.requires((g->0,)),
        ensures
            r is Some <==> g is Some,
            g is Some ==> f.ensures((g->0,), r->0),
    {
        match g {
            Some(h) => Some(f(h)),
            None => None,
        }
    }

    /// As `with_lock`, but only if the lock is free right now: `None`
    /// without calling `f` otherwise.
    pub fn try_with_lock<'a, U, F>(&'a self, f: F) -> (r: Option<U>)
        where
            F: FnOnce(MonitorGuard<'a, T>) -> U,
        requires
            forall|g: MonitorGuard<'a, T>| g.is_guard_of(self) ==> #[trigger] f.requires((g,)),
        ensures
            r is Some ==> exists|g: MonitorGuard<'a, T>|
                g.is_guard_of(self) && #[trigger] f.ensures((g,), r->0),
    {
        let g = self.try_lock();
        let ghost attempt = g;
        let r = Self::apply_to_guard(g, f);
        assert(r is Some ==> f.ensures((attempt->0,), r->0));
        r
    }

    /// As `with_lock`, but gives up after `timeout`: `None` without calling
    /// `f` then.
    pub fn try_with_lock_for<'a, U, F>(&'a self, timeout: Duration, f: F) -> (r: Option<U>)
        where
            F: FnOnce(MonitorGuard<'a, T>) -> U,
        requires
            forall|g: MonitorGuard<'a, T>| g.is_guard_of(self) ==> #[trigger] f.requires((g,)),
        ensures
            r is Some ==> exists|g: MonitorGuard<'a, T>|
                g.is_guard_of(self) && #[trigger] f.ensures((g,), r->0),
    {
        let g = self.try_lock_for(timeout);
        let ghost attempt = g;
        let r = Self::apply_to_guard(g, f);
        assert(r is Some ==> f.ensures((attempt->0,), r->0));
        r
    }

    /// As `with_lock`, but gives up at the instant `timeout`: `None` without
    /// calling `f` then.
    pub fn try_with_lock_until<'a, U, F>(&'a self, timeout: Instant, f: F) -> (r: Option<U>)
        where
            F: FnOnce(MonitorGuard<'a, T>) -> U,
        requires
            forall|g: MonitorGuard<'a, T>| g.is_guard_of(self) ==> #[trigger] f.requires((g,)),
        ensures
            r is Some ==> exists|g: MonitorGuard<'a, T>|
                g.is_guard_of(self) && #[trigger] f.ensures((g,), r->0),
    {
        let g = self.try_lock_until(timeout);
        let ghost attempt = g;
        let r = Self::apply_to_guard(g, f);
        assert(r is Some ==> f.ensures((attempt->0,), r->0));
        r
    }

    /// Consumes the monitor and returns its value. Owning the monitor rules
    /// out any live guard, so no locking takes place.
    pub fn into_inner(self) -> T {
        mutex_into_inner(self.mutex)
    }

    /// The mutex underneath, for raw access to the lock. Locking it directly
    /// is safe, but the guards it gives cannot wait or notify: the condition
    /// variable is only reachable through a `MonitorGuard`.
    pub fn mutex(&self) -> (r: &Mutex<T>)
        ensures
            *r == self.lock_of(),
    {
        &self.mutex
    }

    /// Direct access to the value through an exclusive borrow of the
    /// monitor; no guard can be live meanwhile, so no locking takes place.
    pub fn get_mut(&mut self) -> (r: &mut T)
        ensures
            final(self).condvar() == old(self).condvar(),
    {
        mutex_get_mut(&mut self.mutex)
    }
}

impl<'a, T> MonitorGuard<'a, T> {
    /// The held lock is always the lock of the monitor referred to.
    #[verifier::type_invariant]
    spec fn pairs_with_monitor(self) -> bool {
        self.guard.lock_of() == self.monitor.lock_of()
    }

    /// The monitor this guard belongs to.
    pub closed spec fn monitor(&self) -> Monitor<T> {
        *self.monitor
    }

    /// The held lock this guard carries.
    pub closed spec fn held(&self) -> HeldLock<'a, T> {
        self.guard
    }

    /// The condition variable this guard waits and notifies on: that of its
    /// monitor.
    pub open spec fn condvar(&self) -> Condvar {
        self.monitor().condvar()
    }

    /// Whether this guard belongs to `m` and holds `m`'s lock.
    pub open spec fn is_guard_of(&self, m: &Monitor<T>) -> bool {
        &&& self.monitor() == *m
        &&& self.held().lock_of() == m.lock_of()
    }

    /// Bundles a held lock of `monitor`'s mutex with that monitor, whose
    /// condition variable the guard then waits and notifies on.
    pub fn new(monitor: &'a Monitor<T>, guard: HeldLock<'a, T>) -> (r: Self)
        requires
            guard.lock_of() == monitor.lock_of(),
        ensures
            r.monitor() == *monitor,
            r.held() == guard,
            r.is_guard_of(monitor),
    {
        MonitorGuard { monitor, guard }
    }

    /// Wakes at most one thread waiting on the condition variable, keeping
    /// the lock.
    pub fn notify_one(&self) {
        condvar_notify_one(&self.monitor.cv)
    }

    /// Wakes every thread waiting on the condition variable, keeping the
    /// lock.
    pub fn notify_all(&self) {
        condvar_notify_all(&self.monitor.cv)
    }

    /// Releases the lock, sleeps until notified (or spuriously woken), and
    /// takes the lock again before returning.
    pub fn wait(&mut self)
        ensures
            final(self).monitor() == old(self).monitor(),
            final(self).held().lock_of() == old(self).held().lock_of(),
    {
        proof {
            use_type_invariant(&*self);
        }
        condvar_wait(self.monitor, &mut self.guard)
    }

    /// As `wait`, but for at most about `timeout`; the result tells whether
    /// the time ran out. The lock is held again on return either way.
    pub fn wait_for(&mut self, timeout: Duration) -> (r: WaitTimeoutResult)
        ensures
            final(self).monitor() == old(self).monitor(),
            final(self).held().lock_of() == old(self).held().lock_of(),
    {
        proof {
            use_type_invariant(&*self);
        }
        condvar_wait_for(self.monitor, &mut self.guard, timeout)
    }

    /// As `wait`, but until the instant `timeout` at the latest; the result
    /// tells whether it passed. The lock is held again on return either way.
    pub fn wait_until(&mut self, timeout: Instant) -> (r: WaitTimeoutResult)
        ensures
            final(self).monitor() == old(self).monitor(),
            final(self).held().lock_of() == old(self).held().lock_of(),
    {
        proof {
            use_type_invariant(&*self);
        }
        condvar_wait_until(self.monitor, &mut self.guard, timeout)
    }
}

impl<T> From<T> for Monitor<T> {
    /// Same as `Monitor::new`.
    fn from(t: T) -> Self {
        Monitor::new(t)
    }
}

// A monitor has no value in specifications (its contents sit behind the
// lock), so the conversion makes no claim beyond what `new` states.
impl<T> vstd::std_specs::convert::FromSpecImpl<T> for Monitor<T> {
    open spec fn obeys_from_spec() -> bool {
        false
    }

    open spec fn from_spec(v: T) -> Self {
        arbitrary()
    }
}

impl<T> core::ops::Deref for MonitorGuard<'_, T> {
    type Target = T;

    fn deref(&self) -> &T {
        guard_deref(&self.guard)
    }
}

impl<T> core::ops::DerefMut for MonitorGuard<'_, T> {
    fn deref_mut(&mut self) -> &mut T {
        proof {
            use_type_invariant(&*self);
        }
        guard_deref_mut(&mut self.guard)
    }
}

} // verus!
