use monitor::Monitor;
use std::time::{Duration, Instant};

#[test]
fn new_then_into_inner_returns_value() {
    let m = Monitor::new(5u32);
    assert_eq!(m.into_inner(), 5);
}

#[test]
fn from_wraps_value() {
    let m: Monitor<u32> = Monitor::from(7u32);
    assert_eq!(*m.lock(), 7);
}

#[test]
fn default_holds_default_value() {
    let m: Monitor<Vec<u8>> = Monitor::default();
    assert!(m.lock().is_empty());
}

#[test]
fn get_mut_writes_without_locking() {
    let mut m = Monitor::new(1u32);
    *m.get_mut() += 41;
    assert_eq!(m.into_inner(), 42);
}

#[test]
fn get_mut_does_not_block_after_guards_dropped() {
    let mut m = Monitor::new(String::from("a"));
    {
        let mut g = m.lock();
        g.push('b');
    }
    m.get_mut().push('c');
    assert_eq!(m.into_inner(), "abc");
}

#[test]
fn guard_reads_and_writes_value() {
    let m = Monitor::new(10i64);
    {
        let mut g = m.lock();
        *g -= 3;
        assert_eq!(*g, 7);
    }
    assert_eq!(*m.lock(), 7);
}

#[test]
fn guard_gives_method_access() {
    let m = Monitor::new(vec![1, 2, 3]);
    let mut g = m.lock();
    g.push(4);
    assert_eq!(g.len(), 4);
    assert_eq!(g.iter().sum::<i32>(), 10);
}

#[test]
fn try_lock_fails_while_held_and_succeeds_after_release() {
    let m = Monitor::new(0u8);
    let g = m.lock();
    assert!(m.try_lock().is_none());
    drop(g);
    let again = m.try_lock();
    assert!(again.is_some());
    assert_eq!(*again.unwrap(), 0);
}

#[test]
fn try_lock_succeeds_when_free() {
    let m = Monitor::new(3u8);
    let g = m.try_lock().expect("lock is free");
    assert_eq!(*g, 3);
}

#[test]
fn try_lock_for_times_out_while_held() {
    let m = Monitor::new(0u8);
    let _g = m.lock();
    let d = Duration::from_millis(50);
    let start = Instant::now();
    assert!(m.try_lock_for(d).is_none());
    let elapsed = start.elapsed();
    assert!(elapsed >= d);
    assert!(elapsed < Duration::from_secs(5));
}

#[test]
fn try_lock_for_succeeds_when_free() {
    let m = Monitor::new(9u8);
    let g = m.try_lock_for(Duration::from_millis(10)).expect("lock is free");
    assert_eq!(*g, 9);
}

#[test]
fn try_lock_until_times_out_while_held() {
    let m = Monitor::new(0u8);
    let _g = m.lock();
    let start = Instant::now();
    let deadline = start + Duration::from_millis(50);
    assert!(m.try_lock_until(deadline).is_none());
    assert!(Instant::now() >= deadline);
}

#[test]
fn try_lock_until_succeeds_when_free() {
    let m = Monitor::new(4u8);
    let g = m
        .try_lock_until(Instant::now() + Duration::from_millis(10))
        .expect("lock is free");
    assert_eq!(*g, 4);
}

#[test]
fn with_lock_returns_closure_result_and_releases() {
    let m = Monitor::new(20u32);
    let r = m.with_lock(|mut g| {
        *g += 1;
        *g * 2
    });
    assert_eq!(r, 42);
    assert!(m.try_lock().is_some());
    assert_eq!(m.into_inner(), 21);
}

#[test]
fn try_with_lock_skips_closure_while_held() {
    let m = Monitor::new(0u32);
    let g = m.lock();
    let mut called = false;
    let r = m.try_with_lock(|_g| {
        called = true;
        1
    });
    assert!(r.is_none());
    assert!(!called);
    drop(g);
    assert_eq!(m.try_with_lock(|g| *g + 1), Some(1));
    assert!(m.try_lock().is_some());
}

#[test]
fn try_with_lock_for_times_out_while_held() {
    let m = Monitor::new(0u32);
    let _g = m.lock();
    let d = Duration::from_millis(30);
    let start = Instant::now();
    assert_eq!(m.try_with_lock_for(d, |g| *g), None);
    assert!(start.elapsed() >= d);
}

#[test]
fn try_with_lock_for_runs_closure_when_free() {
    let m = Monitor::new(5u32);
    assert_eq!(m.try_with_lock_for(Duration::from_millis(10), |g| *g * 3), Some(15));
    assert!(m.try_lock().is_some());
}

#[test]
fn try_with_lock_until_times_out_while_held() {
    let m = Monitor::new(0u32);
    let _g = m.lock();
    let deadline = Instant::now() + Duration::from_millis(30);
    assert_eq!(m.try_with_lock_until(deadline, |g| *g), None);
    assert!(Instant::now() >= deadline);
}

#[test]
fn try_with_lock_until_runs_closure_when_free() {
    let m = Monitor::new(2u32);
    let deadline = Instant::now() + Duration::from_millis(10);
    assert_eq!(m.try_with_lock_until(deadline, |mut g| { *g += 1; *g }), Some(3));
    assert_eq!(m.into_inner(), 3);
}

#[test]
fn notify_without_waiters_is_a_no_op() {
    let m = Monitor::new(1u8);
    let g = m.lock();
    g.notify_one();
    g.notify_all();
    assert_eq!(*g, 1);
    assert!(m.try_lock().is_none());
}

#[test]
fn wait_for_without_notification_times_out_holding_lock() {
    let m = Monitor::new(0u8);
    let mut g = m.lock();
    let d = Duration::from_millis(50);
    let start = Instant::now();
    let r = g.wait_for(d);
    let elapsed = start.elapsed();
    assert!(r.timed_out());
    assert!(elapsed >= d);
    assert!(elapsed < Duration::from_secs(5));
    assert!(m.try_lock().is_none());
    *g += 1;
    assert_eq!(*g, 1);
}

#[test]
fn wait_until_without_notification_times_out_holding_lock() {
    let m = Monitor::new(0u8);
    let mut g = m.lock();
    let deadline = Instant::now() + Duration::from_millis(50);
    let r = g.wait_until(deadline);
    assert!(r.timed_out());
    assert!(Instant::now() >= deadline);
    assert!(m.try_lock().is_none());
}

fn bump_or_bail(m: &Monitor<u32>, bail: bool) -> Option<u32> {
    let mut g = m.lock();
    if bail {
        return None;
    }
    *g += 1;
    Some(*g)
}

#[test]
fn guard_released_on_early_return() {
    let m = Monitor::new(0u32);
    assert_eq!(bump_or_bail(&m, true), None);
    assert!(m.try_lock().is_some());
    assert_eq!(bump_or_bail(&m, false), Some(1));
    assert!(m.try_lock().is_some());
}

#[test]
fn apply_to_guard_runs_closure_on_acquired_guard() {
    let m = Monitor::new(8u32);
    let r = Monitor::apply_to_guard(m.try_lock(), |mut g| {
        *g += 2;
        *g
    });
    assert_eq!(r, Some(10));
    assert_eq!(m.into_inner(), 10);
}

#[test]
fn apply_to_guard_skips_closure_without_guard() {
    let m = Monitor::new(8u32);
    let held = m.lock();
    let mut called = false;
    let r = Monitor::apply_to_guard(m.try_lock(), |_g| {
        called = true;
        0u32
    });
    assert_eq!(r, None);
    assert!(!called);
    drop(held);
}

#[test]
fn wait_for_keeps_guard_usable_for_notify() {
    let m = Monitor::new(1u8);
    let mut g = m.lock();
    let r = g.wait_for(Duration::from_millis(10));
    assert!(r.timed_out());
    g.notify_one();
    *g += 1;
    drop(g);
    assert_eq!(m.into_inner(), 2);
}
