use sync::condvar::{bind_outcome, Condvar, StaticCondvar, WaitError};
use sync::mutex::{Mutex, StaticMutex, StaticMutexGuard};
use sync::sys;

#[test]
fn condvar_smoke() {
    let c = Condvar::new();
    c.notify_one();
    c.notify_all();
    c.destroy();
}

#[test]
fn condvar_static_smoke() {
    let mut c = StaticCondvar::new();
    c.notify_one();
    c.notify_all();
    c.destroy();
}

#[test]
fn notify_one() {
    // In a single-threaded run the notifier cannot overlap the wait: the
    // wait round ends (as if woken) with the mutex re-acquired.
    let mut m = Mutex::new(1, false);
    let mut c = Condvar::new();
    let g = m.lock().unwrap();
    let woken = c.wait(&mut m, &g);
    assert!(woken.is_ok());
    m.unlock(g, false);
    c.notify_one();
    c.destroy();
    m.destroy();
}

#[test]
fn notify_all() {
    let mut m = Mutex::new(1, false);
    let mut c = Condvar::new();
    let g = m.lock().unwrap();
    let woken = c.wait(&mut m, &g);
    assert!(woken.is_ok());
    m.unlock(g, false);
    c.notify_all();
    c.destroy();
    m.destroy();
}

#[test]
fn wait_timeout() {
    // With no pending notifier a bounded wait times out rather than
    // blocking; with a concurrent notifier the host reports a signal; the
    // mutex is re-acquired either way.
    let mut m = Mutex::new(1, ());
    let mut c = Condvar::new();
    let g = m.lock().unwrap();
    let signaled = c.wait_timeout(&mut m, &g, 1000, false).unwrap();
    assert!(!signaled);
    let signaled = c.wait_timeout(&mut m, &g, 86_400_000_000_000, true).unwrap();
    assert!(signaled);
    m.unlock(g, false);
    c.destroy();
    m.destroy();
}

#[test]
fn wait_timeout_zero_deadline() {
    let mut m = Mutex::new(1, ());
    let mut c = Condvar::new();
    let g = m.lock().unwrap();
    let signaled = c.wait_timeout(&mut m, &g, 0, false).unwrap();
    assert!(!signaled);
    m.unlock(g, false);
}

#[test]
fn two_mutexes() {
    // Using one condition variable with two different mutexes is a fatal
    // usage error on the second call; the first binding stands.
    let mut m1 = Mutex::new(1, ());
    let mut m2 = Mutex::new(2, ());
    let mut c = Condvar::new();

    let g1 = m1.lock().unwrap();
    assert!(c.wait(&mut m1, &g1).is_ok());
    m1.unlock(g1, false);

    let g2 = m2.lock().unwrap();
    assert_eq!(c.wait(&mut m2, &g2), Err(WaitError::MismatchedMutex));
    m2.unlock(g2, false);

    // The original mutex still works with the condition variable.
    let g1 = m1.lock().unwrap();
    assert!(c.wait(&mut m1, &g1).is_ok());
    m1.unlock(g1, false);
}

#[test]
fn static_condvar_binds_raw_mutex() {
    let mut m = sys::Mutex::new(21);
    let mut c = StaticCondvar::new();
    m.lock();
    let g = StaticMutexGuard::new(21);
    assert!(c.wait(&mut m, &g).is_ok());
    let signaled = c.wait_timeout(&mut m, &g, 50, false).unwrap();
    assert!(!signaled);
    m.unlock();

    let mut other = sys::Mutex::new(22);
    other.lock();
    let g2 = StaticMutexGuard::new(22);
    assert_eq!(c.wait(&mut other, &g2), Err(WaitError::MismatchedMutex));
    other.unlock();
}

#[test]
fn static_condvar_with_static_mutex() {
    let mut m = StaticMutex::new(7);
    let mut c = StaticCondvar::new();
    let g = m.lock();
    assert!(c.wait(m.sys_mutex(), &g).is_ok());
    let signaled = c.wait_timeout(m.sys_mutex(), &g, 100, false).unwrap();
    assert!(!signaled);
    m.unlock(g);
    c.destroy();
    m.destroy();
}

#[test]
fn wait_does_not_revalidate_poisoning() {
    // A wait is not an acquisition: it re-acquires the mutex whatever the
    // poison flag says, and the caller's guard stays valid.
    let mut m = Mutex::new(1, 3u8);
    let g = m.lock().unwrap();
    m.unlock(g, true);
    assert!(m.is_poisoned());

    let mut c = Condvar::new();
    let g = m.lock().unwrap_err().into_inner();
    assert!(c.wait(&mut m, &g).is_ok());
    assert_eq!(*m.get(&g), 3);
    m.unlock(g, false);
    assert!(m.is_poisoned());
}

#[test]
fn bind_outcome_steps() {
    // unbound: the first mutex binds
    assert_eq!(bind_outcome(0, 5), (5, true));
    // bound to the same mutex: proceeds
    assert_eq!(bind_outcome(5, 5), (5, true));
    // bound to a different mutex: rejected, binding unchanged
    assert_eq!(bind_outcome(5, 6), (5, false));
}

#[test]
fn abs_deadline_values() {
    // 2 s + 500000 us + 1_600_000_000 ns = 4.1 s
    assert_eq!(sys::condvar::abs_deadline(2, 500_000, 1_600_000_000), (4, 100_000_000));
    // exact second boundary
    assert_eq!(sys::condvar::abs_deadline(10, 0, 0), (10, 0));
    // a microsecond clock reading alone
    assert_eq!(sys::condvar::abs_deadline(0, 999_999, 1000), (1, 0));
}
