use sync::poison::{Flag, Guard};
use sync::sys;

#[test]
fn raw_mutex_transitions() {
    let mut m = sys::Mutex::new(11);
    assert_eq!(sys::mutex::raw(&m), 11);
    m.lock();
    assert!(!m.try_lock());
    m.unlock();
    assert!(m.try_lock());
    m.unlock();
    m.destroy();
}

#[test]
fn raw_rwlock_transitions() {
    let mut l = sys::RWLock::new(12);
    assert_eq!(sys::rwlock::raw(&l), 12);
    l.read();
    assert!(l.try_read());
    assert!(!l.try_write());
    l.read_unlock();
    l.read_unlock();
    assert!(l.try_write());
    assert!(!l.try_read());
    l.write_unlock();
    l.write();
    l.write_unlock();
    l.destroy();
}

#[test]
fn raw_condvar_wait_keeps_mutex_held() {
    let mut m = sys::Mutex::new(13);
    let c = sys::Condvar::new();
    m.lock();
    c.wait(&mut m);
    assert!(!m.try_lock());
    // no notifier: the host reports the deadline elapsing
    assert!(!c.wait_timeout(&mut m, 1_000_000, false));
    m.unlock();
    c.notify_one();
    c.notify_all();
    let mut c = c;
    c.destroy();
    m.destroy();
}

#[test]
fn poison_flag_set_by_release_observing_unwinding() {
    let mut flag = Flag { failed: false };
    // acquired and released with no failure in sight: the flag stays clear
    let g = flag.borrow();
    assert!(!g.check(&flag));
    g.done(&mut flag, false);
    assert!(!flag.failed);
    // a release that observes the execution unwinding sets it
    let g = flag.borrow();
    g.done(&mut flag, true);
    assert!(flag.failed);
    // once set, it is never cleared
    let g = flag.borrow();
    assert!(g.check(&flag));
    g.done(&mut flag, false);
    assert!(flag.failed);
}

#[test]
fn poison_flag_set_once_stays_set() {
    let mut flag = Flag { failed: false };
    let g: Guard = flag.borrow();
    g.done(&mut flag, true);
    assert!(flag.failed);
    let g = flag.borrow();
    g.done(&mut flag, true);
    assert!(flag.failed);
}
