use sync::mutex::{Mutex, StaticMutex};

fn acquire<T>(m: &mut Mutex<T>) -> sync::mutex::MutexGuard {
    match m.lock() {
        Ok(g) => g,
        Err(e) => e.into_inner(),
    }
}

#[test]
fn smoke() {
    let mut m = Mutex::new(1, ());
    let g = m.lock().unwrap();
    m.unlock(g, false);
    let g = m.lock().unwrap();
    m.unlock(g, false);
}

#[test]
fn smoke_static() {
    let mut m = StaticMutex::new(1);
    let g = m.lock();
    m.unlock(g);
    let g = m.lock();
    m.unlock(g);
    m.destroy();
}

#[test]
fn lots_and_lots() {
    // three pairs of workers, each incrementing the shared counter 1000
    // times under the lock: no update is lost.
    const J: u64 = 1000;
    const K: u64 = 3;
    let mut m = Mutex::new(1, 0u64);
    for _worker in 0..(2 * K) {
        for _ in 0..J {
            let g = m.lock().unwrap();
            *m.get_mut(&g) += 1;
            m.unlock(g, false);
        }
    }
    let g = m.lock().unwrap();
    assert_eq!(*m.get(&g), J * K * 2);
    m.unlock(g, false);
}

#[test]
fn try_lock() {
    let mut m = Mutex::new(1, ());
    let r = m.try_lock();
    assert!(r.is_some());
    let g = r.unwrap().unwrap();
    m.unlock(g, false);
}

#[test]
fn try_lock_busy() {
    let mut m = Mutex::new(1, 5u32);
    let g = m.lock().unwrap();
    assert!(m.try_lock().is_none());
    m.unlock(g, false);
    assert!(m.try_lock().is_some());
}

#[test]
fn poisoning_is_sticky_and_reported() {
    let mut m = Mutex::new(1, 10u32);
    assert!(!m.is_poisoned());

    // A holder starts unwinding while the guard is live: the release
    // poisons the mutex.
    let g = acquire(&mut m);
    m.unlock(g, true);
    assert!(m.is_poisoned());

    // Every later acquisition reports poisoning, from lock and try_lock.
    let r = m.lock();
    assert!(r.is_err());
    let g = r.unwrap_err().into_inner();
    // The data stays reachable despite the poisoning.
    assert_eq!(*m.get(&g), 10);
    m.unlock(g, false);

    let r = m.try_lock();
    assert!(r.unwrap().is_err());
    assert!(m.is_poisoned());
}

#[test]
fn release_observing_unwinding_poisons() {
    // The release-time fact alone decides: any guard whose release observes
    // the execution unwinding poisons the mutex.
    let mut m = Mutex::new(1, 0u8);
    let g = m.lock().unwrap();
    m.unlock(g, true);
    assert!(m.is_poisoned());
}

#[test]
fn destroy_returns_data() {
    let m = Mutex::new(4, String::from("shared"));
    assert_eq!(m.destroy(), "shared");
}

#[test]
fn identities_and_error_accessors() {
    let m = Mutex::new(31, 0u8);
    assert_eq!(m.raw(), 31);
    let mut m = m;
    let g = m.lock().unwrap();
    m.unlock(g, true);
    let e = m.lock().unwrap_err();
    assert_eq!(e.get_ref().as_static_guard().raw(), 31);
    let g = e.into_inner();
    m.unlock(g, false);
}

#[test]
fn static_mutex_try_lock_and_destroy() {
    let mut m = StaticMutex::new(9);
    let g = m.try_lock().unwrap();
    assert!(m.try_lock().is_none());
    m.unlock(g);
    m.destroy();
}
