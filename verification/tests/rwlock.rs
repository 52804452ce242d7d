use sync::rwlock::{RWLock, StaticRWLock};

#[test]
fn rwlock_smoke() {
    let mut l = RWLock::new(1);
    let r = l.read();
    l.read_unlock(r);
    let w = l.write();
    l.write_unlock(w);
    let r1 = l.read();
    let r2 = l.read();
    l.read_unlock(r1);
    l.read_unlock(r2);
    let w = l.write();
    l.write_unlock(w);
    l.destroy();
}

#[test]
fn rwlock_static_smoke() {
    let mut l = StaticRWLock::new(1);
    let r = l.read();
    l.read_unlock(r);
    let w = l.write();
    l.write_unlock(w);
    let r1 = l.read();
    let r2 = l.read();
    l.read_unlock(r1);
    l.read_unlock(r2);
    let w = l.write();
    l.write_unlock(w);
    l.destroy();
}

#[test]
fn frob() {
    // ten workers, a thousand lock operations each, every tenth one an
    // exclusive acquisition: the lock always comes back to rest.
    const N: usize = 10;
    const M: usize = 1000;
    let mut l = StaticRWLock::new(1);
    for i in 0..N {
        for j in 0..M {
            if (i + j) % N == 0 {
                let w = l.write();
                l.write_unlock(w);
            } else {
                let r = l.read();
                l.read_unlock(r);
            }
        }
    }
    l.destroy();
}

#[test]
fn readers_coexist_writer_blocked() {
    let mut l = RWLock::new(3);
    let r1 = l.read();
    let r2 = l.try_read().expect("a second reader joins without blocking");
    // a writer cannot get in while readers hold the lock
    assert!(l.try_write().is_none());
    l.read_unlock(r1);
    assert!(l.try_write().is_none());
    l.read_unlock(r2);
    // both readers gone: the writer gets in
    let w = l.try_write().expect("writer admitted once readers released");
    l.write_unlock(w);
}

#[test]
fn writer_excludes_all() {
    let mut l = RWLock::new(3);
    let w = l.write();
    assert!(l.try_read().is_none());
    assert!(l.try_write().is_none());
    l.write_unlock(w);
    let r = l.try_read().expect("reader admitted once the writer released");
    l.read_unlock(r);
}
