use sync::barrier::{Barrier, BarrierState};

#[test]
fn test_barrier() {
    // Nine of ten parties arrive: none is released. The tenth arrival is
    // the releaser, and the barrier is ready for another full round.
    let mut barrier = Barrier::new(10);
    for _ in 0..9 {
        assert!(!barrier.wait());
    }
    assert!(barrier.wait());
    for _ in 0..9 {
        assert!(!barrier.wait());
    }
    assert!(barrier.wait());
}

#[test]
fn single_party_barrier_never_blocks() {
    let mut barrier = Barrier::new(1);
    assert!(barrier.wait());
    assert!(barrier.wait());
}

#[test]
fn arrivals_and_generations() {
    let mut s = BarrierState::new();
    assert_eq!((s.count, s.generation_id), (0, 0));
    // two of three parties arrive and keep waiting
    assert!(!s.arrive(3));
    assert!(s.still_waiting(0, 3));
    assert!(!s.arrive(3));
    assert_eq!((s.count, s.generation_id), (2, 0));
    assert!(s.still_waiting(0, 3));
    // the third arrival completes the rendezvous
    assert!(s.arrive(3));
    assert_eq!((s.count, s.generation_id), (0, 1));
    // the waiters of generation zero are released ...
    assert!(!s.still_waiting(0, 3));
    // ... while a party of the new round waits again
    assert!(!s.arrive(3));
    assert!(s.still_waiting(1, 3));
}
