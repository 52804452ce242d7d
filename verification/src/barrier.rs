//! A reusable N-party rendezvous barrier.
//!
//! The barrier composes a mutex-protected `{count, generation}` pair with a
//! condition variable. Each `wait` records the caller's generation and
//! increments `count` under the internal mutex; a caller that is not the
//! last party blocks on the condition variable in a loop that re-checks
//! both that the generation has not advanced and that `count` is still
//! short of `N` — guarding against spurious wakeups and against
//! late-arriving threads from a future rendezvous observing stale counts.
//! The `N`th party — exactly one per rendezvous — resets `count` to zero,
//! advances the generation (opening the barrier for reuse) and wakes all
//! waiters, which unblock only once the reset is visible, so none can
//! double-count into the next generation.

use vstd::prelude::*;
use crate::condvar::Condvar;
use crate::mutex::Mutex;

verus! {

/// The rendezvous state a barrier protects with its internal mutex:
/// how many parties are currently waiting, and which rendezvous epoch is in
/// progress. Between rendezvous events, `count` stays below the number of
/// parties; it resets to zero exactly when the last party arrives, which is
/// also the one moment `generation_id` advances.
pub struct BarrierState {
    /// The number of parties currently waiting at the barrier.
    pub count: usize,
    /// The rendezvous epoch: advanced once per completed rendezvous, so a
    /// blocked party can tell its own round's completion from a stale count
    /// of the next round.
    pub generation_id: usize,
}

/// One arrival, as a transition of the rendezvous state: with `n` parties
/// expected, an arrival either joins the waiters — one more waiting, same
/// generation, not the leader — or, as the `n`th party, completes the
/// rendezvous: the count resets to zero and the generation advances.
pub open spec fn spec_arrive(s: BarrierState, n: int) -> (BarrierState, bool) {
    if s.count + 1 < n {
        (BarrierState { count: (s.count + 1) as usize, generation_id: s.generation_id }, false)
    } else {
        (BarrierState { count: 0, generation_id: (s.generation_id + 1) as usize }, true)
    }
}

/// The rendezvous state after `k` arrivals at a barrier of `n` parties.
pub open spec fn spec_arrive_k(s: BarrierState, n: int, k: nat) -> BarrierState
    decreases k,
{
    if k == 0 {
        s
    } else {
        spec_arrive(spec_arrive_k(s, n, (k - 1) as nat), n).0
    }
}

impl BarrierState {
    /// The state a fresh barrier starts in: nobody waiting, epoch zero.
    pub fn new() -> (s: BarrierState)
        ensures
            s.count == 0,
            s.generation_id == 0,
    {
        BarrierState { count: 0, generation_id: 0 }
    }

    /// Records one arrival at a barrier of `num_threads` parties and reports
    /// whether the arriving party is the releaser of this rendezvous. This
    /// is the decision step a barrier takes under its internal mutex.
    pub fn arrive(&mut self, num_threads: usize) -> (leader: bool)
        requires
            old(self).count < num_threads,
            old(self).generation_id < usize::MAX,
        ensures
            (*final(self), leader) == spec_arrive(*old(self), num_threads as int),
            leader == (old(self).count + 1 == num_threads),
    {
        self.count = self.count + 1;
        if self.count < num_threads {
            false
        } else {
            self.count = 0;
            self.generation_id = self.generation_id + 1;
            true
        }
    }

    /// The condition under which a party that arrived in generation
    /// `local_gen` keeps waiting: its rendezvous has not completed (the
    /// generation has not advanced) and the expected number of parties has
    /// not been reached. This is the wait-loop condition a barrier re-checks
    /// after every wakeup, spurious or not.
    pub fn still_waiting(&self, local_gen: usize, num_threads: usize) -> (waiting: bool)
        ensures
            waiting == (local_gen == self.generation_id && self.count < num_threads),
    {
        local_gen == self.generation_id && self.count < num_threads
    }
}

/// A barrier enabling a fixed number of parties to synchronize the beginning
/// of some computation, reusable for any number of rounds.
pub struct Barrier {
    lock: Mutex<BarrierState>,
    cvar: Condvar,
    num_threads: usize,
}

impl Barrier {
    /// The number of parties this barrier rendezvouses.
    pub closed spec fn num_threads(&self) -> usize {
        self.num_threads
    }

    /// The number of parties currently waiting.
    pub closed spec fn count(&self) -> usize {
        self.lock.data().count
    }

    /// The rendezvous epoch in progress.
    pub closed spec fn generation(&self) -> usize {
        self.lock.data().generation_id
    }

    /// The barrier's invariant between calls: at least one party is
    /// expected; fewer parties than expected are waiting; the internal mutex
    /// is live, released and unpoisoned (no barrier code fails while holding
    /// it); and the internal condition variable is live and bound, if at
    /// all, to the internal mutex.
    pub closed spec fn wf(&self) -> bool {
        &&& self.num_threads >= 1
        &&& self.lock.data().count < self.num_threads
        &&& self.lock.wf()
        &&& self.lock.is_unlocked()
        &&& !self.lock.poisoned()
        &&& !self.cvar.is_destroyed()
        &&& self.cvar.can_bind(self.lock.id())
    }

    /// Creates a new barrier that can block `n` parties: it will block the
    /// first `n - 1` callers of [`Barrier::wait`] and release them all when
    /// the `n`th calls.
    pub fn new(n: usize) -> (b: Barrier)
        requires
            n >= 1,
        ensures
            b.wf(),
            b.num_threads() == n,
            b.count() == 0,
            b.generation() == 0,
    {
        Barrier {
            // The internal mutex is private to this barrier, and the
            // identity only ever compared against the internal condition
            // variable's binding, so any nonzero value serves.
            lock: Mutex::new(1, BarrierState::new()),
            cvar: Condvar::new(),
            num_threads: n,
        }
    }

    /// One party arrives at the rendezvous; reports whether this party is
    /// the releaser (exactly one party per rendezvous is).
    ///
    /// A party that is not the releaser blocks until the rendezvous
    /// completes: it waits on the internal condition variable in a loop
    /// whose condition is [`BarrierState::still_waiting`] for the
    /// generation it arrived in. One blocking round is recorded here; the
    /// round ends when the releaser's reset and generation advance become
    /// visible. The releaser resets the count, advances the generation and
    /// wakes all waiters, leaving the barrier ready for its next round.
    pub fn wait(&mut self) -> (leader: bool)
        requires
            old(self).wf(),
            old(self).generation() < usize::MAX,
        ensures
            final(self).wf(),
            final(self).num_threads() == old(self).num_threads(),
            (
                BarrierState { count: final(self).count(), generation_id: final(self).generation() },
                leader,
            ) == spec_arrive(
                BarrierState { count: old(self).count(), generation_id: old(self).generation() },
                old(self).num_threads() as int,
            ),
            leader == (old(self).count() + 1 == old(self).num_threads()),
            !leader ==> final(self).count() == old(self).count() + 1
                && final(self).generation() == old(self).generation(),
            leader ==> final(self).count() == 0
                && final(self).generation() == old(self).generation() + 1,
    {
        let locked = self.lock.lock();
        // The internal mutex is never poisoned (no barrier code fails while
        // holding it), so the acquisition cannot report poisoning; either
        // arm carries the same valid guard.
        let guard = match locked {
            Ok(g) => g,
            Err(e) => e.into_inner(),
        };
        let local_gen = self.lock.get(&guard).generation_id;
        let leader = self.lock.get_mut(&guard).arrive(self.num_threads);
        if !leader {
            // A real caller repeats this round while the wait condition
            // holds; each round releases the mutex, blocks, and re-acquires
            // it. The round recorded here ends with the releaser's
            // generation advance.
            if self.lock.get(&guard).still_waiting(local_gen, self.num_threads) {
                let woken = self.cvar.wait(&mut self.lock, &guard);
                proof {
                    // The condition variable is bound to the internal mutex
                    // and the mutex is unpoisoned, so the wait cannot fail.
                    assert(woken is Ok);
                }
            }
            self.lock.unlock(guard, false);
            false
        } else {
            self.cvar.notify_all();
            self.lock.unlock(guard, false);
            true
        }
    }
}

/// Law: a barrier of `n` parties blocks every early arrival. Starting a
/// round with nobody waiting, after any `k < n` arrivals exactly `k`
/// parties are waiting, the generation has not advanced, none of the `k`
/// arrivals was the releaser, and each of them still satisfies the wait
/// condition for the generation it arrived in — no completion has been
/// signaled.
pub proof fn lemma_early_arrivals_stay_blocked(s: BarrierState, n: int, k: nat)
    requires
        s.count == 0,
        1 <= n <= usize::MAX,
        k < n,
    ensures
        spec_arrive_k(s, n, k).count == k,
        spec_arrive_k(s, n, k).generation_id == s.generation_id,
        forall|i: nat| i < k ==> !spec_arrive(#[trigger] spec_arrive_k(s, n, i), n).1,
        spec_arrive_k(s, n, k).count < n,
    decreases k,
{
    if k > 0 {
        lemma_early_arrivals_stay_blocked(s, n, (k - 1) as nat);
    }
}

/// Law: the `n`th arrival — exactly one per rendezvous — releases the
/// round. After `n - 1` arrivals from an empty round, the next arrival is
/// the releaser: the count resets to zero and the generation advances, so
/// the wait condition of every blocked party — tied to the generation it
/// arrived in — turns false and all of them return. The barrier is then
/// ready for a second full round with the same `n`: `n` further arrivals
/// end it the same way, one generation later.
pub proof fn lemma_nth_arrival_releases(s: BarrierState, n: int)
    requires
        s.count == 0,
        1 <= n <= usize::MAX,
        s.generation_id + 2 <= usize::MAX,
    ensures
        ({
            let before = spec_arrive_k(s, n, (n - 1) as nat);
            let (after, leader) = spec_arrive(before, n);
            &&& leader
            &&& after.count == 0
            &&& after.generation_id == s.generation_id + 1
            &&& spec_arrive(spec_arrive_k(after, n, (n - 1) as nat), n).1
            &&& spec_arrive(spec_arrive_k(after, n, (n - 1) as nat), n).0 == (BarrierState {
                count: 0,
                generation_id: (s.generation_id + 2) as usize,
            })
        }),
{
    lemma_early_arrivals_stay_blocked(s, n, (n - 1) as nat);
    let before = spec_arrive_k(s, n, (n - 1) as nat);
    let after = spec_arrive(before, n).0;
    lemma_early_arrivals_stay_blocked(after, n, (n - 1) as nat);
}

} // verus!
