//! Mutual-exclusion locks with guards and poisoning.
//!
//! A [`Mutex`] owns the data it protects: the data is reachable only while
//! a guard obtained from `lock` or `try_lock` is live, and the guard's
//! release — [`Mutex::unlock`] — is the sole operation that releases the
//! underlying raw mutex and updates the poison flag. If the release
//! observes that the current execution is unwinding due to a failure, the
//! flag is set — before the raw mutex is released — and every later
//! acquisition reports a [`PoisonError`]; the error still carries the
//! guard, so the caller may inspect the data despite the poisoning or
//! propagate the failure.
//!
//! A [`StaticMutex`] is the bare form for process-wide use: no protected
//! data and no poisoning, plus an explicit [`StaticMutex::destroy`] because
//! an unmanaged static is never destructed automatically.

use vstd::prelude::*;
use crate::poison;
use crate::sys;

verus! {

/// The error reported when a lock is acquired after some holder failed
/// while holding it. It carries the guard: the acquisition did succeed, the
/// data is still reachable, and releasing the guard still releases the lock.
#[derive(Debug)]
pub struct PoisonError<G> {
    guard: G,
}

impl<G> PoisonError<G> {
    /// The guard carried by the error.
    pub closed spec fn guard(&self) -> G {
        self.guard
    }

    /// Wraps a guard whose acquisition observed the poison flag.
    pub fn new(guard: G) -> (e: PoisonError<G>)
        ensures
            e.guard() == guard,
    {
        PoisonError { guard }
    }

    /// Recovers the guard, ignoring the poisoning.
    pub fn into_inner(self) -> (g: G)
        ensures
            g == self.guard(),
    {
        self.guard
    }

    /// Borrows the guard, ignoring the poisoning.
    pub fn get_ref(&self) -> (g: &G)
        ensures
            *g == self.guard(),
    {
        &self.guard
    }
}

/// A guard of a [`StaticMutex`]: a token recording which raw mutex the
/// holder acquired. Releasing it through [`StaticMutex::unlock`] is what
/// releases the raw mutex.
#[derive(Debug)]
pub struct StaticMutexGuard {
    mutex_id: u64,
}

impl StaticMutexGuard {
    /// The identity of the raw mutex this guard was taken from.
    pub closed spec fn mutex_id(&self) -> u64 {
        self.mutex_id
    }

    /// Builds the guard token for the raw mutex with the given identity.
    pub fn new(mutex_id: u64) -> (g: StaticMutexGuard)
        ensures
            g.mutex_id() == mutex_id,
    {
        StaticMutexGuard { mutex_id }
    }

    /// The identity of the raw mutex this guard was taken from.
    pub fn raw(&self) -> (id: u64)
        ensures
            id == self.mutex_id(),
    {
        self.mutex_id
    }
}

/// A guard of a [`Mutex`]: the token through which the protected data is
/// reached, carrying the poison token of its critical section. Releasing it
/// through [`Mutex::unlock`] updates the poison flag and releases the raw
/// mutex, in that order.
#[derive(Debug)]
pub struct MutexGuard {
    inner: StaticMutexGuard,
    poison: poison::Guard,
}

impl MutexGuard {
    /// The identity of the mutex this guard was taken from.
    pub closed spec fn mutex_id(&self) -> u64 {
        self.inner.mutex_id()
    }

    /// The inner raw-mutex token.
    pub fn as_static_guard(&self) -> (g: &StaticMutexGuard)
        ensures
            g.mutex_id() == self.mutex_id(),
    {
        &self.inner
    }
}

/// A mutual exclusion primitive protecting the data it owns.
///
/// The identity is the stand-in for the address of the raw native object
/// (stable once used, which is why the original keeps it at a fixed heap
/// address): nonzero, distinct between distinct live mutexes. A condition
/// variable records it to detect use with a second mutex.
pub struct Mutex<T> {
    lock: sys::Mutex,
    poison: poison::Flag,
    data: T,
}

impl<T> Mutex<T> {
    /// The raw lock component.
    pub closed spec fn sys_lock(&self) -> sys::Mutex {
        self.lock
    }

    /// The stable identity of this mutex.
    pub open spec fn id(&self) -> u64 {
        self.sys_lock().id()
    }

    pub open spec fn is_unlocked(&self) -> bool {
        self.sys_lock().is_unlocked()
    }

    pub open spec fn is_locked(&self) -> bool {
        self.sys_lock().is_locked()
    }

    /// Whether a holder failed while holding this mutex.
    pub closed spec fn poisoned(&self) -> bool {
        self.poison.failed
    }

    /// The protected data.
    pub closed spec fn data(&self) -> T {
        self.data
    }

    /// A live mutex: its raw lock has not been destroyed — destruction
    /// consumes the owning value — and its identity is a valid address
    /// stand-in.
    pub open spec fn wf(&self) -> bool {
        &&& !self.sys_lock().is_destroyed()
        &&& self.id() != 0
    }

    /// Creates a new unlocked, unpoisoned mutex protecting `t`, with the
    /// given identity.
    pub fn new(id: u64, t: T) -> (m: Mutex<T>)
        requires
            id != 0,
        ensures
            m.id() == id,
            m.is_unlocked(),
            !m.poisoned(),
            m.data() == t,
            m.wf(),
    {
        Mutex { lock: sys::Mutex::new(id), poison: poison::Flag { failed: false }, data: t }
    }

    /// The stable identity of this mutex.
    pub fn raw(&self) -> (id: u64)
        ensures
            id == self.id(),
    {
        sys::mutex::raw(&self.lock)
    }

    /// Whether this mutex is poisoned.
    pub fn is_poisoned(&self) -> (r: bool)
        ensures
            r == self.poisoned(),
    {
        self.poison.failed
    }

    /// Acquires the mutex, blocking the caller until it is able to do so.
    /// On return the caller is the sole holder. If some previous holder
    /// failed while holding the mutex, the acquisition reports poisoning —
    /// after acquiring, matching the raw acquisition order, so the error
    /// carries the guard and releasing it still releases the lock.
    ///
    /// Acquiring a mutex the caller already holds would suspend the caller
    /// forever, so the mutex must be unlocked; a blocking acquisition that
    /// waits out another holder ends in exactly this transition.
    pub fn lock(&mut self) -> (r: Result<MutexGuard, PoisonError<MutexGuard>>)
        requires
            old(self).wf(),
            old(self).is_unlocked(),
        ensures
            final(self).wf(),
            final(self).id() == old(self).id(),
            final(self).is_locked(),
            final(self).poisoned() == old(self).poisoned(),
            final(self).data() == old(self).data(),
            r is Err <==> old(self).poisoned(),
            r matches Ok(g) ==> g.mutex_id() == old(self).id(),
            r matches Err(e) ==> e.guard().mutex_id() == old(self).id(),
            (final(self).model(), r is Err) == spec_lock(old(self).model()),
    {
        self.lock.lock();
        let pg = self.poison.borrow();
        let guard = MutexGuard { inner: StaticMutexGuard::new(sys::mutex::raw(&self.lock)), poison: pg };
        if guard.poison.check(&self.poison) {
            Err(PoisonError::new(guard))
        } else {
            Ok(guard)
        }
    }

    /// Attempts to acquire the mutex without blocking: yields nothing when
    /// the mutex is currently held, and otherwise acquires it, with the same
    /// poisoning report as [`Mutex::lock`].
    pub fn try_lock(&mut self) -> (r: Option<Result<MutexGuard, PoisonError<MutexGuard>>>)
        requires
            old(self).wf(),
        ensures
            final(self).wf(),
            final(self).id() == old(self).id(),
            final(self).poisoned() == old(self).poisoned(),
            final(self).data() == old(self).data(),
            r is None <==> old(self).is_locked(),
            r is None ==> final(self).sys_lock() == old(self).sys_lock(),
            r is Some ==> final(self).is_locked(),
            r matches Some(res) ==> (res is Err <==> old(self).poisoned()),
            r matches Some(Ok(g)) ==> g.mutex_id() == old(self).id(),
            r matches Some(Err(e)) ==> e.guard().mutex_id() == old(self).id(),
            final(self).model() == spec_try_lock(old(self).model()).0,
            r is None <==> spec_try_lock(old(self).model()).1 is None,
            r matches Some(res) ==> spec_try_lock(old(self).model()).1 == Some(res is Err),
    {
        if self.lock.try_lock() {
            let pg = self.poison.borrow();
            let guard = MutexGuard {
                inner: StaticMutexGuard::new(sys::mutex::raw(&self.lock)),
                poison: pg,
            };
            if guard.poison.check(&self.poison) {
                Some(Err(PoisonError::new(guard)))
            } else {
                Some(Ok(guard))
            }
        } else {
            None
        }
    }

    /// Borrows the protected data through a live guard of this mutex.
    pub fn get<'a>(&'a self, guard: &MutexGuard) -> (r: &'a T)
        requires
            self.is_locked(),
            guard.mutex_id() == self.id(),
        ensures
            *r == self.data(),
    {
        let _ = guard;
        &self.data
    }

    /// Borrows the protected data mutably through a live guard of this
    /// mutex.
    pub fn get_mut<'a>(&'a mut self, guard: &MutexGuard) -> (r: &'a mut T)
        requires
            old(self).wf(),
            old(self).is_locked(),
            guard.mutex_id() == old(self).id(),
        ensures
            *r == old(self).data(),
            final(self).data() == *final(r),
            final(self).sys_lock() == old(self).sys_lock(),
            final(self).poisoned() == old(self).poisoned(),
            final(self).wf(),
    {
        let _ = guard;
        &mut self.data
    }

    /// Releases the mutex, consuming the guard; `panicking` is whether the
    /// current execution is unwinding due to a failure, as the release
    /// observes it. The poison flag is updated first — it becomes set if it
    /// was, or if the release observes unwinding — and the raw mutex is
    /// released after, so the next acquirer observes the poisoning.
    pub fn unlock(&mut self, guard: MutexGuard, panicking: bool)
        requires
            old(self).wf(),
            old(self).is_locked(),
            guard.mutex_id() == old(self).id(),
        ensures
            final(self).wf(),
            final(self).id() == old(self).id(),
            final(self).is_unlocked(),
            final(self).data() == old(self).data(),
            final(self).poisoned() == (old(self).poisoned() || panicking),
            final(self).model() == spec_unlock(old(self).model(), panicking),
    {
        guard.poison.done(&mut self.poison, panicking);
        self.lock.unlock();
    }

    /// Borrows the raw lock component mutably, for the condition-variable
    /// wait path, which releases and re-acquires it around the block.
    pub(crate) fn sys_mutex(&mut self) -> (r: &mut sys::Mutex)
        ensures
            *r == old(self).sys_lock(),
            final(self).sys_lock() == *final(r),
            final(self).poisoned() == old(self).poisoned(),
            final(self).data() == old(self).data(),
    {
        &mut self.lock
    }

    /// Destroys the mutex, releasing its raw native resources — exactly
    /// once, by consuming the owner, and never while held — and returns the
    /// protected data.
    pub fn destroy(self) -> (t: T)
        requires
            self.wf(),
            self.is_unlocked(),
        ensures
            t == self.data(),
    {
        let Mutex { lock: mut lock, poison: _, data } = self;
        lock.destroy();
        data
    }
}

/// A mutual-exclusion lock for static allocation: no owned data and no
/// poisoning, with explicit teardown.
///
/// A process-wide static cannot run a destructor, so the native resources
/// must be released by a separately-invoked [`StaticMutex::destroy`]; the
/// requires-clauses here pin down the coordination that makes such a call
/// sound (nothing holds the lock, no further use).
pub struct StaticMutex {
    lock: sys::Mutex,
}

impl StaticMutex {
    /// The raw lock component.
    pub closed spec fn sys_lock(&self) -> sys::Mutex {
        self.lock
    }

    /// The stable identity of this mutex.
    pub open spec fn id(&self) -> u64 {
        self.sys_lock().id()
    }

    pub open spec fn is_unlocked(&self) -> bool {
        self.sys_lock().is_unlocked()
    }

    pub open spec fn is_locked(&self) -> bool {
        self.sys_lock().is_locked()
    }

    pub open spec fn is_destroyed(&self) -> bool {
        self.sys_lock().is_destroyed()
    }

    /// Creates a new unlocked static mutex with the given identity. This is
    /// the runtime analogue of the static initializer constant: a fresh
    /// value behaves as the platform's zero/self-initializing sentinel.
    pub fn new(id: u64) -> (m: StaticMutex)
        requires
            id != 0,
        ensures
            m.id() == id,
            m.is_unlocked(),
    {
        StaticMutex { lock: sys::Mutex::new(id) }
    }

    /// Acquires this lock; see [`Mutex::lock`]. No poisoning is tracked.
    pub fn lock(&mut self) -> (g: StaticMutexGuard)
        requires
            old(self).is_unlocked(),
        ensures
            final(self).id() == old(self).id(),
            final(self).is_locked(),
            g.mutex_id() == old(self).id(),
    {
        self.lock.lock();
        StaticMutexGuard::new(sys::mutex::raw(&self.lock))
    }

    /// Attempts to acquire this lock without blocking; see
    /// [`Mutex::try_lock`].
    pub fn try_lock(&mut self) -> (r: Option<StaticMutexGuard>)
        requires
            !old(self).is_destroyed(),
        ensures
            final(self).id() == old(self).id(),
            r is Some <==> old(self).is_unlocked(),
            r is Some ==> final(self).is_locked(),
            r is None ==> final(self).sys_lock() == old(self).sys_lock(),
            r matches Some(g) ==> g.mutex_id() == old(self).id(),
    {
        if self.lock.try_lock() {
            Some(StaticMutexGuard::new(sys::mutex::raw(&self.lock)))
        } else {
            None
        }
    }

    /// Releases this lock, consuming the guard.
    pub fn unlock(&mut self, guard: StaticMutexGuard)
        requires
            old(self).is_locked(),
            guard.mutex_id() == old(self).id(),
        ensures
            final(self).id() == old(self).id(),
            final(self).is_unlocked(),
    {
        let _ = guard;
        self.lock.unlock();
    }

    /// Borrows the raw lock component mutably: what a wait on a static
    /// condition variable takes, to release and re-acquire it around the
    /// block.
    pub fn sys_mutex(&mut self) -> (r: &mut sys::Mutex)
        ensures
            *r == old(self).sys_lock(),
            final(self).sys_lock() == *final(r),
    {
        &mut self.lock
    }

    /// Deallocates the resources of this static mutex. Sound only once, with
    /// no holder and no further users — the coordination a static's owner
    /// must provide, stated here as the precondition, and enforced against
    /// later calls by every operation requiring a non-destroyed lock.
    pub fn destroy(&mut self)
        requires
            old(self).is_unlocked(),
        ensures
            final(self).id() == old(self).id(),
            final(self).is_destroyed(),
    {
        self.lock.destroy();
    }
}


/// The observable state of a mutex, for contracts and laws: whether it is
/// held, whether it is poisoned, and the protected value.
pub struct MutexModel<V> {
    /// Whether the mutex is held.
    pub locked: bool,
    /// Whether some holder failed while holding it.
    pub poisoned: bool,
    /// The protected value.
    pub value: V,
}

impl<T> Mutex<T> {
    /// The observable state of this mutex.
    pub open spec fn model(&self) -> MutexModel<T> {
        MutexModel { locked: self.is_locked(), poisoned: self.poisoned(), value: self.data() }
    }
}

/// A blocking acquisition, as a transition of the observable state: the
/// mutex becomes held, and the acquisition reports poisoning exactly when
/// the flag is set. This is what [`Mutex::lock`] ensures.
pub open spec fn spec_lock<V>(m: MutexModel<V>) -> (MutexModel<V>, bool) {
    (MutexModel { locked: true, poisoned: m.poisoned, value: m.value }, m.poisoned)
}

/// A non-blocking acquisition attempt: a held mutex is left untouched and
/// nothing is reported; otherwise as [`spec_lock`]. This is what
/// [`Mutex::try_lock`] ensures.
pub open spec fn spec_try_lock<V>(m: MutexModel<V>) -> (MutexModel<V>, Option<bool>) {
    if m.locked {
        (m, None)
    } else {
        (MutexModel { locked: true, poisoned: m.poisoned, value: m.value }, Some(m.poisoned))
    }
}

/// A release whose destruction observes the execution unwinding iff
/// `panicking`: the mutex becomes free, and the poison flag becomes set
/// exactly when it already was, or when the release observes unwinding.
/// This is what [`Mutex::unlock`] ensures.
pub open spec fn spec_unlock<V>(m: MutexModel<V>, panicking: bool) -> MutexModel<V> {
    MutexModel { locked: false, poisoned: m.poisoned || panicking, value: m.value }
}

/// An operation of a mutex's history, for laws quantifying over every
/// sequence of uses.
pub enum MutexOp {
    /// A blocking acquisition.
    Lock,
    /// A non-blocking acquisition attempt.
    TryLock,
    /// A release, with the unwinding fact observed at release time.
    Unlock { panicking: bool },
}

/// The observable state after one operation.
pub open spec fn spec_step<V>(m: MutexModel<V>, op: MutexOp) -> MutexModel<V> {
    match op {
        MutexOp::Lock => spec_lock(m).0,
        MutexOp::TryLock => spec_try_lock(m).0,
        MutexOp::Unlock { panicking } => spec_unlock(m, panicking),
    }
}

/// The observable state after a sequence of operations.
pub open spec fn spec_run<V>(m: MutexModel<V>, ops: Seq<MutexOp>) -> MutexModel<V>
    decreases ops.len(),
{
    if ops.len() == 0 {
        m
    } else {
        spec_run(spec_step(m, ops[0]), ops.skip(1))
    }
}

/// Law: poisoning is sticky and global to the mutex. Once the poison flag
/// is set, no sequence of acquisitions and releases clears it; every later
/// blocking acquisition reports poisoning, and so does every non-blocking
/// attempt that acquires; and no operation in the sequence touches the
/// protected value — the data stays reachable despite the poisoning.
pub proof fn lemma_poison_sticky<V>(m: MutexModel<V>, ops: Seq<MutexOp>)
    requires
        m.poisoned,
    ensures
        spec_run(m, ops).poisoned,
        spec_lock(spec_run(m, ops)).1,
        !spec_run(m, ops).locked ==> spec_try_lock(spec_run(m, ops)).1 == Some(true),
        spec_run(m, ops).value == m.value,
    decreases ops.len(),
{
    if ops.len() > 0 {
        lemma_poison_sticky(spec_step(m, ops[0]), ops.skip(1));
    }
}

/// One full critical section incrementing a protected counter: acquire,
/// add one to the value, release with no failure.
pub open spec fn spec_increment(m: MutexModel<int>) -> MutexModel<int> {
    let held = spec_lock(m).0;
    spec_unlock(
        MutexModel { locked: held.locked, poisoned: held.poisoned, value: held.value + 1 },
        false,
    )
}

/// The state after `k` increment critical sections.
pub open spec fn spec_increments(m: MutexModel<int>, k: nat) -> MutexModel<int>
    decreases k,
{
    if k == 0 {
        m
    } else {
        spec_increments(spec_increment(m), (k - 1) as nat)
    }
}

/// Law: no lost updates. Any number of increment critical sections add up
/// exactly: after `k` of them the counter has grown by `k`, the mutex is
/// free again, and the poison flag is untouched.
pub proof fn lemma_no_lost_updates(m: MutexModel<int>, k: nat)
    ensures
        spec_increments(m, k).value == m.value + k,
        spec_increments(m, k).poisoned == m.poisoned,
        k >= 1 ==> !spec_increments(m, k).locked,
    decreases k,
{
    if k > 0 {
        lemma_no_lost_updates(spec_increment(m), (k - 1) as nat);
    }
}

/// Law: with `n` threads each incrementing a shared mutex-protected counter
/// `t` times, mutual exclusion orders the critical sections totally, so the
/// execution is some serialization of `n * t` increments; starting from
/// zero the final value is exactly `n * t`.
pub proof fn lemma_counter_totals(n: nat, t: nat)
    ensures
        spec_increments(
            MutexModel { locked: false, poisoned: false, value: 0 },
            n * t,
        ).value == n * t,
{
    lemma_no_lost_updates(MutexModel { locked: false, poisoned: false, value: 0 }, n * t);
}

} // verus!
