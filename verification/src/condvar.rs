//! Condition variables, bound at runtime to exactly one mutex.
//!
//! Some native condition-variable implementations are undefined when one
//! condition variable is used with two different mutexes, so this layer adds
//! one rule on top of the raw primitive: the first wait records the identity
//! (the address stand-in) of the mutex backing the supplied guard, and every
//! later wait re-validates it. Waiting with a second, different mutex is a
//! fatal usage error, reported here as [`WaitError::MismatchedMutex`] with
//! nothing changed.
//!
//! A wait releases the guard's raw mutex and blocks; on wake — by a
//! notification or spuriously — it re-acquires the raw mutex before
//! returning, so the mutex is locked again on every return path. The wait
//! does not re-validate the caller's predicate: callers must re-check it in
//! a loop.

use vstd::prelude::*;
use crate::mutex::{Mutex, MutexGuard, StaticMutexGuard};
use crate::sys;

verus! {

/// How a wait on a condition variable fails.
#[derive(Clone, Copy, Debug, PartialEq, Eq, Structural)]
pub enum WaitError {
    /// The condition variable is already bound to a different mutex: a
    /// fatal usage error; the wait did nothing.
    MismatchedMutex,
}

/// A value whose holder holds a mutex, usable with the waiting methods of
/// condition variables: both mutex guard kinds of this crate implement it.
pub trait AsMutexGuard {
    /// The identity of the mutex the holder acquired.
    spec fn guard_mutex_id(&self) -> u64;

    /// The raw-mutex token behind this guard.
    fn as_mutex_guard(&self) -> (g: &StaticMutexGuard)
        ensures
            g.mutex_id() == self.guard_mutex_id(),
    ;
}

impl AsMutexGuard for StaticMutexGuard {
    open spec fn guard_mutex_id(&self) -> u64 {
        self.mutex_id()
    }

    fn as_mutex_guard(&self) -> (g: &StaticMutexGuard) {
        self
    }
}

impl AsMutexGuard for MutexGuard {
    open spec fn guard_mutex_id(&self) -> u64 {
        self.mutex_id()
    }

    fn as_mutex_guard(&self) -> (g: &StaticMutexGuard) {
        self.as_static_guard()
    }
}

/// One step of the binding rule, as a transition of the recorded identity:
/// `bound` is what the condition variable is bound to so far (zero for
/// unbound), `id` the identity of the mutex now supplied to a wait. The
/// wait may proceed exactly when the condition variable is unbound or bound
/// to this same mutex, and binds it to `id` when it does; a mismatch
/// changes nothing.
pub open spec fn spec_bind(bound: u64, id: u64) -> (u64, bool) {
    if bound == id || bound == 0 {
        (id, true)
    } else {
        (bound, false)
    }
}

/// One step of the binding rule: `bound` is the identity this condition
/// variable is bound to so far (zero for unbound), `id` the identity of the
/// mutex now supplied to a wait. The wait may proceed exactly when the
/// condition variable is unbound or bound to this same mutex, and binds it
/// to `id` when it does; a mismatch changes nothing. A runtime performs the
/// same step with a compare-and-swap on an atomically-stored identity.
pub fn bind_outcome(bound: u64, id: u64) -> (r: (u64, bool))
    requires
        id != 0,
    ensures
        r == spec_bind(bound, id),
        r.1 == (bound == 0 || bound == id),
        r.1 ==> r.0 == id,
        !r.1 ==> r.0 == bound,
{
    if bound == id || bound == 0 {
        (id, true)
    } else {
        (bound, false)
    }
}

/// A statically-allocatable condition variable: the raw primitive plus the
/// identity of the one mutex it is bound to (zero while unbound). No
/// poisoning is tracked; see [`Condvar`] for the form that re-checks the
/// poison flag of the mutex it is used with.
pub struct StaticCondvar {
    inner: sys::Condvar,
    mutex: u64,
}

impl StaticCondvar {
    /// The identity of the mutex this condition variable is bound to, or
    /// zero while it is not yet bound.
    pub closed spec fn bound(&self) -> u64 {
        self.mutex
    }

    /// Whether the native resources have been released.
    pub closed spec fn is_destroyed(&self) -> bool {
        self.inner.is_destroyed()
    }

    /// Whether a wait with the mutex of identity `id` may proceed: the
    /// condition variable is unbound or already bound to that same mutex.
    pub open spec fn can_bind(&self, id: u64) -> bool {
        self.bound() == 0 || self.bound() == id
    }

    /// Creates a new, unbound condition variable. This is the runtime
    /// analogue of the static initializer constant.
    pub fn new() -> (c: StaticCondvar)
        ensures
            !c.is_destroyed(),
            c.bound() == 0,
    {
        StaticCondvar { inner: sys::Condvar::new(), mutex: 0 }
    }

    /// Wakes at most one thread blocked on this condition variable; a
    /// notification with no blocked waiter has no effect.
    pub fn notify_one(&self)
        requires
            !self.is_destroyed(),
    {
        self.inner.notify_one();
    }

    /// Wakes every thread currently blocked on this condition variable; a
    /// notification with no blocked waiter has no effect.
    pub fn notify_all(&self)
        requires
            !self.is_destroyed(),
    {
        self.inner.notify_all();
    }

    /// Blocks until this condition variable receives a notification, with
    /// `mutex` — the raw mutex backing `guard`, which the caller holds —
    /// released while blocked and re-acquired before the call returns.
    ///
    /// The first wait binds this condition variable to `mutex` for its whole
    /// lifetime; a wait whose guard backs a different mutex is a fatal usage
    /// error, reported without unbinding, without releasing the mutex and
    /// without blocking. Wakeups may be spurious: callers re-check their
    /// predicate in a loop.
    pub fn wait<G: AsMutexGuard>(&mut self, mutex: &mut sys::Mutex, guard: &G) -> (r: Result<
        (),
        WaitError,
    >)
        requires
            !old(self).is_destroyed(),
            old(mutex).is_locked(),
            old(mutex).id() != 0,
            guard.guard_mutex_id() == old(mutex).id(),
        ensures
            !final(self).is_destroyed(),
            final(mutex).id() == old(mutex).id(),
            final(mutex).is_locked(),
            r is Ok <==> old(self).can_bind(old(mutex).id()),
            r is Ok ==> final(self).bound() == old(mutex).id(),
            r matches Err(e) ==> e == WaitError::MismatchedMutex
                && final(self).bound() == old(self).bound()
                && *final(mutex) == *old(mutex),
            (final(self).bound(), r is Ok) == spec_bind(old(self).bound(), old(mutex).id()),
    {
        let _ = guard.as_mutex_guard();
        let (bound, ok) = bind_outcome(self.mutex, sys::mutex::raw(mutex));
        self.mutex = bound;
        if ok {
            self.inner.wait(mutex);
            Ok(())
        } else {
            Err(WaitError::MismatchedMutex)
        }
    }

    /// Like [`StaticCondvar::wait`], but blocks no longer than `dur_ns`
    /// nanoseconds; yields whether the wakeup was a signal (`true`) or the
    /// deadline elapsing (`false`), with the mutex re-acquired either way.
    ///
    /// Which of the two ended the block is decided by the other threads and
    /// the host, not here, so it enters as the plain value `signaled` — what
    /// the native timed wait reported — and is handed back unchanged: with
    /// no concurrent notifier it is `false`, the deadline elapsing.
    pub fn wait_timeout<G: AsMutexGuard>(
        &mut self,
        mutex: &mut sys::Mutex,
        guard: &G,
        dur_ns: u64,
        signaled: bool,
    ) -> (r: Result<bool, WaitError>)
        requires
            !old(self).is_destroyed(),
            old(mutex).is_locked(),
            old(mutex).id() != 0,
            guard.guard_mutex_id() == old(mutex).id(),
        ensures
            !final(self).is_destroyed(),
            final(mutex).id() == old(mutex).id(),
            final(mutex).is_locked(),
            r is Ok <==> old(self).can_bind(old(mutex).id()),
            r is Ok ==> final(self).bound() == old(mutex).id(),
            r matches Ok(s) ==> s == signaled,
            r matches Err(e) ==> e == WaitError::MismatchedMutex
                && final(self).bound() == old(self).bound()
                && *final(mutex) == *old(mutex),
            (final(self).bound(), r is Ok) == spec_bind(old(self).bound(), old(mutex).id()),
    {
        let _ = guard.as_mutex_guard();
        let (bound, ok) = bind_outcome(self.mutex, sys::mutex::raw(mutex));
        self.mutex = bound;
        if ok {
            let s = self.inner.wait_timeout(mutex, dur_ns, signaled);
            Ok(s)
        } else {
            Err(WaitError::MismatchedMutex)
        }
    }

    /// Deallocates the resources of this static condition variable. Sound
    /// only once, with no waiter and no further users.
    pub fn destroy(&mut self)
        requires
            !old(self).is_destroyed(),
        ensures
            final(self).is_destroyed(),
            final(self).bound() == old(self).bound(),
    {
        self.inner.destroy();
    }
}

/// A condition variable that owns its raw primitive and waits on the
/// poisonable [`Mutex`].
pub struct Condvar {
    inner: StaticCondvar,
}

impl Condvar {
    /// The identity of the mutex this condition variable is bound to, or
    /// zero while it is not yet bound.
    pub closed spec fn bound(&self) -> u64 {
        self.inner.bound()
    }

    /// Whether the native resources have been released; destruction consumes
    /// the owning value, so a live `Condvar` never is.
    pub closed spec fn is_destroyed(&self) -> bool {
        self.inner.is_destroyed()
    }

    /// Whether a wait with the mutex of identity `id` may proceed.
    pub open spec fn can_bind(&self, id: u64) -> bool {
        self.bound() == 0 || self.bound() == id
    }

    /// Creates a new, unbound condition variable ready to be waited on and
    /// notified.
    pub fn new() -> (c: Condvar)
        ensures
            !c.is_destroyed(),
            c.bound() == 0,
    {
        Condvar { inner: StaticCondvar::new() }
    }

    /// Wakes at most one thread blocked on this condition variable; a
    /// notification with no blocked waiter has no effect.
    pub fn notify_one(&self)
        requires
            !self.is_destroyed(),
    {
        self.inner.notify_one();
    }

    /// Wakes every thread currently blocked on this condition variable; a
    /// notification with no blocked waiter has no effect.
    pub fn notify_all(&self)
        requires
            !self.is_destroyed(),
    {
        self.inner.notify_all();
    }

    /// Blocks until this condition variable receives a notification, with
    /// the mutex backing `guard` released while blocked and re-acquired
    /// before the call returns — on every outcome, so the guard stays valid.
    ///
    /// The first wait binds this condition variable to the guard's mutex for
    /// its whole lifetime; waiting with a different mutex is a fatal usage
    /// error ([`WaitError::MismatchedMutex`]), reported with nothing changed
    /// and without blocking. The guard is not consumed and not re-validated
    /// for poisoning by the wait: wakeups may be spurious, so callers
    /// re-check their own predicate in a loop either way.
    pub fn wait<T>(&mut self, mutex: &mut Mutex<T>, guard: &MutexGuard) -> (r: Result<
        (),
        WaitError,
    >)
        requires
            !old(self).is_destroyed(),
            old(mutex).wf(),
            old(mutex).is_locked(),
            guard.mutex_id() == old(mutex).id(),
        ensures
            !final(self).is_destroyed(),
            final(mutex).wf(),
            final(mutex).id() == old(mutex).id(),
            final(mutex).is_locked(),
            final(mutex).poisoned() == old(mutex).poisoned(),
            final(mutex).data() == old(mutex).data(),
            r is Ok <==> old(self).can_bind(old(mutex).id()),
            r is Ok ==> final(self).bound() == old(mutex).id(),
            r matches Err(e) ==> e == WaitError::MismatchedMutex
                && final(self).bound() == old(self).bound(),
            (final(self).bound(), r is Ok) == spec_bind(old(self).bound(), old(mutex).id()),
    {
        self.inner.wait(mutex.sys_mutex(), guard)
    }

    /// Like [`Condvar::wait`], but blocks no longer than `dur_ns`
    /// nanoseconds; yields whether the wakeup was a signal (`true`) or the
    /// deadline elapsing (`false`), with the mutex re-acquired either way.
    ///
    /// Which of the two ended the block is decided by the other threads and
    /// the host, not here, so it enters as the plain value `signaled` — what
    /// the native timed wait reported — and is handed back unchanged: with
    /// no concurrent notifier it is `false`, the deadline elapsing.
    pub fn wait_timeout<T>(
        &mut self,
        mutex: &mut Mutex<T>,
        guard: &MutexGuard,
        dur_ns: u64,
        signaled: bool,
    ) -> (r: Result<bool, WaitError>)
        requires
            !old(self).is_destroyed(),
            old(mutex).wf(),
            old(mutex).is_locked(),
            guard.mutex_id() == old(mutex).id(),
        ensures
            !final(self).is_destroyed(),
            final(mutex).wf(),
            final(mutex).id() == old(mutex).id(),
            final(mutex).is_locked(),
            final(mutex).poisoned() == old(mutex).poisoned(),
            final(mutex).data() == old(mutex).data(),
            r is Ok <==> old(self).can_bind(old(mutex).id()),
            r is Ok ==> final(self).bound() == old(mutex).id(),
            r matches Ok(s) ==> s == signaled,
            r matches Err(e) ==> e == WaitError::MismatchedMutex
                && final(self).bound() == old(self).bound(),
            (final(self).bound(), r is Ok) == spec_bind(old(self).bound(), old(mutex).id()),
    {
        self.inner.wait_timeout(mutex.sys_mutex(), guard, dur_ns, signaled)
    }

    /// Destroys the condition variable, releasing its raw native resources —
    /// exactly once, by consuming the owner, with no waiter blocked on it.
    pub fn destroy(self)
        requires
            !self.is_destroyed(),
    {
        let Condvar { inner: mut inner } = self;
        inner.destroy();
    }
}

/// Law: a condition variable is dynamically, permanently bound to exactly
/// one mutex. The first wait binds it to that mutex's identity; every later
/// wait with the same mutex proceeds; and a wait with any different mutex —
/// here the second call, after a first wait bound `m1` — is rejected as a
/// fatal usage error, with the binding unchanged, so the condition variable
/// can never migrate to a second mutex.
pub proof fn lemma_bound_to_one_mutex(m1: u64, m2: u64)
    requires
        m1 != 0,
        m2 != 0,
        m2 != m1,
    ensures
        spec_bind(0, m1) == (m1, true),
        spec_bind(m1, m1) == (m1, true),
        spec_bind(m1, m2) == (m1, false),
{
}

} // verus!
