//! The raw condition variable.

use vstd::prelude::*;
use crate::sys::mutex::Mutex;

verus! {

/// Nanoseconds per second, the normalization bound of a native timespec.
pub const NANOS_PER_SEC: u64 = 1_000_000_000;

/// Nanoseconds per microsecond.
pub const NANOS_PER_MICRO: u64 = 1_000;

/// An OS-based condition variable.
///
/// A condition variable is logically stateless: it stores no predicate and
/// buffers no notification, so a notification sent while no thread is
/// blocked has no effect. The only state worth tracking is whether its
/// native resources are still alive. The binding of a condition variable to
/// one mutex is bookkeeping of the safe layer, not of the native object.
pub struct Condvar {
    destroyed: bool,
}

impl Condvar {
    /// Whether the native resources have been released.
    pub closed spec fn is_destroyed(&self) -> bool {
        self.destroyed
    }

    /// Creates a new condition variable ready to be waited on and notified.
    pub fn new() -> (c: Condvar)
        ensures
            !c.is_destroyed(),
    {
        Condvar { destroyed: false }
    }

    /// Wakes at most one thread blocked on this condition variable.
    /// Notifications are not buffered, and in a single-threaded execution no
    /// thread can be blocked while the caller runs, so nothing changes.
    pub fn notify_one(&self)
        requires
            !self.is_destroyed(),
    {
    }

    /// Wakes every thread currently blocked on this condition variable.
    /// Notifications are not buffered, and in a single-threaded execution no
    /// thread can be blocked while the caller runs, so nothing changes.
    pub fn notify_all(&self)
        requires
            !self.is_destroyed(),
    {
    }

    /// Atomically releases `mutex` and blocks until woken by a notification
    /// or spuriously; the mutex is re-acquired before the call returns. The
    /// native call is undefined unless the caller holds the mutex, so the
    /// mutex must be locked, and it is locked again on return. Callers must
    /// re-check their predicate in a loop: a wakeup may be spurious.
    pub fn wait(&self, mutex: &mut Mutex)
        requires
            !self.is_destroyed(),
            old(mutex).is_locked(),
        ensures
            final(mutex).id() == old(mutex).id(),
            final(mutex).is_locked(),
    {
        mutex.unlock();
        mutex.lock();
    }

    /// Like [`Condvar::wait`], but blocks no longer than `dur_ns`
    /// nanoseconds past the moment of the call; returns whether the wakeup
    /// was a signal (`true`) or the deadline elapsing (`false`). The mutex
    /// is re-acquired on return regardless of the outcome.
    ///
    /// Which of the two ended the block is decided by the other threads and
    /// the host, not by this state machine, so it enters as the plain value
    /// `signaled` — what the native timed wait reported — and is handed back
    /// unchanged: with no concurrent notifier it is `false`, the deadline
    /// elapsing.
    pub fn wait_timeout(&self, mutex: &mut Mutex, dur_ns: u64, signaled: bool) -> (r: bool)
        requires
            !self.is_destroyed(),
            old(mutex).is_locked(),
        ensures
            final(mutex).id() == old(mutex).id(),
            final(mutex).is_locked(),
            r == signaled,
    {
        let _ = dur_ns;
        mutex.unlock();
        mutex.lock();
        signaled
    }

    /// Releases the native resources. A condition variable is destroyed
    /// exactly once, with no thread blocked on it.
    pub fn destroy(&mut self)
        requires
            !old(self).is_destroyed(),
        ensures
            final(self).is_destroyed(),
    {
        self.destroyed = true;
    }
}

/// The absolute deadline of a timed wait, as a normalized native timespec.
///
/// A native timed wait takes an absolute wall-clock deadline, while callers
/// supply a duration relative to now: the deadline is the current time —
/// `now_sec` seconds plus `now_usec` microseconds, as the host's clock
/// reports it — advanced by `dur_ns` nanoseconds, split into whole seconds
/// and a nanosecond remainder below one second. The total must fit the
/// nanosecond counter, as it must on the native path.
pub fn abs_deadline(now_sec: u64, now_usec: u32, dur_ns: u64) -> (deadline: (u64, u32))
    requires
        now_usec < 1_000_000,
        now_sec * NANOS_PER_SEC + now_usec * NANOS_PER_MICRO + dur_ns <= u64::MAX,
    ensures
        deadline.1 < NANOS_PER_SEC,
        deadline.0 * NANOS_PER_SEC + deadline.1
            == now_sec * NANOS_PER_SEC + now_usec * NANOS_PER_MICRO + dur_ns,
{
    let total: u64 = now_sec * NANOS_PER_SEC + (now_usec as u64) * NANOS_PER_MICRO + dur_ns;
    let sec: u64 = total / NANOS_PER_SEC;
    let nsec: u64 = total % NANOS_PER_SEC;
    proof {
        assert(sec * NANOS_PER_SEC + nsec == total) by (nonlinear_arith)
            requires
                sec == total / NANOS_PER_SEC,
                nsec == total % NANOS_PER_SEC,
                NANOS_PER_SEC == 1_000_000_000u64,
        ;
    }
    (sec, nsec as u32)
}

} // verus!
