//! Reader-writer locks with guards.
//!
//! An [`RWLock`] allows any number of readers or at most one writer at any
//! point in time. `read` and `write` return RAII-style guards scoped to
//! shared or exclusive access; releasing a guard through
//! [`RWLock::read_unlock`] / [`RWLock::write_unlock`] is the sole operation
//! that releases the underlying raw lock. No poisoning is applied: a
//! write-side failure is not detectable from a reader's guard without
//! bookkeeping this design omits. More readers can only join by further
//! `read` calls — there is no guard-duplication primitive — and a `write`
//! guard guarantees exclusivity against all concurrent readers and writers
//! for its lifetime.
//!
//! A [`StaticRWLock`] is the same machine for process-wide use, with an
//! explicit [`StaticRWLock::destroy`] because an unmanaged static is never
//! destructed automatically.

use vstd::prelude::*;
use crate::sys;
use crate::sys::rwlock::{
    spec_read, spec_read_unlock, spec_try_read, spec_try_write, spec_write_unlock, state_can_read,
    state_readers, state_wf, RWLockState,
};

verus! {

/// A guard of shared read access: releasing it through
/// [`RWLock::read_unlock`] releases this thread's shared access.
#[derive(Debug)]
pub struct ReadGuard {
    lock_id: u64,
}

impl ReadGuard {
    /// The identity of the lock this guard was taken from.
    pub closed spec fn lock_id(&self) -> u64 {
        self.lock_id
    }

    /// Builds the guard token for the lock with the given identity.
    pub fn new(lock_id: u64) -> (g: ReadGuard)
        ensures
            g.lock_id() == lock_id,
    {
        ReadGuard { lock_id }
    }
}

/// A guard of exclusive write access: releasing it through
/// [`RWLock::write_unlock`] releases the exclusive access.
#[derive(Debug)]
pub struct WriteGuard {
    lock_id: u64,
}

impl WriteGuard {
    /// The identity of the lock this guard was taken from.
    pub closed spec fn lock_id(&self) -> u64 {
        self.lock_id
    }

    /// Builds the guard token for the lock with the given identity.
    pub fn new(lock_id: u64) -> (g: WriteGuard)
        ensures
            g.lock_id() == lock_id,
    {
        WriteGuard { lock_id }
    }
}

/// A reader-writer lock owning its raw primitive.
pub struct RWLock {
    inner: sys::RWLock,
}

impl RWLock {
    /// The raw lock component.
    pub closed spec fn sys_lock(&self) -> sys::RWLock {
        self.inner
    }

    /// The stable identity of this lock.
    pub open spec fn id(&self) -> u64 {
        self.sys_lock().id()
    }

    pub open spec fn is_unlocked(&self) -> bool {
        self.sys_lock().is_unlocked()
    }

    pub open spec fn is_shared(&self) -> bool {
        self.sys_lock().is_shared()
    }

    pub open spec fn is_exclusive(&self) -> bool {
        self.sys_lock().is_exclusive()
    }

    /// How many threads hold shared access.
    pub open spec fn readers(&self) -> int {
        self.sys_lock().readers()
    }

    /// Whether one more shared acquisition can succeed without blocking.
    pub open spec fn can_read(&self) -> bool {
        self.sys_lock().can_read()
    }

    /// A live lock: well-formed raw state, not destroyed — destruction
    /// consumes the owning value — and a valid identity.
    pub open spec fn wf(&self) -> bool {
        &&& self.sys_lock().wf()
        &&& !self.sys_lock().is_destroyed()
        &&& self.id() != 0
    }

    /// Creates a new unlocked reader-writer lock with the given identity
    /// (the stand-in for the raw object's address: nonzero, distinct between
    /// distinct live locks).
    pub fn new(id: u64) -> (l: RWLock)
        requires
            id != 0,
        ensures
            l.wf(),
            l.id() == id,
            l.is_unlocked(),
    {
        RWLock { inner: sys::RWLock::new(id) }
    }

    /// Acquires shared access, blocking the caller until there is no more
    /// writer inside; other readers may be inside when this returns. A
    /// blocking acquisition that waits out a writer ends in exactly this
    /// transition, so here the lock must not be held exclusively.
    pub fn read(&mut self) -> (g: ReadGuard)
        requires
            old(self).wf(),
            old(self).can_read(),
        ensures
            final(self).wf(),
            final(self).id() == old(self).id(),
            final(self).is_shared(),
            final(self).readers() == old(self).readers() + 1,
            g.lock_id() == old(self).id(),
    {
        self.inner.read();
        ReadGuard::new(self.raw())
    }

    /// Attempts to acquire shared access without blocking: succeeds exactly
    /// when no writer holds the lock (and the reader count has room).
    pub fn try_read(&mut self) -> (r: Option<ReadGuard>)
        requires
            old(self).wf(),
        ensures
            final(self).wf(),
            final(self).id() == old(self).id(),
            r is Some <==> old(self).can_read(),
            r is Some ==> final(self).is_shared()
                && final(self).readers() == old(self).readers() + 1,
            r is None ==> final(self).sys_lock() == old(self).sys_lock(),
            r matches Some(g) ==> g.lock_id() == old(self).id(),
    {
        if self.inner.try_read() {
            Some(ReadGuard::new(self.raw()))
        } else {
            None
        }
    }

    /// Acquires exclusive access, blocking the caller while any reader or
    /// writer is inside; a blocking acquisition that waits them out ends in
    /// exactly this transition, so here the lock must be unlocked.
    pub fn write(&mut self) -> (g: WriteGuard)
        requires
            old(self).wf(),
            old(self).is_unlocked(),
        ensures
            final(self).wf(),
            final(self).id() == old(self).id(),
            final(self).is_exclusive(),
            g.lock_id() == old(self).id(),
    {
        self.inner.write();
        WriteGuard::new(self.raw())
    }

    /// Attempts to acquire exclusive access without blocking: succeeds
    /// exactly when the lock is not held in any mode.
    pub fn try_write(&mut self) -> (r: Option<WriteGuard>)
        requires
            old(self).wf(),
        ensures
            final(self).wf(),
            final(self).id() == old(self).id(),
            r is Some <==> old(self).is_unlocked(),
            r is Some ==> final(self).is_exclusive(),
            r is None ==> final(self).sys_lock() == old(self).sys_lock(),
            r matches Some(g) ==> g.lock_id() == old(self).id(),
    {
        if self.inner.try_write() {
            Some(WriteGuard::new(self.raw()))
        } else {
            None
        }
    }

    /// Releases the shared access held by `g`: one reader leaves, and the
    /// lock becomes unlocked when the last one does.
    pub fn read_unlock(&mut self, g: ReadGuard)
        requires
            old(self).wf(),
            old(self).is_shared(),
            g.lock_id() == old(self).id(),
        ensures
            final(self).wf(),
            final(self).id() == old(self).id(),
            final(self).readers() == old(self).readers() - 1,
            old(self).readers() == 1 ==> final(self).is_unlocked(),
            old(self).readers() > 1 ==> final(self).is_shared(),
    {
        let _ = g;
        self.inner.read_unlock();
    }

    /// Releases the exclusive access held by `g`.
    pub fn write_unlock(&mut self, g: WriteGuard)
        requires
            old(self).wf(),
            old(self).is_exclusive(),
            g.lock_id() == old(self).id(),
        ensures
            final(self).wf(),
            final(self).id() == old(self).id(),
            final(self).is_unlocked(),
    {
        let _ = g;
        self.inner.write_unlock();
    }

    /// The stable identity of this lock.
    pub fn raw(&self) -> (id: u64)
        ensures
            id == self.id(),
    {
        sys::rwlock::raw(&self.inner)
    }

    /// Destroys the lock, releasing its raw native resources — exactly once,
    /// by consuming the owner, and never while held in any mode.
    pub fn destroy(self)
        requires
            self.wf(),
            self.is_unlocked(),
    {
        let RWLock { inner: mut inner } = self;
        inner.destroy();
    }
}

/// A reader-writer lock for static allocation, with explicit teardown.
///
/// A process-wide static cannot run a destructor, so the native resources
/// must be released by a separately-invoked [`StaticRWLock::destroy`]; the
/// requires-clauses here pin down the coordination that makes such a call
/// sound (nothing holds the lock, no further use).
pub struct StaticRWLock {
    inner: sys::RWLock,
}

impl StaticRWLock {
    /// The raw lock component.
    pub closed spec fn sys_lock(&self) -> sys::RWLock {
        self.inner
    }

    /// The stable identity of this lock.
    pub open spec fn id(&self) -> u64 {
        self.sys_lock().id()
    }

    pub open spec fn is_unlocked(&self) -> bool {
        self.sys_lock().is_unlocked()
    }

    pub open spec fn is_shared(&self) -> bool {
        self.sys_lock().is_shared()
    }

    pub open spec fn is_exclusive(&self) -> bool {
        self.sys_lock().is_exclusive()
    }

    pub open spec fn is_destroyed(&self) -> bool {
        self.sys_lock().is_destroyed()
    }

    /// How many threads hold shared access.
    pub open spec fn readers(&self) -> int {
        self.sys_lock().readers()
    }

    /// Whether one more shared acquisition can succeed without blocking.
    pub open spec fn can_read(&self) -> bool {
        self.sys_lock().can_read()
    }

    /// Well-formed raw state and a valid identity.
    pub open spec fn wf(&self) -> bool {
        &&& self.sys_lock().wf()
        &&& self.id() != 0
    }

    /// Creates a new unlocked static reader-writer lock with the given
    /// identity. This is the runtime analogue of the static initializer
    /// constant.
    pub fn new(id: u64) -> (l: StaticRWLock)
        requires
            id != 0,
        ensures
            l.wf(),
            l.id() == id,
            l.is_unlocked(),
    {
        StaticRWLock { inner: sys::RWLock::new(id) }
    }

    /// Acquires shared access; see [`RWLock::read`].
    pub fn read(&mut self) -> (g: ReadGuard)
        requires
            old(self).wf(),
            old(self).can_read(),
        ensures
            final(self).wf(),
            final(self).id() == old(self).id(),
            final(self).is_shared(),
            final(self).readers() == old(self).readers() + 1,
            g.lock_id() == old(self).id(),
    {
        self.inner.read();
        ReadGuard::new(sys::rwlock::raw(&self.inner))
    }

    /// Attempts to acquire shared access; see [`RWLock::try_read`].
    pub fn try_read(&mut self) -> (r: Option<ReadGuard>)
        requires
            old(self).wf(),
            !old(self).is_destroyed(),
        ensures
            final(self).wf(),
            final(self).id() == old(self).id(),
            r is Some <==> old(self).can_read(),
            r is Some ==> final(self).is_shared()
                && final(self).readers() == old(self).readers() + 1,
            r is None ==> final(self).sys_lock() == old(self).sys_lock(),
            r matches Some(g) ==> g.lock_id() == old(self).id(),
    {
        if self.inner.try_read() {
            Some(ReadGuard::new(sys::rwlock::raw(&self.inner)))
        } else {
            None
        }
    }

    /// Acquires exclusive access; see [`RWLock::write`].
    pub fn write(&mut self) -> (g: WriteGuard)
        requires
            old(self).wf(),
            old(self).is_unlocked(),
        ensures
            final(self).wf(),
            final(self).id() == old(self).id(),
            final(self).is_exclusive(),
            g.lock_id() == old(self).id(),
    {
        self.inner.write();
        WriteGuard::new(sys::rwlock::raw(&self.inner))
    }

    /// Attempts to acquire exclusive access; see [`RWLock::try_write`].
    pub fn try_write(&mut self) -> (r: Option<WriteGuard>)
        requires
            old(self).wf(),
            !old(self).is_destroyed(),
        ensures
            final(self).wf(),
            final(self).id() == old(self).id(),
            r is Some <==> old(self).is_unlocked(),
            r is Some ==> final(self).is_exclusive(),
            r is None ==> final(self).sys_lock() == old(self).sys_lock(),
            r matches Some(g) ==> g.lock_id() == old(self).id(),
    {
        if self.inner.try_write() {
            Some(WriteGuard::new(sys::rwlock::raw(&self.inner)))
        } else {
            None
        }
    }

    /// Releases the shared access held by `g`; see [`RWLock::read_unlock`].
    pub fn read_unlock(&mut self, g: ReadGuard)
        requires
            old(self).wf(),
            old(self).is_shared(),
            g.lock_id() == old(self).id(),
        ensures
            final(self).wf(),
            final(self).id() == old(self).id(),
            final(self).readers() == old(self).readers() - 1,
            old(self).readers() == 1 ==> final(self).is_unlocked(),
            old(self).readers() > 1 ==> final(self).is_shared(),
    {
        let _ = g;
        self.inner.read_unlock();
    }

    /// Releases the exclusive access held by `g`; see
    /// [`RWLock::write_unlock`].
    pub fn write_unlock(&mut self, g: WriteGuard)
        requires
            old(self).wf(),
            old(self).is_exclusive(),
            g.lock_id() == old(self).id(),
        ensures
            final(self).wf(),
            final(self).id() == old(self).id(),
            final(self).is_unlocked(),
    {
        let _ = g;
        self.inner.write_unlock();
    }

    /// Deallocates the resources of this static lock. Sound only once, with
    /// no holder and no further users — the coordination a static's owner
    /// must provide, stated here as the precondition, and enforced against
    /// later calls by every operation requiring a non-destroyed lock.
    pub fn destroy(&mut self)
        requires
            old(self).wf(),
            old(self).is_unlocked(),
        ensures
            final(self).id() == old(self).id(),
            final(self).is_destroyed(),
    {
        self.inner.destroy();
    }
}

/// Law: shared access coexists; a writer is excluded while it does. From
/// any state that admits a reader, two `read` acquisitions succeed without
/// blocking each other — the second finds the state still readable — and
/// leave both guards inside, two readers more than before. While either is
/// inside, an exclusive acquisition does not go through: a non-blocking
/// attempt fails and changes nothing (a blocking `write` keeps waiting,
/// since its precondition is the unlocked state). Once both readers have
/// released — from an unlocked start, the lock is unlocked again — a writer
/// gets in.
pub proof fn lemma_readers_coexist_writer_excluded(s: RWLockState)
    requires
        state_wf(s),
        state_can_read(s),
        state_readers(s) + 1 < usize::MAX,
    ensures
        ({
            let s1 = spec_read(s);
            let s2 = spec_read(s1);
            let released = spec_read_unlock(spec_read_unlock(s2));
            &&& state_can_read(s1)
            &&& state_readers(s2) == state_readers(s) + 2
            &&& !spec_try_write(s1).1 && spec_try_write(s1).0 == s1
            &&& !spec_try_write(s2).1 && spec_try_write(s2).0 == s2
            &&& state_readers(released) == state_readers(s)
            &&& (s == RWLockState::Unlocked ==> released == RWLockState::Unlocked
                && spec_try_write(released).1)
        }),
{
}

/// Law: a held write guard excludes everything. While the lock is held
/// exclusively, neither a shared nor an exclusive acquisition goes through
/// — the non-blocking attempts fail and change nothing — and once the
/// writer releases, both are admitted again.
pub proof fn lemma_writer_excludes_all()
    ensures
        !spec_try_read(RWLockState::Exclusive).1,
        spec_try_read(RWLockState::Exclusive).0 == RWLockState::Exclusive,
        !spec_try_write(RWLockState::Exclusive).1,
        spec_try_write(RWLockState::Exclusive).0 == RWLockState::Exclusive,
        spec_write_unlock(RWLockState::Exclusive) == RWLockState::Unlocked,
        spec_try_read(spec_write_unlock(RWLockState::Exclusive)).1,
        spec_try_write(spec_write_unlock(RWLockState::Exclusive)).1,
{
}

} // verus!
