//! The raw reader-writer lock.

use vstd::prelude::*;

verus! {

/// The logical states of a raw reader-writer lock: shared access by one or
/// more readers and exclusive access by one writer are mutually exclusive.
#[derive(Clone, Copy, Debug, PartialEq, Eq, Structural)]
pub enum RWLockState {
    /// Initialized and not held in any mode.
    Unlocked,
    /// Held for shared access by `readers` threads; always at least one.
    Shared { readers: usize },
    /// Held for exclusive access by exactly one thread.
    Exclusive,
    /// Its native resources have been released; no further use is allowed.
    Destroyed,
}

/// A well-formed state: shared access counts at least one reader.
pub open spec fn state_wf(s: RWLockState) -> bool {
    s matches RWLockState::Shared { readers } ==> readers >= 1
}

/// The reader count of a state: zero unless it is `Shared`.
pub open spec fn state_readers(s: RWLockState) -> int {
    match s {
        RWLockState::Shared { readers } => readers as int,
        _ => 0,
    }
}

/// Whether one more shared acquisition can succeed without blocking: no
/// writer holds the lock and the reader count has room.
pub open spec fn state_can_read(s: RWLockState) -> bool {
    (s == RWLockState::Unlocked || s matches RWLockState::Shared { .. }) && state_readers(s)
        < usize::MAX
}

/// A shared acquisition, as a transition: one more reader joins whatever
/// readers are inside. This is what [`RWLock::read`] ensures.
pub open spec fn spec_read(s: RWLockState) -> RWLockState {
    match s {
        RWLockState::Shared { readers } => RWLockState::Shared {
            readers: (readers + 1) as usize,
        },
        _ => RWLockState::Shared { readers: 1 },
    }
}

/// A non-blocking shared acquisition attempt: succeeds exactly when the
/// state admits a reader, and changes nothing otherwise. This is what
/// [`RWLock::try_read`] ensures.
pub open spec fn spec_try_read(s: RWLockState) -> (RWLockState, bool) {
    if state_can_read(s) {
        (spec_read(s), true)
    } else {
        (s, false)
    }
}

/// An exclusive acquisition, as a transition. This is what
/// [`RWLock::write`] ensures.
pub open spec fn spec_write(s: RWLockState) -> RWLockState {
    let _ = s;
    RWLockState::Exclusive
}

/// A non-blocking exclusive acquisition attempt: succeeds exactly when the
/// lock is not held in any mode, and changes nothing otherwise. This is
/// what [`RWLock::try_write`] ensures.
pub open spec fn spec_try_write(s: RWLockState) -> (RWLockState, bool) {
    if s == RWLockState::Unlocked {
        (RWLockState::Exclusive, true)
    } else {
        (s, false)
    }
}

/// A shared release: one reader leaves, and the lock becomes unlocked when
/// the last one does. This is what [`RWLock::read_unlock`] ensures.
pub open spec fn spec_read_unlock(s: RWLockState) -> RWLockState {
    match s {
        RWLockState::Shared { readers } => if readers <= 1 {
            RWLockState::Unlocked
        } else {
            RWLockState::Shared { readers: (readers - 1) as usize }
        },
        _ => s,
    }
}

/// An exclusive release. This is what [`RWLock::write_unlock`] ensures.
pub open spec fn spec_write_unlock(s: RWLockState) -> RWLockState {
    let _ = s;
    RWLockState::Unlocked
}

/// An OS-based reader-writer lock, modelled by its logical state and by a
/// stable integer identity (the stand-in for the native object's address;
/// nonzero, distinct between distinct live locks).
pub struct RWLock {
    id: u64,
    state: RWLockState,
}

impl RWLock {
    /// The stable identity of this lock.
    pub closed spec fn id(&self) -> u64 {
        self.id
    }

    /// The logical state of the native lock.
    pub closed spec fn state(&self) -> RWLockState {
        self.state
    }

    /// A `Shared` state counts at least one reader.
    pub open spec fn wf(&self) -> bool {
        state_wf(self.state())
    }

    pub open spec fn is_unlocked(&self) -> bool {
        self.state() == RWLockState::Unlocked
    }

    pub open spec fn is_shared(&self) -> bool {
        self.state() matches RWLockState::Shared { .. }
    }

    pub open spec fn is_exclusive(&self) -> bool {
        self.state() == RWLockState::Exclusive
    }

    pub open spec fn is_destroyed(&self) -> bool {
        self.state() == RWLockState::Destroyed
    }

    /// How many threads hold shared access: zero unless the state is
    /// `Shared`.
    pub open spec fn readers(&self) -> int {
        state_readers(self.state())
    }

    /// Whether one more shared acquisition can succeed without blocking: no
    /// writer holds the lock and the reader count has room.
    pub open spec fn can_read(&self) -> bool {
        state_can_read(self.state())
    }

    /// Creates a newly initialized, unlocked reader-writer lock.
    pub fn new(id: u64) -> (l: RWLock)
        requires
            id != 0,
        ensures
            l.id() == id,
            l.is_unlocked(),
            l.wf(),
    {
        RWLock { id, state: RWLockState::Unlocked }
    }

    /// Acquires shared access. A reader blocks only while a writer holds the
    /// lock, so here the lock must not be held exclusively (nor destroyed);
    /// one more reader joins whatever readers are already inside.
    pub fn read(&mut self)
        requires
            old(self).wf(),
            old(self).can_read(),
        ensures
            final(self).id() == old(self).id(),
            final(self).is_shared(),
            final(self).readers() == old(self).readers() + 1,
            final(self).wf(),
            final(self).state() == spec_read(old(self).state()),
    {
        self.state = match self.state {
            RWLockState::Shared { readers } => RWLockState::Shared { readers: readers + 1 },
            _ => RWLockState::Shared { readers: 1 },
        };
    }

    /// Attempts to acquire shared access without blocking: succeeds exactly
    /// when no writer holds the lock and the reader count has room.
    pub fn try_read(&mut self) -> (acquired: bool)
        requires
            old(self).wf(),
            !old(self).is_destroyed(),
        ensures
            final(self).id() == old(self).id(),
            final(self).wf(),
            acquired == old(self).can_read(),
            acquired ==> final(self).is_shared()
                && final(self).readers() == old(self).readers() + 1,
            !acquired ==> *final(self) == *old(self),
            (final(self).state(), acquired) == spec_try_read(old(self).state()),
    {
        match self.state {
            RWLockState::Unlocked => {
                self.state = RWLockState::Shared { readers: 1 };
                true
            },
            RWLockState::Shared { readers } => {
                if readers < usize::MAX {
                    self.state = RWLockState::Shared { readers: readers + 1 };
                    true
                } else {
                    false
                }
            },
            _ => false,
        }
    }

    /// Acquires exclusive access. A writer blocks while any reader or writer
    /// holds the lock, so here the lock must be unlocked.
    pub fn write(&mut self)
        requires
            old(self).wf(),
            old(self).is_unlocked(),
        ensures
            final(self).id() == old(self).id(),
            final(self).is_exclusive(),
            final(self).wf(),
            final(self).state() == spec_write(old(self).state()),
    {
        self.state = RWLockState::Exclusive;
    }

    /// Attempts to acquire exclusive access without blocking: succeeds
    /// exactly when the lock is not held in any mode.
    pub fn try_write(&mut self) -> (acquired: bool)
        requires
            old(self).wf(),
            !old(self).is_destroyed(),
        ensures
            final(self).id() == old(self).id(),
            final(self).wf(),
            acquired == old(self).is_unlocked(),
            acquired ==> final(self).is_exclusive(),
            !acquired ==> *final(self) == *old(self),
            (final(self).state(), acquired) == spec_try_write(old(self).state()),
    {
        match self.state {
            RWLockState::Unlocked => {
                self.state = RWLockState::Exclusive;
                true
            },
            _ => false,
        }
    }

    /// Releases previously acquired shared access: one reader leaves, and
    /// the lock becomes unlocked when the last one does. Undefined at the
    /// native level without shared access, so the state must be `Shared`.
    pub fn read_unlock(&mut self)
        requires
            old(self).wf(),
            old(self).is_shared(),
        ensures
            final(self).id() == old(self).id(),
            final(self).wf(),
            final(self).readers() == old(self).readers() - 1,
            old(self).readers() == 1 ==> final(self).is_unlocked(),
            old(self).readers() > 1 ==> final(self).is_shared(),
            final(self).state() == spec_read_unlock(old(self).state()),
    {
        self.state = match self.state {
            RWLockState::Shared { readers } => {
                if readers == 1 {
                    RWLockState::Unlocked
                } else {
                    RWLockState::Shared { readers: readers - 1 }
                }
            },
            s => s,
        };
    }

    /// Releases previously acquired exclusive access. Undefined at the
    /// native level without exclusive access, so the state must be
    /// `Exclusive`.
    pub fn write_unlock(&mut self)
        requires
            old(self).is_exclusive(),
        ensures
            final(self).id() == old(self).id(),
            final(self).is_unlocked(),
            final(self).wf(),
            final(self).state() == spec_write_unlock(old(self).state()),
    {
        self.state = RWLockState::Unlocked;
    }

    /// Releases the native resources. A reader-writer lock is destroyed
    /// exactly once and never while held in any mode.
    pub fn destroy(&mut self)
        requires
            old(self).is_unlocked(),
        ensures
            final(self).id() == old(self).id(),
            final(self).is_destroyed(),
            final(self).wf(),
    {
        self.state = RWLockState::Destroyed;
    }
}

/// The identity of a raw reader-writer lock: the stand-in for the address
/// of the native object.
pub fn raw(l: &RWLock) -> (id: u64)
    ensures
        id == l.id(),
{
    l.id
}

} // verus!
