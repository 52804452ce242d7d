//! The raw mutual-exclusion lock.

use vstd::prelude::*;

verus! {

/// The logical states of a raw mutex. A statically-initializable native
/// mutex starts out ready for use, so a fresh value is `Unlocked`; it is
/// destroyed exactly once, and never while held.
#[derive(Clone, Copy, Debug, PartialEq, Eq, Structural)]
pub enum MutexState {
    /// Initialized and not held by any thread.
    Unlocked,
    /// Held by exactly one thread.
    Locked,
    /// Its native resources have been released; no further use is allowed.
    Destroyed,
}

/// An OS-based mutual exclusion lock, modelled by its logical state and by
/// a stable integer identity.
///
/// The identity stands for the address of the native object, which must not
/// change once the mutex has been used: it is what a condition variable
/// records to detect use with a second mutex. It is supplied by the caller
/// (a runtime passes the native object's address), must be nonzero — zero
/// is the condition variable's "unbound" sentinel — and must differ between
/// distinct live mutexes that can meet the same condition variable, as
/// addresses do; a mutex kept private to one owner, like a barrier's
/// internal lock, only ever meets its own condition variable, so any
/// nonzero value serves it.
pub struct Mutex {
    id: u64,
    state: MutexState,
}

impl Mutex {
    /// The stable identity of this mutex.
    pub closed spec fn id(&self) -> u64 {
        self.id
    }

    /// The logical state of the native lock.
    pub closed spec fn state(&self) -> MutexState {
        self.state
    }

    pub open spec fn is_unlocked(&self) -> bool {
        self.state() == MutexState::Unlocked
    }

    pub open spec fn is_locked(&self) -> bool {
        self.state() == MutexState::Locked
    }

    pub open spec fn is_destroyed(&self) -> bool {
        self.state() == MutexState::Destroyed
    }

    /// Creates a newly initialized, unlocked mutex with the given identity.
    pub fn new(id: u64) -> (m: Mutex)
        requires
            id != 0,
        ensures
            m.id() == id,
            m.is_unlocked(),
    {
        Mutex { id, state: MutexState::Unlocked }
    }

    /// Acquires the mutex. Acquiring a mutex the caller already holds would
    /// suspend the caller forever (or is undefined, depending on platform),
    /// so only an unlocked mutex may be locked here; a blocking acquisition
    /// that waits out another holder ends in exactly this transition.
    pub fn lock(&mut self)
        requires
            old(self).is_unlocked(),
        ensures
            final(self).id() == old(self).id(),
            final(self).is_locked(),
    {
        self.state = MutexState::Locked;
    }

    /// Attempts to acquire the mutex without blocking: succeeds exactly when
    /// the mutex is currently unlocked, and leaves a held mutex untouched.
    pub fn try_lock(&mut self) -> (acquired: bool)
        requires
            !old(self).is_destroyed(),
        ensures
            final(self).id() == old(self).id(),
            acquired == old(self).is_unlocked(),
            acquired ==> final(self).is_locked(),
            !acquired ==> *final(self) == *old(self),
    {
        match self.state {
            MutexState::Unlocked => {
                self.state = MutexState::Locked;
                true
            },
            _ => false,
        }
    }

    /// Releases the mutex. Releasing a mutex the caller does not hold is
    /// undefined at the native level, so the mutex must be locked.
    pub fn unlock(&mut self)
        requires
            old(self).is_locked(),
        ensures
            final(self).id() == old(self).id(),
            final(self).is_unlocked(),
    {
        self.state = MutexState::Unlocked;
    }

    /// Releases the native resources. A mutex is destroyed exactly once and
    /// never while held.
    pub fn destroy(&mut self)
        requires
            old(self).is_unlocked(),
        ensures
            final(self).id() == old(self).id(),
            final(self).is_destroyed(),
    {
        self.state = MutexState::Destroyed;
    }
}

/// The identity of a raw mutex: the stand-in for the address of the native
/// object.
pub fn raw(m: &Mutex) -> (id: u64)
    ensures
        id == m.id(),
{
    m.id
}

} // verus!
