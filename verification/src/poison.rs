//! Poison bookkeeping for locks.
//!
//! A lock owns a [`Flag`] recording whether a holder left the protected
//! resource in a possibly-inconsistent state: the flag is set exactly once,
//! by the first guard whose destruction observes that the current execution
//! is unwinding due to a failure, and once set it is never cleared.
//!
//! Whether the current execution is unwinding is a fact about the host
//! runtime, not about these state machines, so it enters as a plain
//! `panicking` argument supplied by the caller at release time.

use vstd::prelude::*;

verus! {

/// The poison flag owned by a protected resource.
#[derive(Debug)]
pub struct Flag {
    /// Whether a holder failed while the resource was held.
    pub failed: bool,
}

/// The poison token of one critical section: taken from the flag when a
/// lock guard is created, consulted while the guard is live, and driving
/// the flag update when the guard is destroyed.
#[derive(Debug)]
pub struct Guard {}

impl Flag {
    /// Takes the poison token for a new lock guard.
    pub fn borrow(&self) -> Guard {
        Guard {}
    }
}

impl Guard {
    /// Whether the resource guarded by `flag` is poisoned.
    pub fn check(&self, flag: &Flag) -> (poisoned: bool)
        ensures
            poisoned == flag.failed,
    {
        flag.failed
    }

    /// Updates `flag` when the guard is destroyed, before the lock is
    /// released: the flag becomes set exactly when it already was, or when
    /// the destruction observes that the execution is unwinding due to a
    /// failure (`panicking`). The flag is never cleared.
    pub fn done(&self, flag: &mut Flag, panicking: bool)
        ensures
            final(flag).failed == (old(flag).failed || panicking),
    {
        if panicking {
            flag.failed = true;
        }
    }
}

} // verus!
