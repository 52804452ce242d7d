//! Synchronization primitives with explicitly verified state machines.
//!
//! This crate provides the classic blocking/coordination primitives —
//! mutual-exclusion locks, reader-writer locks, condition variables and a
//! reusable rendezvous barrier — together with their safety bookkeeping:
//! RAII-style guards, poisoning (failure propagation), and the rule that a
//! condition variable is dynamically bound to exactly one mutex.
//!
//! Every primitive carries its logical state explicitly (the `sys` module
//! holds the raw state machines, the top-level types add the safety
//! envelope), and every operation is specified and verified as a transition
//! of that state machine: what a blocking acquisition establishes, when an
//! acquisition reports poisoning, when a condition variable rejects a second
//! mutex, and how the barrier's `{count, generation}` pair evolves.
//!
//! The verified types describe the view of a single caller: an operation
//! that would block another thread at the operating-system level (locking a
//! held mutex, writing while readers are active) is excluded by that
//! operation's precondition rather than suspended, and the effect of other
//! threads enters through plain values (the "is the current execution
//! unwinding" query, the current wall-clock time). A runtime that drives
//! these state machines over real OS primitives performs the blocking calls
//! itself and delegates every decision — poisoning, condvar binding, barrier
//! arrival, timed-wait deadlines — to the functions verified here.

pub mod barrier;
pub mod condvar;
pub mod mutex;
pub mod poison;
pub mod rwlock;
pub mod sys;

pub use barrier::Barrier;
pub use condvar::{AsMutexGuard, Condvar, StaticCondvar, WaitError};
pub use mutex::{Mutex, MutexGuard, PoisonError, StaticMutex, StaticMutexGuard};
pub use rwlock::{RWLock, ReadGuard, StaticRWLock, WriteGuard};
