//! Raw synchronization primitives, as explicit state machines.
//!
//! This module is the platform-abstraction layer of the crate: one uniform
//! signature set per primitive kind — create, acquire (blocking and
//! non-blocking), release, wait / timed wait, notify, destroy — so the safe
//! layers above never branch on platform. Each primitive is modelled by the
//! logical state the native object is in, and each operation is verified as
//! a transition of that state. This layer performs no safety bookkeeping
//! (no poisoning, no guard objects): its contracts are preconditions-only
//! in spirit, written here as `requires` clauses that exclude the calls the
//! native objects leave undefined (releasing a lock that is not held,
//! destroying a primitive while it is held, any use after destruction) and
//! the calls that would suspend the caller forever in a single-threaded
//! execution (acquiring a lock that is already held).

pub mod condvar;
pub mod mutex;
pub mod rwlock;

pub use condvar::Condvar;
pub use mutex::Mutex;
pub use rwlock::RWLock;
