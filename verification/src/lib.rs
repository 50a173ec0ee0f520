//! Client-side runtime for a microkernel's asynchronous IPC facility.
//!
//! The kernel exposes object handles (threads, memory, descriptor lanes,
//! clocks) and a single syscall entry for submitting asynchronous operations.
//! Completions arrive through a shared-memory completion queue synchronized
//! by futexes.  This crate holds the protocol logic of that runtime: the
//! error-code mapping, the handle lifetime model, the completion-queue state
//! machine, the single-threaded operation runtime, and the action assembly
//! for vectored submissions.  The syscalls themselves, and the shared-memory
//! reads and writes they imply, are performed by a driver outside this crate;
//! every function here is a decision or a computation on plain values, with
//! its behaviour stated in its contract.

pub mod action;
pub mod action_result;
pub mod executor;
pub mod handle;
pub mod hw;
pub mod mapping;
pub mod mbus;
pub mod queue;
pub mod result;
pub mod submission;
pub mod wire;

pub use action::{Action, BasicAction, Offer, ReceiveBuffer, SendBuffer};
pub use executor::Executor;
pub use handle::Handle;
pub use mapping::{Mapping, MappingFlags};
pub use queue::{Queue, QueueElement};
pub use result::{CodeClass, Error, hel_check};
pub use submission::{sleep_for, sleep_until, submit_async};

use vstd::prelude::*;

verus! {

/// A time value in nanoseconds since boot.
#[derive(Debug, Clone, Copy, PartialEq, Eq, Structural)]
pub struct Time(pub u64);

impl Time {
    /// Creates a new [`Time`] from the given number of nanoseconds since boot.
    pub fn from_nanos(nanos: u64) -> (r: Time)
        ensures
            r.0 == nanos,
    {
        Time(nanos)
    }

    /// Returns the value of the clock in nanoseconds since boot.
    pub fn nanos(&self) -> (r: u64)
        ensures
            r == self.0,
    {
        self.0
    }

    /// The time advanced by `duration_nanos`.  Overflowing the clock's range
    /// is a programming error, so the caller must rule it out.
    pub fn plus_nanos(&self, duration_nanos: u64) -> (r: Time)
        requires
            self.0 + duration_nanos <= u64::MAX,
        ensures
            r.0 == self.0 + duration_nanos,
    {
        Time(self.0 + duration_nanos)
    }

    /// The time moved back by `duration_nanos`.  Moving before boot is a
    /// programming error, so the caller must rule it out.
    pub fn minus_nanos(&self, duration_nanos: u64) -> (r: Time)
        requires
            duration_nanos <= self.0,
        ensures
            r.0 == self.0 - duration_nanos,
    {
        Time(self.0 - duration_nanos)
    }
}

} // verus!
