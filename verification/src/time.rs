//! Logical time.
//!
//! Simulated time is a non-negative duration offset from simulation start,
//! held at nanosecond granularity. It is unrelated to wall-clock time.

use vstd::prelude::*;

verus! {

/// The number of nanoseconds in one second.
pub const NANOS_PER_SEC: u64 = 1_000_000_000;

/// The number of nanoseconds in one millisecond.
pub const NANOS_PER_MILLI: u64 = 1_000_000;

/// A span of logical time, counted in nanoseconds.
///
/// The view of a duration is its length in nanoseconds.
#[derive(Debug, Clone, Copy, PartialEq, Eq, Hash, Structural)]
pub struct Duration {
    nanos: u64,
}

impl View for Duration {
    type V = nat;

    closed spec fn view(&self) -> nat {
        self.nanos as nat
    }
}

impl Duration {
    /// Creates a duration of the given number of nanoseconds.
    pub fn from_nanos(nanos: u64) -> (r: Self)
        ensures
            r@ == nanos,
    {
        Duration { nanos }
    }

    /// Creates a duration of the given number of whole seconds.
    pub fn from_secs(secs: u64) -> (r: Self)
        requires
            secs * NANOS_PER_SEC <= u64::MAX,
        ensures
            r@ == secs * NANOS_PER_SEC,
    {
        Duration { nanos: secs * NANOS_PER_SEC }
    }

    /// Creates a duration of the given number of whole milliseconds.
    pub fn from_millis(millis: u64) -> (r: Self)
        requires
            millis * NANOS_PER_MILLI <= u64::MAX,
        ensures
            r@ == millis * NANOS_PER_MILLI,
    {
        Duration { nanos: millis * NANOS_PER_MILLI }
    }

    /// Returns the length of the duration in nanoseconds.
    pub fn as_nanos(&self) -> (r: u64)
        ensures
            r == self@,
    {
        self.nanos
    }
}

/// Every duration fits in 64 bits of nanoseconds.
pub broadcast proof fn lemma_duration_fits(d: Duration)
    ensures
        #[trigger] d@ <= u64::MAX,
{
}

/// A duration is determined by its view: two durations of the same length
/// in nanoseconds are equal.
pub proof fn lemma_duration_injective(d1: Duration, d2: Duration)
    requires
        d1@ == d2@,
    ensures
        d1 == d2,
{
}

impl Default for Duration {
    /// The zero duration.
    fn default() -> (r: Self)
        ensures
            r@ == 0,
    {
        Duration { nanos: 0 }
    }
}

} // verus!
