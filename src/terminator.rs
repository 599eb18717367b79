use vstd::prelude::*;

use core::time::Duration;
use std::time::Instant;

verus! {

#[verifier::external_type_specification]
#[verifier::external_body]
pub struct ExInstant(Instant);

/// Relies on `Instant::now`: a reading of the monotonic clock. Nothing is
/// promised of its value.
pub assume_specification[ Instant::now ]() -> Instant;

/// Relies on `Instant::elapsed`: the time since the reading. Nothing is
/// promised of its value.
pub assume_specification[ Instant::elapsed ](i: &Instant) -> Duration;

/// The whole length of `d` in nanoseconds.
pub uninterp spec fn nanos_of(d: Duration) -> u128;

/// Relies on `Duration::as_nanos`: the whole length in nanoseconds, which
/// depends on the duration alone.
pub assume_specification[ Duration::as_nanos ](d: &Duration) -> (r: u128)
    ensures
        r == nanos_of(*d),
;

/// A cancellation predicate that the engine polls while it searches.
pub trait Terminator {
    /// `true` asks the engine to stop the search in progress.
    fn terminate(&mut self) -> bool;
}

/// A predicate that never asks to stop.
#[derive(Debug, Hash)]
pub struct DummyTerminator();

impl Terminator for DummyTerminator {
    fn terminate(&mut self) -> (r: bool)
        ensures
            !r,
            *final(self) == *old(self),
    {
        false
    }
}

/// No predicate at all, to remove an installed one.
#[allow(non_upper_case_globals)]
pub const NoneTerminator: Option<DummyTerminator> = None;

/// A predicate that asks to stop once a time limit has passed since it was made.
#[derive(Debug, Hash)]
pub struct TimeoutTerminator {
    timeout_nanos: u128,
    time_start: Instant,
}

impl TimeoutTerminator {
    /// The time limit, in nanoseconds.
    pub closed spec fn limit(self) -> u128 {
        self.timeout_nanos
    }

    /// Starts the clock now, with the limit `timeout`.
    pub fn new(timeout: Duration) -> (r: TimeoutTerminator)
        ensures
            r.limit() == nanos_of(timeout),
    {
        TimeoutTerminator { timeout_nanos: timeout.as_nanos(), time_start: Instant::now() }
    }

    /// Whether `elapsed_nanos` since the start is past the limit.
    pub fn timed_out(&self, elapsed_nanos: u128) -> (r: bool)
        ensures
            r == (elapsed_nanos > self.limit()),
    {
        elapsed_nanos > self.timeout_nanos
    }
}

impl Terminator for TimeoutTerminator {
    /// Asks to stop once the time since the start exceeds the limit.
    fn terminate(&mut self) -> (r: bool)
        ensures
            *final(self) == *old(self),
    {
        let elapsed = self.time_start.elapsed();
        let e = elapsed.as_nanos();
        self.timed_out(e)
    }
}

} // verus!
