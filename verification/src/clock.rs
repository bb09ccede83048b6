//! The wall clock, read through `std::time`.

use vstd::prelude::*;
use std::time::{Duration, Instant};

verus! {

/// `std::time::Instant`, a reading of the monotonic clock.
#[verifier::external_type_specification]
#[verifier::external_body]
pub struct ExInstant(std::time::Instant);

/// `Instant::now`: the present reading of the clock.  Nothing is known of
/// it.
#[verifier::external_body]
pub(crate) fn now() -> Instant {
    Instant::now()
}

/// `Instant::elapsed`: the time that has passed since `start`.  Nothing is
/// known of it.
#[verifier::external_body]
pub(crate) fn elapsed_since(start: &Instant) -> Duration {
    start.elapsed()
}

/// `Duration::as_secs`: the whole seconds of the span.  Nothing is known of
/// them.
#[verifier::external_body]
pub(crate) fn whole_seconds(span: &Duration) -> u64 {
    span.as_secs()
}

/// `Duration::subsec_nanos`: the part of the span beyond its whole seconds,
/// in nanoseconds, which is less than one second.
#[verifier::external_body]
pub(crate) fn fractional_nanoseconds(span: &Duration) -> (nanoseconds: u32)
    ensures
        nanoseconds < 1_000_000_000,
{
    span.subsec_nanos()
}

/// A span of time: `seconds` whole seconds and `nanoseconds` beyond them.
#[derive(Clone, Copy, Debug, PartialEq, Eq, Structural)]
pub struct Elapsed {
    pub seconds: u64,
    pub nanoseconds: u32,
}

impl Elapsed {
    /// No time at all.
    pub fn zero() -> (span: Elapsed)
        ensures
            span == (Elapsed { seconds: 0, nanoseconds: 0 }),
    {
        Elapsed { seconds: 0, nanoseconds: 0 }
    }

    /// The time that has passed since `start`, as the clock has it.
    pub fn since(start: &Instant) -> (span: Elapsed)
        ensures
            span.nanoseconds < 1_000_000_000,
    {
        let span = elapsed_since(start);
        Elapsed { seconds: whole_seconds(&span), nanoseconds: fractional_nanoseconds(&span) }
    }
}

} // verus!
