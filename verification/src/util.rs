//! Timing helpers that do no timing: an instant never moves, and every
//! measurement taken from one reads zero.

pub use std::time::Duration;

use vstd::prelude::*;

verus! {

/// The `Duration` that `Duration::from_nanos` builds from a count of
/// nanoseconds.
pub uninterp spec fn duration_from_nanos(nanos: u64) -> Duration;

/// The whole seconds of a duration, as `Duration::as_secs` reports them.
pub uninterp spec fn duration_as_secs(d: Duration) -> u64;

/// The fractional part of a duration in nanoseconds, as
/// `Duration::subsec_nanos` reports it.
pub uninterp spec fn duration_subsec_nanos(d: Duration) -> u32;

/// `core::time::Duration::from_nanos`: builds the duration of `nanos`
/// nanoseconds. Claimed: the result is the named `duration_from_nanos(nanos)`,
/// its whole seconds are `nanos / 1_000_000_000` and its sub-second
/// nanoseconds are `nanos % 1_000_000_000`. It never panics.
pub assume_specification[ core::time::Duration::from_nanos ](nanos: u64) -> (d: Duration)
    ensures
        d == duration_from_nanos(nanos),
        duration_as_secs(d) == nanos / 1_000_000_000,
        duration_subsec_nanos(d) == nanos % 1_000_000_000,
;

/// `core::time::Duration::as_secs`: the number of whole seconds in the
/// duration. Claimed: the result is the named `duration_as_secs(*d)`.
pub assume_specification[ core::time::Duration::as_secs ](d: &Duration) -> (secs: u64)
    ensures
        secs == duration_as_secs(*d),
;

/// `core::time::Duration::subsec_nanos`: the fractional part of the duration
/// in nanoseconds, documented to be less than one billion. Claimed: the result
/// is the named `duration_subsec_nanos(*d)` and is below 1_000_000_000.
pub assume_specification[ core::time::Duration::subsec_nanos ](d: &Duration) -> (nanos: u32)
    ensures
        nanos == duration_subsec_nanos(*d),
        nanos < 1_000_000_000,
;

/// The whole length of a duration in nanoseconds.
pub open spec fn duration_total_nanos(d: Duration) -> int {
    duration_as_secs(d) * 1_000_000_000 + duration_subsec_nanos(d)
}

/// A stand-in for `std::time::Instant` that reads no clock.
#[derive(Debug, Clone, Copy)]
pub struct Instant;

impl Instant {
    /// Takes the current instant; every instant is the same one.
    #[verifier::allow_in_spec]
    pub fn now() -> Self
        returns
            Instant,
    {
        Self
    }

    /// Time passed since `self`: always the duration of zero nanoseconds
    /// (`Duration::ZERO`), whatever instant it is asked of.
    #[verifier::allow_in_spec]
    pub fn elapsed(&self) -> (span: Duration)
        ensures
            span == duration_from_nanos(0),
            duration_as_secs(span) == 0,
            duration_subsec_nanos(span) == 0,
            duration_total_nanos(span) == 0,
        returns
            duration_from_nanos(0),
    {
        Duration::from_nanos(0)
    }
}

/// An instant taken now and read at once reports the duration that
/// `Duration::from_nanos(0)` builds.
pub proof fn lemma_elapsed_of_now_is_from_nanos_zero()
    ensures
        Instant::now().elapsed() == duration_from_nanos(0),
{
}

/// Time never advances: any two instants report the same elapsed time,
/// and reading one twice gives the same answer.
pub proof fn lemma_elapsed_does_not_depend_on_instant(a: Instant, b: Instant)
    ensures
        a.elapsed() == b.elapsed(),
        a == b,
        a == Instant::now(),
{
}

} // verus!
