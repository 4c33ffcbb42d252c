//! The monotonic clock that stamps events: nanoseconds since the moment the
//! clock was started.

use std::time::Duration;
use std::time::Instant;
use vstd::prelude::*;

verus! {

/// `std::time::Instant`, a point on the monotonic clock. Nothing is known
/// of its inside.
#[verifier::external_type_specification]
#[verifier::external_body]
pub struct ExInstant(Instant);

/// `Instant::now` reads the clock. Nothing is claimed of the value.
pub assume_specification[ Instant::now ]() -> (t: Instant);

/// `Instant::elapsed` measures the time since the instant was taken.
/// Nothing is claimed of the value.
pub assume_specification[ Instant::elapsed ](t: &Instant) -> (d: Duration);

/// `Duration::as_nanos` gives a duration in whole nanoseconds. Nothing is
/// claimed of the value.
pub assume_specification[ Duration::as_nanos ](d: &Duration) -> (n: u128);

/// Nanoseconds in one millisecond.
pub const NANOS_PER_MILLI: u64 = 1_000_000;

/// Nanoseconds in one second.
pub const NANOS_PER_SEC: u64 = 1_000_000_000;

/// A running clock. It is started with the controller that owns it, and
/// read by the controller's own operations.
pub struct Clock {
    epoch: Instant,
}

impl Clock {
    /// Starts a clock at zero.
    pub(crate) fn start() -> Clock {
        Clock { epoch: Instant::now() }
    }

    /// Nanoseconds since the clock was started, held at `u64::MAX` once
    /// they no longer fit.
    pub(crate) fn now(&self) -> u64 {
        let nanos: u128 = self.epoch.elapsed().as_nanos();
        held_nanos(nanos)
    }
}

/// A count of nanoseconds as a time of the clock: the count itself, and
/// `u64::MAX` for a count that is larger.
pub open spec fn held(nanos: u128) -> u64 {
    if nanos > u64::MAX {
        u64::MAX
    } else {
        nanos as u64
    }
}

/// Brings the count of nanoseconds that the system's clock gives to a
/// time of this clock, held at `u64::MAX` once it no longer fits.
pub fn held_nanos(nanos: u128) -> (time: u64)
    ensures
        time == held(nanos),
{
    if nanos > u64::MAX as u128 {
        u64::MAX
    } else {
        nanos as u64
    }
}

/// Time from `earlier` to `later`, zero where `earlier` is the later one.
pub open spec fn span(later: u64, earlier: u64) -> u64 {
    if later >= earlier {
        (later - earlier) as u64
    } else {
        0
    }
}

/// Time from `earlier` to `later`, zero where `earlier` is the later one.
pub fn time_between(later: u64, earlier: u64) -> (d: u64)
    ensures
        d == span(later, earlier),
{
    if later >= earlier {
        later - earlier
    } else {
        0
    }
}

/// Whole milliseconds in a span of nanoseconds, held at `u32::MAX`.
pub open spec fn millis_of(nanos: u64) -> u32 {
    if nanos / NANOS_PER_MILLI > u32::MAX {
        u32::MAX
    } else {
        (nanos / NANOS_PER_MILLI) as u32
    }
}

/// Whole milliseconds in a span of nanoseconds, held at `u32::MAX`: the
/// unit in which overlay effects count down.
pub fn effect_millis(nanos: u64) -> (ms: u32)
    ensures
        ms == millis_of(nanos),
{
    let whole: u64 = nanos / NANOS_PER_MILLI;
    if whole > u32::MAX as u64 {
        u32::MAX
    } else {
        whole as u32
    }
}

} // verus!
