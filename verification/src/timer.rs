//! Frame timing over the monotonic clock.

use vstd::prelude::*;
use crate::fixed::sat64;

verus! {

/// The monotonic clock's time points.
#[verifier::external_type_specification]
#[verifier::external_body]
pub struct ExInstant(std::time::Instant);

/// Relies on std::time::Instant::now: a reading of the monotonic clock.
/// Nothing is assumed of the value.
#[verifier::external_body]
fn instant_now() -> std::time::Instant {
    std::time::Instant::now()
}

/// Relies on Instant::saturating_duration_since and Duration::as_micros:
/// the whole microseconds elapsed from `earlier` to `later`, zero when
/// `later` is not after it. Nothing is assumed of the value.
#[verifier::external_body]
fn micros_between(earlier: &std::time::Instant, later: &std::time::Instant) -> u128 {
    later.saturating_duration_since(*earlier).as_micros()
}

/// A microsecond count as Q47.16 seconds; durations beyond `2^64`
/// microseconds pin to the largest scalar.
pub open spec fn spec_micros_to_fx(us: int) -> int {
    if us > 0xFFFFFFFFFFFFFFFF {
        i64::MAX as int
    } else {
        sat64(us * 65536 / 1000000)
    }
}

fn micros_to_fx(us: u128) -> (r: i64)
    ensures
        r as int == spec_micros_to_fx(us as int),
        r >= 0,
{
    if us > 0xFFFFFFFFFFFFFFFFu128 {
        i64::MAX
    } else {
        let q: u128 = us * 65536u128 / 1000000u128;
        if q > 0x7FFFFFFFFFFFFFFFu128 {
            i64::MAX
        } else {
            q as i64
        }
    }
}

/// Measures the time from one tick to the next.
pub struct Timer {
    last_tick_time: std::time::Instant,
}

impl Timer {
    pub fn new() -> Timer {
        Timer { last_tick_time: instant_now() }
    }

    /// Seconds since the previous call (or since construction), in Q47.16,
    /// never negative; the tick point advances to now.
    pub fn get_delta_time(&mut self) -> (dt: i64)
        ensures
            dt >= 0,
    {
        let now: std::time::Instant = instant_now();
        let us: u128 = micros_between(&self.last_tick_time, &now);
        self.last_tick_time = now;
        micros_to_fx(us)
    }
}

} // verus!
