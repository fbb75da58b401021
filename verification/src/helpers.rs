//! Small helpers for the user interface: clamping and double-click timing.

use std::time::{Duration, Instant};
use vstd::prelude::*;
use vstd::std_specs::cmp::{PartialOrdIs, PartialOrdSpec};

verus! {

/// `value` held between `min` and `max`: `min` where `value` is below it,
/// else `max` where `value` is above it, else `value` itself. The lower bound
/// is tried first, so it wins where the bounds cross.
pub open spec fn clamped<T: PartialOrd>(value: T, min: T, max: T) -> T {
    if value.is_lt(&min) {
        min
    } else if value.is_gt(&max) {
        max
    } else {
        value
    }
}

/// Clamp a value between min and max.
///
/// The result is always one of the three arguments. Which one is stated for
/// every type whose `<` and `>` follow its ordering specification.
pub fn clamp<T: PartialOrd>(value: T, min: T, max: T) -> (held: T)
    ensures
        held == value || held == min || held == max,
        T::obeys_partial_cmp_spec() ==> held == clamped(value, min, max),
{
    if value < min {
        min
    } else if value > max {
        max
    } else {
        value
    }
}

/// Nanoseconds in a millisecond.
pub const NANOS_PER_MILLI: u128 = 1_000_000;

/// `std::time::Instant`: a reading of the monotonic clock, never looked into.
#[verifier::external_type_specification]
#[verifier::external_body]
pub struct ExInstant(Instant);

/// `Instant::now` reads the monotonic clock. Nothing is claimed of the
/// reading: each call may give another.
pub assume_specification[ Instant::now ]() -> Instant;

/// `Instant::duration_since` gives the time from `earlier` to `later`, and a
/// zero duration where `earlier` is the later of the two: std documents that
/// it saturates there and does not panic, and that a later version may panic
/// again. Nothing is claimed of the length.
pub assume_specification[ Instant::duration_since ](later: &Instant, earlier: Instant) -> Duration;

/// `Duration::as_nanos` gives the whole duration in nanoseconds. Nothing is
/// claimed of the number.
pub assume_specification[ Duration::as_nanos ](span: &Duration) -> u128;

/// Whether a gap of `elapsed_nanos` nanoseconds is no longer than
/// `threshold_ms` milliseconds. A gap of exactly the threshold still counts.
pub fn within_threshold(elapsed_nanos: u128, threshold_ms: u64) -> (within: bool)
    ensures
        within == (elapsed_nanos <= threshold_ms * NANOS_PER_MILLI),
{
    let threshold_ms_wide: u128 = threshold_ms.into();
    elapsed_nanos <= threshold_ms_wide * NANOS_PER_MILLI
}

/// Check if a click now, after one at `last`, makes a double-click: whether
/// the time since `last` is within `threshold_ms` milliseconds.
///
/// The answer depends on the clock, so the contract leaves it open;
/// [`within_threshold`] states the rule for every reading.
pub fn is_double_click(last: Instant, threshold_ms: u64) -> bool {
    let now = Instant::now();
    let gap = now.duration_since(last);
    within_threshold(gap.as_nanos(), threshold_ms)
}

} // verus!
