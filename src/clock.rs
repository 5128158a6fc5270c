//! Readings of the monotonic clock, as nanoseconds since a starting instant.
use std::time::{Duration, Instant};
use vstd::prelude::*;

verus! {

#[verifier::external_type_specification]
#[verifier::external_body]
pub struct ExInstant(Instant);

/// Relies on std::time::Instant::now: a reading of the monotonic clock.
/// Nothing is promised of its value.
pub assume_specification[ Instant::now ]() -> Instant;

/// Relies on std::time::Instant::elapsed: the time passed since `self` was read.
/// It depends on the clock, so nothing is promised of its value.
pub assume_specification[ Instant::elapsed ](i: &Instant) -> Duration;

/// Relies on std::time::Duration::as_nanos: the whole nanoseconds of a duration.
/// The duration is opaque here, so nothing is promised of its value.
pub assume_specification[ Duration::as_nanos ](d: &Duration) -> u128;

/// Nanoseconds passed since `origin`, saturated to what a `u64` holds
/// (more than five centuries).
pub fn nanos_since(origin: &Instant) -> (r: u64) {
    let d = origin.elapsed();
    let n: u128 = d.as_nanos();
    if n > u64::MAX as u128 {
        u64::MAX
    } else {
        n as u64
    }
}

} // verus!
