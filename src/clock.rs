use vstd::prelude::*;

use std::time::Instant;

verus! {

#[verifier::external_type_specification]
#[verifier::external_body]
pub struct ExInstant(Instant);

/// Relies on std::time::Instant::now: a reading of the monotonic clock.
#[verifier::external_body]
pub fn clock_start() -> Instant {
    Instant::now()
}

/// Relies on std::time::Instant::elapsed: the time since `origin` on the
/// monotonic clock, in nanoseconds. Nothing is promised of its value.
#[verifier::external_body]
pub fn nanos_since(origin: &Instant) -> u128 {
    origin.elapsed().as_nanos()
}

} // verus!
