//! The monotonic clock that the tracer reads.

use vstd::prelude::*;
use crate::text::MAX_DURATION_NANOS;

verus! {

/// `std::time::Instant`, a reading of the monotonic clock; opaque here.
#[verifier::external_type_specification]
#[verifier::external_body]
pub struct ExInstant(std::time::Instant);

/// Reads the clock with `std::time::Instant::now`. Nothing is claimed of the
/// reading.
#[verifier::external_body]
pub fn now() -> std::time::Instant {
    std::time::Instant::now()
}

/// The time passed since `start`, in nanoseconds: `start.elapsed().as_nanos()`.
/// The value depends on the clock; the contract claims only that it fits in
/// a `Duration`, which `Instant::elapsed` returns (zero where the clock went
/// back), and of which `Duration::MAX` is the largest.
#[verifier::external_body]
pub fn nanos_since(start: &std::time::Instant) -> (nanos: u128)
    ensures
        nanos <= MAX_DURATION_NANOS,
{
    start.elapsed().as_nanos()
}

} // verus!
