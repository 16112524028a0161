//! The monotonic clock. Readings depend on when they are taken, so nothing is
//! promised of them; the logic that uses a reading is verified for every value.

use std::time::Instant;
use vstd::prelude::*;

verus! {

/// `std::time::Instant`, a point on the monotonic clock; opaque here.
#[verifier::external_type_specification]
#[verifier::external_body]
pub struct ExInstant(Instant);

/// Calls `std::time::Instant::now`. The reading depends on the time of the
/// call, so the contract states nothing about it.
#[verifier::external_body]
pub(crate) fn instant_now() -> Instant {
    Instant::now()
}

/// Calls `std::time::Instant::elapsed` on `t` and gives the elapsed time in
/// whole nanoseconds. The value depends on the time of the call, so the
/// contract states nothing about it.
#[verifier::external_body]
pub(crate) fn nanos_since(t: &Instant) -> u128 {
    t.elapsed().as_nanos()
}

} // verus!
