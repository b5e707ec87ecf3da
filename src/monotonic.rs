//! Readings of the process's monotonic clock.
use vstd::prelude::*;

verus! {

/// `std::time::Instant`, carried through the clock as an opaque origin.
#[verifier::external_type_specification]
#[verifier::external_body]
pub struct ExInstant(std::time::Instant);

/// Relies on `Instant::now`: a reading of the monotonic clock; nothing is
/// known of its value.
pub assume_specification[ std::time::Instant::now ]() -> std::time::Instant;

/// Relies on `Instant::elapsed`: the time since the instant; it depends on
/// when it is called, so nothing is stated of it.
pub assume_specification[ std::time::Instant::elapsed ](i: &std::time::Instant) -> core::time::Duration;

/// Relies on `Duration::as_nanos`: the whole nanoseconds of a duration,
/// which is opaque here, so nothing is stated of the number.
pub assume_specification[ core::time::Duration::as_nanos ](d: &core::time::Duration) -> u128;

} // verus!
