//! The monotonic clock that the timers read.
//!
//! Nothing here is proved: these items declare the parts of `std::time` that
//! the library calls, and are taken on trust. No reading of the clock is
//! assumed to be later than another; the timers themselves add no time for a
//! reading that is not.

use std::time::Duration;
use std::time::Instant;
use vstd::prelude::*;

verus! {

/// `std::time::Instant`, a reading of the monotonic clock. It is opaque: the
/// library only keeps one and asks how long ago it was taken.
#[verifier::external_type_specification]
#[verifier::external_body]
pub struct ExInstant(Instant);

/// `std::time::Instant::now`, the present reading of the clock. It depends
/// on the moment of the call, so nothing is claimed of it.
pub assume_specification[ Instant::now ]() -> (now: Instant);

/// `std::time::Instant::saturating_duration_since`, the time from `earlier`
/// to `later`, or none where `earlier` is the later of the two. Both readings
/// are opaque, so nothing is claimed of the result.
pub assume_specification[ Instant::saturating_duration_since ](
    later: &Instant,
    earlier: Instant,
) -> (elapsed: Duration);

/// `std::time::Duration::as_nanos`, the length of `duration` in whole
/// nanoseconds. A `Duration` is opaque here, so there is nothing to relate
/// the number to, and nothing is claimed of it.
pub assume_specification[ Duration::as_nanos ](duration: &Duration) -> (nanos: u128);

/// Nanoseconds that have passed since `origin` was read.
pub(crate) fn nanos_since(origin: &Instant) -> (nanos: u128) {
    Instant::now().saturating_duration_since(*origin).as_nanos()
}

} // verus!
