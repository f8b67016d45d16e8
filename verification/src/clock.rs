//! The monotonic clock of the standard library, as the scheduler reads it.
//!
//! Nothing is proved of the clock and nothing is claimed of it: every reading
//! is an arbitrary number to the code that takes it, and the functions that
//! take one are verified for all of them.

use std::time::Duration;
use std::time::Instant;
use vstd::prelude::*;

verus! {

/// `std::time::Instant`, a point on the monotonic clock. Its contents are
/// hidden: an instant is only carried along and handed back to the clock.
#[verifier::external_type_specification]
#[verifier::external_body]
pub struct ExInstant(Instant);

/// `Instant::now` reads the clock. Nothing is assumed of the instant.
pub assume_specification[ Instant::now ]() -> (now: Instant);

/// `Instant::saturating_duration_since` gives the time from `earlier` to
/// `later`, or zero where `earlier` is the later one; it does not panic.
/// Nothing is assumed of the span.
pub assume_specification[ Instant::saturating_duration_since ](
    later: &Instant,
    earlier: Instant,
) -> (span: Duration);

/// `Duration::as_secs` gives the whole seconds of a span. Nothing is assumed
/// of the number.
pub assume_specification[ Duration::as_secs ](span: &Duration) -> (secs: u64);

/// `Duration::as_nanos` gives a span in nanoseconds. Nothing is assumed of
/// the number.
pub assume_specification[ Duration::as_nanos ](span: &Duration) -> (nanos: u128);

} // verus!
