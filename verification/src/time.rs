//! Spans of time, measured in nanoseconds.
use std::time::Duration;

use vstd::prelude::*;

verus! {

/// The number of nanoseconds in a span, as `Duration::as_nanos` counts them.
pub uninterp spec fn nanoseconds(span: Duration) -> nat;

/// `Duration::from_secs` makes a span of whole seconds.
pub assume_specification[ Duration::from_secs ](secs: u64) -> (span: Duration)
    ensures
        nanoseconds(span) == secs * 1_000_000_000,
;

/// `Duration::from_millis` makes a span of whole milliseconds.
pub assume_specification[ Duration::from_millis ](millis: u64) -> (span: Duration)
    ensures
        nanoseconds(span) == millis * 1_000_000,
;

/// `Duration::as_secs` counts the whole seconds in a span; a fraction is dropped.
pub assume_specification[ Duration::as_secs ](span: &Duration) -> (secs: u64)
    ensures
        secs == nanoseconds(*span) / 1_000_000_000,
;

/// `Duration::as_nanos` counts the nanoseconds in a span.
pub assume_specification[ Duration::as_nanos ](span: &Duration) -> (count: u128)
    ensures
        count == nanoseconds(*span),
;

/// Tells whether `timeout` has run out after `elapsed`.
pub fn is_over(elapsed: Duration, timeout: Duration) -> (over: bool)
    ensures
        over == (nanoseconds(elapsed) >= nanoseconds(timeout)),
{
    elapsed.as_nanos() >= timeout.as_nanos()
}

} // verus!
