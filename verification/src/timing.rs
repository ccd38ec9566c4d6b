//! Time spans. `std::time::Duration` is carried as it is; what the library
//! reads from one is its length in nanoseconds.

use std::time::Duration;
use vstd::prelude::*;

verus! {

/// The length of a time span in nanoseconds, as `Duration::as_nanos` gives it.
pub uninterp spec fn span_nanos(span: Duration) -> nat;

/// `Duration::as_nanos`. Trusted: the result is the span's length, which is
/// what `span_nanos` names.
pub assume_specification[ Duration::as_nanos ](span: &Duration) -> (nanos: u128)
    ensures
        nanos == span_nanos(*span),
;

/// `Duration::from_secs`. Trusted: a span of whole seconds is a thousand
/// million nanoseconds for every second.
pub assume_specification[ Duration::from_secs ](secs: u64) -> (span: Duration)
    ensures
        span_nanos(span) == secs * 1_000_000_000,
;

/// Whether `elapsed` is longer than `limit`.
pub fn exceeds(elapsed: &Duration, limit: &Duration) -> (over: bool)
    ensures
        over == (span_nanos(*elapsed) > span_nanos(*limit)),
{
    elapsed.as_nanos() > limit.as_nanos()
}

} // verus!
