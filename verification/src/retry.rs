//! The cap on the backoff of a retried call.
use core::time::Duration;
use vstd::prelude::*;

use crate::time::{as_nanos, duration_nanos, from_millis};

verus! {

/// `millis` milliseconds, or `max_backoff` when that is shorter: the
/// backoff before a retry never exceeds the policy's cap.
pub fn capped_backoff(millis: u64, max_backoff: Duration) -> (r: Duration)
    ensures
        duration_nanos(r) == if millis * 1_000_000 <= duration_nanos(max_backoff) {
            millis * 1_000_000
        } else {
            duration_nanos(max_backoff) as int
        },
        duration_nanos(r) <= duration_nanos(max_backoff),
{
    let d = from_millis(millis);
    if as_nanos(&d) <= as_nanos(&max_backoff) {
        d
    } else {
        max_backoff
    }
}

} // verus!
