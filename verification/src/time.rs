//! Durations as whole nanoseconds.
//!
//! `core::time::Duration` is opaque to the verifier; its value is read
//! through `duration_nanos`, the number of nanoseconds it spans.
use core::time::Duration;
use vstd::prelude::*;

verus! {

/// The length of a `Duration` in nanoseconds, as `Duration::as_nanos`
/// reports it.
pub uninterp spec fn duration_nanos(d: Duration) -> nat;

pub open spec fn nanos_per_sec() -> nat {
    1_000_000_000
}

/// `Duration::as_nanos`: the whole length in nanoseconds.
#[verifier::external_body]
pub fn as_nanos(d: &Duration) -> (r: u128)
    ensures
        r == duration_nanos(*d),
{
    d.as_nanos()
}

/// `Duration::from_secs`: `secs` whole seconds.
#[verifier::external_body]
pub fn from_secs(secs: u64) -> (d: Duration)
    ensures
        duration_nanos(d) == secs * nanos_per_sec(),
{
    Duration::from_secs(secs)
}

/// `Duration::from_millis`: `millis` milliseconds.
#[verifier::external_body]
pub fn from_millis(millis: u64) -> (d: Duration)
    ensures
        duration_nanos(d) == millis * 1_000_000,
{
    Duration::from_millis(millis)
}

/// `Duration::from_micros`: `micros` microseconds.
#[verifier::external_body]
pub fn from_micros(micros: u64) -> (d: Duration)
    ensures
        duration_nanos(d) == micros * 1_000,
{
    Duration::from_micros(micros)
}

/// `Duration::from_nanos`: `nanos` nanoseconds.
#[verifier::external_body]
pub fn from_nanos(nanos: u64) -> (d: Duration)
    ensures
        duration_nanos(d) == nanos,
{
    Duration::from_nanos(nanos)
}

} // verus!
