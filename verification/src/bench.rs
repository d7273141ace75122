//! Pieces of the benchmark harness: payload sizes, payloads, the echo
//! service and latency recording.
use hdrhistogram::Histogram;
use core::time::Duration;
use std::time::Instant;
use vstd::prelude::*;

use crate::time::{as_nanos, duration_nanos};

verus! {

/// A latency histogram: `hdrhistogram::Histogram<u64>` of microseconds.
#[verifier::external_body]
pub struct LatencyHistogram {
    pub histogram: Histogram<u64>,
}

#[verifier::external_type_specification]
#[verifier::external_body]
pub struct ExInstant(Instant);

/// The number of samples that a latency histogram has recorded, as
/// `Histogram::len` reports it.
pub uninterp spec fn histogram_len(h: LatencyHistogram) -> nat;

/// Whether `Histogram::record` takes a sample of `value` into `h`: it does
/// unless the value lies outside the histogram's range and the histogram
/// cannot grow to hold it.
pub uninterp spec fn histogram_takes(h: LatencyHistogram, value: u64) -> bool;

/// The samples that a latency histogram holds in the bin of `value`, as
/// `Histogram::count_at` reports them: the samples within the range of
/// values that the histogram does not tell apart from `value` (a value above
/// its range counts in its last bin).
pub uninterp spec fn histogram_count_at(h: LatencyHistogram, value: u64) -> nat;

/// The highest value that a latency histogram tracks without growing
/// (`Histogram::high`).
pub uninterp spec fn histogram_high(h: LatencyHistogram) -> u64;

/// Whether a latency histogram does not tell `a` and `b` apart: they share
/// a bin (`Histogram::equivalent`).
pub uninterp spec fn histogram_equivalent(h: LatencyHistogram, a: u64, b: u64) -> bool;

/// `Histogram::record`: records one sample of `value`, telling whether it
/// was recorded.
///
/// A recorded sample adds one to the count, which saturates at `u64::MAX`,
/// and lands in the bin of `value`, which then holds a sample; a sample
/// that could not be recorded leaves the count as it was. How much the bin
/// grows is left unsaid: a histogram that grows to take the value gives it
/// a fresh bin, where before the value counted in the last one.
#[verifier::external_body]
fn histogram_record(h: &mut LatencyHistogram, value: u64) -> (recorded: bool)
    ensures
        recorded == histogram_takes(*old(h), value),
        recorded ==> histogram_len(*final(h)) == if histogram_len(*old(h)) < u64::MAX {
            histogram_len(*old(h)) + 1
        } else {
            histogram_len(*old(h))
        },
        recorded ==> histogram_count_at(*final(h), value) > 0,
        value <= histogram_high(*old(h)) ==> {
            &&& recorded
            &&& histogram_high(*final(h)) == histogram_high(*old(h))
            &&& histogram_count_at(*final(h), value) == if histogram_count_at(*old(h), value) < u64::MAX {
                histogram_count_at(*old(h), value) + 1
            } else {
                histogram_count_at(*old(h), value)
            }
            &&& forall|w: u64|
                w <= histogram_high(*old(h)) && !histogram_equivalent(*old(h), w, value)
                    ==> #[trigger] histogram_count_at(*final(h), w) == histogram_count_at(*old(h), w)
        },
        !recorded ==> histogram_len(*final(h)) == histogram_len(*old(h)),
{
    h.histogram.record(value).is_ok()
}

/// `Instant::elapsed`: the time since `start`. It depends on the clock, so
/// nothing is stated of it.
#[verifier::external_body]
fn elapsed_since(start: &Instant) -> Duration {
    start.elapsed()
}

/// Whether `elapsed` is a time that reading the clock since `start` can
/// give. The clock moves, so this relates `start` to the reading that a
/// call made, and is not a function of `start`.
pub closed spec fn read_since(start: Instant, elapsed: Duration) -> bool {
    call_ensures(elapsed_since, (&start,), elapsed)
}

/// What recording the latency since `start` makes of a histogram
/// `before`: the latency of the time that was read from the clock.
pub open spec fn latency_since_recorded(before: LatencyHistogram, start: Instant, after: LatencyHistogram) -> bool {
    exists|elapsed: Duration| #[trigger] read_since(start, elapsed) && latency_recorded(before, elapsed, after)
}

/// Payload sizes of a full run, in bytes.
pub open spec fn payload_sizes() -> Seq<usize> {
    seq![64, 256, 1024, 4096, 16384]
}

/// Payload sizes of a quick run: the full sizes without 16384.
pub open spec fn quick_sizes() -> Seq<usize> {
    seq![64, 256, 1024, 4096]
}

/// Payload sizes for the current run: the quick sizes when the run is a
/// quick one (`QUICK=1`), the full sizes otherwise.
pub fn bench_sizes(quick: bool) -> (r: Vec<usize>)
    ensures
        r@ == if quick {
            quick_sizes()
        } else {
            payload_sizes()
        },
{
    let r = if quick {
        vec![64, 256, 1024, 4096]
    } else {
        vec![64, 256, 1024, 4096, 16384]
    };
    assert(r@ =~= if quick {
        quick_sizes()
    } else {
        payload_sizes()
    });
    r
}

/// The message of the benchmark service.
#[derive(Clone, Debug, PartialEq, Eq, Default)]
pub struct Payload {
    pub body: Vec<u8>,
}

/// A payload of `size` zero bytes.
pub fn make_payload(size: usize) -> (r: Payload)
    ensures
        r.body@ == Seq::new(size as nat, |i: int| 0u8),
{
    let mut body: Vec<u8> = Vec::new();
    let mut i: usize = 0;
    while i < size
        invariant
            i <= size,
            body@ == Seq::new(i as nat, |j: int| 0u8),
        decreases size - i,
    {
        body.push(0u8);
        i = i + 1;
        assert(body@ =~= Seq::new(i as nat, |j: int| 0u8));
    }
    Payload { body }
}

/// The benchmark service: it answers every request with the request.
#[derive(Clone, Default, Debug)]
pub struct EchoService;

impl EchoService {
    /// The answer to a unary call: the request's payload itself.
    pub fn unary(&self, request: Payload) -> (r: Payload)
        ensures
            r == request,
    {
        request
    }
}

/// The sample that a latency of `elapsed` is recorded as: its whole
/// microseconds, taken modulo 2^64.
pub open spec fn latency_sample(elapsed: Duration) -> u64 {
    (duration_nanos(elapsed) / 1000) as u64
}

/// What recording a latency of `elapsed` makes of a histogram `before`:
/// when the histogram takes the sample of `elapsed`, one more sample (the
/// count saturating at `u64::MAX`), held in the bin of that sample; when it
/// does not, the same count. A sample that the histogram tracks without
/// growing is always taken: its bin gains one and every other tracked bin
/// stays.
pub open spec fn latency_recorded(before: LatencyHistogram, elapsed: Duration, after: LatencyHistogram) -> bool {
    &&& histogram_len(after) == if histogram_takes(before, latency_sample(elapsed)) && histogram_len(
        before,
    ) < u64::MAX {
        histogram_len(before) + 1
    } else {
        histogram_len(before)
    }
    &&& histogram_takes(before, latency_sample(elapsed)) ==> histogram_count_at(
        after,
        latency_sample(elapsed),
    ) > 0
    &&& latency_sample(elapsed) <= histogram_high(before) ==> {
        &&& histogram_takes(before, latency_sample(elapsed))
        &&& histogram_count_at(after, latency_sample(elapsed)) == if histogram_count_at(
            before,
            latency_sample(elapsed),
        ) < u64::MAX {
            histogram_count_at(before, latency_sample(elapsed)) + 1
        } else {
            histogram_count_at(before, latency_sample(elapsed))
        }
        &&& forall|w: u64|
            w <= histogram_high(before) && !histogram_equivalent(before, w, latency_sample(elapsed))
                ==> #[trigger] histogram_count_at(after, w) == histogram_count_at(before, w)
    }
}

/// Records a latency of `elapsed` as one sample of `hist`: its whole
/// microseconds, taken modulo 2^64. A sample that the histogram cannot
/// take is dropped.
pub fn record_elapsed(hist: &mut LatencyHistogram, elapsed: Duration)
    ensures
        latency_recorded(*old(hist), elapsed, *final(hist)),
{
    let micros = as_nanos(&elapsed) / 1000;
    let _ = histogram_record(hist, micros as u64);
}

/// Record one RPC latency observation: the whole microseconds since
/// `start`, taken modulo 2^64, as one sample of `hist`.
///
/// A sample that the histogram cannot take is dropped. The time elapsed
/// is read from the clock: the contract speaks of the reading that was
/// made, whatever it was.
pub fn record_latency(hist: &mut LatencyHistogram, start: Instant)
    ensures
        latency_since_recorded(*old(hist), start, *final(hist)),
        exists|elapsed: Duration| #[trigger] latency_recorded(*old(hist), elapsed, *final(hist)),
        histogram_len(*final(hist)) == histogram_len(*old(hist)) || histogram_len(*final(hist))
            == histogram_len(*old(hist)) + 1,
{
    let read = elapsed_since;
    let elapsed = read(&start);
    assert(read_since(start, elapsed));
    record_elapsed(hist, elapsed);
}

} // verus!
