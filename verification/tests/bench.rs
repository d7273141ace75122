use std::time::{Duration, Instant};

use grpc_quic::bench::{bench_sizes, make_payload, record_elapsed, record_latency, EchoService, LatencyHistogram, Payload};
use grpc_quic::retry::capped_backoff;

#[test]
fn bench_sizes_quick_and_full() {
    assert_eq!(bench_sizes(true), vec![64, 256, 1024, 4096]);
    assert_eq!(bench_sizes(false), vec![64, 256, 1024, 4096, 16384]);
}

#[test]
fn payload_of_zero_bytes() {
    assert_eq!(make_payload(3).body, vec![0u8, 0, 0]);
    assert!(make_payload(0).body.is_empty());
}

#[test]
fn echo_service_answers_with_the_request() {
    let request = Payload { body: vec![1, 2, 3] };
    assert_eq!(EchoService.unary(request.clone()), request);
}

#[test]
fn latency_is_recorded_as_one_sample() {
    let mut hist = LatencyHistogram { histogram: hdrhistogram::Histogram::<u64>::new(3).unwrap() };
    let start = Instant::now();
    record_latency(&mut hist, start);
    record_latency(&mut hist, start);
    assert_eq!(hist.histogram.len(), 2);
}

#[test]
fn elapsed_time_is_recorded_in_whole_microseconds() {
    let mut hist = LatencyHistogram { histogram: hdrhistogram::Histogram::<u64>::new(3).unwrap() };
    record_elapsed(&mut hist, Duration::from_nanos(1_500_999));
    assert_eq!(hist.histogram.len(), 1);
    assert_eq!(hist.histogram.count_at(1500), 1);
    record_elapsed(&mut hist, Duration::from_micros(250));
    assert_eq!(hist.histogram.len(), 2);
    assert_eq!(hist.histogram.count_at(250), 1);
    assert_eq!(hist.histogram.min(), 250);
}

#[test]
fn a_histogram_that_cannot_grow_drops_the_sample() {
    let mut fixed = hdrhistogram::Histogram::<u64>::new_with_bounds(1, 1000, 3).unwrap();
    fixed.auto(false);
    let mut hist = LatencyHistogram { histogram: fixed };
    record_elapsed(&mut hist, Duration::from_secs(10));
    assert_eq!(hist.histogram.len(), 0);
    record_elapsed(&mut hist, Duration::from_micros(999));
    assert_eq!(hist.histogram.len(), 1);
}

#[test]
fn backoff_is_capped() {
    assert_eq!(capped_backoff(100, Duration::from_secs(30)), Duration::from_millis(100));
    assert_eq!(capped_backoff(60_000, Duration::from_millis(500)), Duration::from_millis(500));
    assert_eq!(capped_backoff(500, Duration::from_millis(500)), Duration::from_millis(500));
    assert_eq!(capped_backoff(u64::MAX, Duration::from_secs(30)), Duration::from_secs(30));
}
