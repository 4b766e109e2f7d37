use std::collections::HashMap;

use loadgen::controller::{Admission, ConcurrencyController, Phase};
use loadgen::metrics::{Ratio, RunMetrics};
use loadgen::request::{RequestError, ResponseStats};

fn response(status: u16, length: u64, duration: u128) -> ResponseStats {
    ResponseStats::from_parts(status, Some(length), Some("text/plain".to_string()), HashMap::new(), duration)
}

fn record(m: &mut RunMetrics, outcome: Result<ResponseStats, RequestError>) {
    assert!(m.can_record(&outcome));
    m.record(outcome);
}

#[test]
fn empty_snapshot_is_all_zero() {
    let m = RunMetrics::new(1000);
    let s = m.snapshot(1000);
    assert_eq!(s.total_requests, 0);
    assert_eq!(s.mean_duration, Ratio { numer: 0, denom: 1 });
    assert_eq!((s.median_duration.lower, s.median_duration.upper), (0, 0));
    assert_eq!(s.percentiles.p50, 0);
    assert_eq!(s.min_duration, 0);
    assert_eq!(s.max_duration, 0);
    assert_eq!(s.requests_per_second, Ratio { numer: 0, denom: 1 });
}

#[test]
fn every_outcome_counts_as_a_request() {
    let mut m = RunMetrics::new(0);
    record(&mut m, Ok(response(200, 10, 5)));
    record(&mut m, Err(RequestError::Transport("connection refused".to_string())));
    record(&mut m, Ok(response(301, 0, 7)));
    record(&mut m, Err(RequestError::InvalidMethod("TRACE".to_string())));
    record(&mut m, Ok(response(404, 3, 9)));
    assert_eq!(m.total_requests(), 5);
    assert_eq!(m.total_errors(), 3);
    assert_eq!(m.total_redirects(), 1);
    assert_eq!(m.durations(), &vec![5, 7, 9]);
    assert_eq!(m.responses().len(), 3);
    let s = m.snapshot(1000);
    assert_eq!(s.total_bytes, 13);
    assert_eq!(s.total_duration, 21);
    assert_eq!(s.mean_duration, Ratio { numer: 21, denom: 5 });
}

#[test]
fn snapshot_matches_sorted_reference() {
    let mut m = RunMetrics::new(0);
    let ds: Vec<u128> = vec![50, 10, 40, 20, 30, 60];
    for d in &ds {
        record(&mut m, Ok(response(200, 1, *d)));
    }
    let s = m.snapshot(2000);
    let mut sorted = ds.clone();
    sorted.sort();
    let n = sorted.len();
    assert_eq!((s.median_duration.lower, s.median_duration.upper), (sorted[n / 2 - 1], sorted[n / 2]));
    for (p, got) in [
        (0.10, s.percentiles.p10),
        (0.25, s.percentiles.p25),
        (0.50, s.percentiles.p50),
        (0.75, s.percentiles.p75),
        (0.90, s.percentiles.p90),
        (0.95, s.percentiles.p95),
        (0.99, s.percentiles.p99),
    ] {
        assert_eq!(got, sorted[((n - 1) as f64 * p).round() as usize]);
    }
    assert_eq!(s.min_duration, 10);
    assert_eq!(s.max_duration, 60);
    assert_eq!(m.durations(), &ds);
}

#[test]
fn throughput_over_elapsed_time() {
    let mut m = RunMetrics::new(1000);
    for _ in 0..10 {
        record(&mut m, Ok(response(200, 0, 1)));
    }
    assert_eq!(m.snapshot(3000).requests_per_second, Ratio { numer: 10000, denom: 2000 });
    assert_eq!(m.snapshot(1000).requests_per_second, Ratio { numer: 10000, denom: 1 });
    assert_eq!(m.snapshot(500).requests_per_second, Ratio { numer: 10000, denom: 1 });
    assert_eq!(m.snapshot(3000).timestamp, 3000);
    assert_eq!(m.start_ms(), 1000);
}

#[test]
fn server_errors_are_all_errors_with_durations() {
    let mut m = RunMetrics::new(0);
    for d in [12u128, 8, 15] {
        record(&mut m, Ok(response(500, 0, d)));
    }
    let s = m.snapshot(1000);
    assert_eq!(s.total_errors, s.total_requests);
    assert_eq!(m.durations().len(), 3);
    assert_eq!(s.percentiles.p50, 12);
}

#[test]
fn classification_boundaries_in_totals() {
    let mut m = RunMetrics::new(0);
    for status in [299u16, 300, 399, 400] {
        record(&mut m, Ok(response(status, 0, 1)));
    }
    assert_eq!(m.total_redirects(), 2);
    assert_eq!(m.total_errors(), 1);
}

#[test]
fn overflowing_total_is_refused() {
    let mut m = RunMetrics::new(0);
    record(&mut m, Ok(response(200, 0, u128::MAX)));
    assert!(!m.can_record(&Ok(response(200, 0, 1))));
    assert!(m.can_record(&Ok(response(200, 0, 0))));
    assert!(m.can_record(&Err(RequestError::Transport("timeout".to_string()))));
}

fn simulate(limit: usize, duration_ms: u64, latency_ms: u64, status: u16) -> (RunMetrics, usize) {
    let mut c = ConcurrencyController::new(limit, duration_ms);
    let mut m = RunMetrics::new(0);
    let mut elapsed: u64 = 0;
    let mut peak: usize = 0;
    loop {
        match c.next(elapsed) {
            Admission::Launch => {
                assert!(c.can_launch());
                c.on_launch();
                peak = peak.max(c.in_flight());
                assert!(c.in_flight() <= limit);
            }
            Admission::AwaitCompletion => {
                elapsed += latency_ms / limit as u64 + 1;
                record(&mut m, Ok(response(status, 2, latency_ms as u128)));
                c.on_completion();
            }
            Admission::Finished => break,
        }
    }
    assert_eq!(c.in_flight(), 0);
    assert_eq!(m.total_requests(), c.launched());
    (m, peak)
}

#[test]
fn in_flight_never_exceeds_one() {
    let (_, peak) = simulate(1, 1000, 10, 200);
    assert_eq!(peak, 1);
}

#[test]
fn in_flight_never_exceeds_ten() {
    let (_, peak) = simulate(10, 1000, 10, 200);
    assert_eq!(peak, 10);
}

#[test]
fn in_flight_never_exceeds_five_thousand() {
    let (_, peak) = simulate(5000, 1000, 10, 200);
    assert_eq!(peak, 5000);
}

#[test]
fn healthy_run_records_requests_without_errors() {
    let (m, _) = simulate(5, 2000, 10, 200);
    assert!(m.total_requests() > 0);
    assert_eq!(m.total_errors(), 0);
}

#[test]
fn failing_endpoint_counts_every_request_as_error() {
    let (m, _) = simulate(5, 2000, 10, 500);
    assert!(m.total_requests() > 0);
    assert_eq!(m.total_errors(), m.total_requests());
    assert_eq!(m.durations().len() as u64, m.total_requests());
}

#[test]
fn phases_follow_the_run() {
    let mut c = ConcurrencyController::new(2, 1000);
    assert_eq!(c.phase(0), Phase::Filling);
    c.on_launch();
    c.on_launch();
    assert_eq!(c.phase(10), Phase::Steady);
    assert_eq!(c.next(10), Admission::AwaitCompletion);
    assert_eq!(c.phase(1000), Phase::Draining);
    assert_eq!(c.next(1000), Admission::AwaitCompletion);
    c.on_completion();
    assert_eq!(c.next(500), Admission::Launch);
    c.on_completion();
    assert_eq!(c.phase(1000), Phase::Done);
    assert_eq!(c.next(1000), Admission::Finished);
    assert!(c.broadcasting(999));
    assert!(!c.broadcasting(1000));
}
