use mer_iot::report::metrics::Metrics;

/// The success rate the run summary shows, in percent.
fn success_rate(m: &Metrics) -> f64 {
    if m.total_sent > 0 {
        (m.total_success as f64 / m.total_sent as f64) * 100.0
    } else {
        0.0
    }
}

#[test]
fn test_initial_snapshot_is_zero() {
    let s = Metrics::new();
    assert_eq!(s.total_sent, 0);
    assert_eq!(s.total_success, 0);
    assert_eq!(s.total_failed, 0);
    assert_eq!(s.total_bytes, 0);
    assert_eq!(s.error_count, 0);
    assert_eq!(success_rate(&s), 0.0);
}

#[test]
fn test_record_success_increments_counters() {
    let mut s = Metrics::new();
    s.record_success(100);
    s.record_success(200);
    assert_eq!(s.total_sent, 2);
    assert_eq!(s.total_success, 2);
    assert_eq!(s.total_failed, 0);
    assert_eq!(s.total_bytes, 300);
    assert_eq!(success_rate(&s), 100.0);
}

#[test]
fn test_record_failure_increments_counters() {
    let mut s = Metrics::new();
    s.record_failure();
    s.record_failure();
    assert_eq!(s.total_sent, 2);
    assert_eq!(s.total_success, 0);
    assert_eq!(s.total_failed, 2);
    assert_eq!(s.error_count, 2);
    assert_eq!(success_rate(&s), 0.0);
}

#[test]
fn test_mixed_success_and_failure() {
    let mut s = Metrics::new();
    s.record_success(50);
    s.record_success(50);
    s.record_success(50);
    s.record_failure();
    assert_eq!(s.total_sent, 4);
    assert_eq!(s.total_success, 3);
    assert_eq!(s.total_failed, 1);
    assert_eq!(s.total_bytes, 150);
    assert!((success_rate(&s) - 75.0).abs() < 0.001);
}

#[test]
fn test_success_rate_no_messages() {
    let s = Metrics::new();
    assert_eq!(success_rate(&s), 0.0);
}

#[test]
fn byte_counter_wraps_around() {
    let mut s = Metrics::new();
    s.total_bytes = u64::MAX;
    s.record_success(2);
    assert_eq!(s.total_bytes, 1);
    assert_eq!(s.total_sent, 1);
}
