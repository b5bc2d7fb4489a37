use mer_iot::config::model::{TimeConfig, TimeMode};
use mer_iot::error::MerError;
use mer_iot::payload::clock::{parse_start, SimClock};

fn cfg(mode: TimeMode, start: &str, step: i64, min: i64, max: i64) -> Option<TimeConfig> {
    Some(TimeConfig {
        mode,
        start: Some(start.to_string()),
        step_secs: Some(step),
        min_secs: Some(min),
        max_secs: Some(max),
        field: "ts".to_string(),
    })
}

#[test]
fn test_real_mode_defaults_to_now() {
    let mut clock = SimClock::from_config(&None).unwrap();
    let before = chrono::Utc::now();
    let ts = clock.timestamp(0);
    let after = chrono::Utc::now();
    let t = chrono::DateTime::from_timestamp(ts.secs, ts.nanos).unwrap();
    assert!(t >= before && t <= after);
}

#[test]
fn test_fixed_mode_is_evenly_spaced() {
    let mut clock =
        SimClock::from_config(&cfg(TimeMode::Fixed, "2026-01-01T00:00:00Z", 300, 0, 0)).unwrap();
    assert_eq!(clock.timestamp(0).to_rfc3339(), "2026-01-01T00:00:00+00:00");
    assert_eq!(clock.timestamp(1).to_rfc3339(), "2026-01-01T00:05:00+00:00");
    assert_eq!(clock.timestamp(2).to_rfc3339(), "2026-01-01T00:10:00+00:00");
}

#[test]
fn test_random_mode_accumulates_within_bounds() {
    let mut clock =
        SimClock::from_config(&cfg(TimeMode::Random, "2026-01-01 00:00:00", 0, 60, 1800)).unwrap();
    let mut prev = clock.timestamp(0);
    assert_eq!(prev.to_rfc3339(), "2026-01-01T00:00:00+00:00");
    for i in 1..20 {
        let next = clock.timestamp(i);
        let diff = next.secs - prev.secs;
        assert!((60..=1800).contains(&diff), "step out of range: {diff}");
        prev = next;
    }
}

#[test]
fn test_naive_start_parsed_as_utc() {
    let mut clock =
        SimClock::from_config(&cfg(TimeMode::Fixed, "2026-01-01 12:30:00", 0, 0, 0)).unwrap();
    assert_eq!(clock.timestamp(0).to_rfc3339(), "2026-01-01T12:30:00+00:00");
}

#[test]
fn test_invalid_start_errors() {
    let result = SimClock::from_config(&cfg(TimeMode::Fixed, "not-a-date", 0, 0, 0));
    assert!(result.is_err());
}

#[test]
fn start_parsing_reports_the_text() {
    let t = parse_start("2026-01-01T02:00:00+02:00").unwrap();
    assert_eq!(t.secs, 1767225600);
    assert_eq!(t.nanos, 0);
    match parse_start("yesterday") {
        Err(MerError::Config(m)) => assert_eq!(
            m,
            "Invalid time.start 'yesterday': expected RFC3339 (2026-01-01T00:00:00Z) or 'YYYY-MM-DD HH:MM:SS'"
        ),
        other => panic!("unexpected: {:?}", other),
    }
}

#[test]
fn random_clock_with_equal_bounds_steps_by_min() {
    let mut clock =
        SimClock::from_config(&cfg(TimeMode::Random, "2026-01-01T00:00:00Z", 0, 90, 10)).unwrap();
    let a = clock.timestamp(0);
    let b = clock.timestamp(1);
    assert_eq!(b.secs - a.secs, 90);
    assert_eq!(clock.field(), "ts");
}

#[test]
fn fixed_clock_refuses_instants_chrono_cannot_hold() {
    let clock =
        SimClock::from_config(&cfg(TimeMode::Fixed, "2026-01-01T00:00:00Z", i64::MAX, 0, 0)).unwrap();
    assert!(clock.can_stamp(0));
    assert!(!clock.can_stamp(2));
    let real = SimClock::from_config(&None).unwrap();
    assert!(real.can_stamp(usize::MAX));
}

#[test]
fn fixed_clock_stamps_do_not_depend_on_earlier_calls() {
    let mut clock =
        SimClock::from_config(&cfg(TimeMode::Fixed, "2026-01-01T00:00:00Z", 60, 0, 0)).unwrap();
    assert_eq!(clock.timestamp(5).to_rfc3339(), "2026-01-01T00:05:00+00:00");
    assert_eq!(clock.timestamp(2).to_rfc3339(), "2026-01-01T00:02:00+00:00");
    assert_eq!(clock.timestamp(5).to_rfc3339(), "2026-01-01T00:05:00+00:00");
}

#[test]
fn random_clock_series_starts_at_start_and_steps_within_bounds() {
    let mut clock =
        SimClock::from_config(&cfg(TimeMode::Random, "2026-01-01T00:00:00Z", 0, 5, 9)).unwrap();
    let start = parse_start("2026-01-01T00:00:00Z").unwrap();
    let mut prev = clock.timestamp(0);
    assert_eq!(prev, start);
    for seq in 1..50 {
        let ts = clock.timestamp(seq);
        let d = ts.secs - prev.secs;
        assert!((5..=9).contains(&d), "step {}", d);
        assert_eq!(ts.nanos, prev.nanos);
        prev = ts;
    }
}
