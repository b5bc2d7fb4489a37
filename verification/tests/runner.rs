use mer_iot::cli::{check_protocol, starter_config, HTTP_TEMPLATE, MQTT_TEMPLATE, TCP_TEMPLATE};
use mer_iot::config::model::{
    default_id_prefix, default_interval_ms, default_payload_mode, default_total_messages, Config,
    DeviceConfig, PayloadConfig, PayloadMode, Protocol, RunConfig, Target, TimeConfig, TimeMode,
};
use mer_iot::engine::runner::{outcome_of, MessageOutcome, RunState, RunStep};
use mer_iot::error::MerError;
use mer_iot::payload::profiles::{random_status, status_for_draw};
use mer_iot::protocols::sender::SendResult;
use mer_iot::report::metrics::Metrics;

fn config(count: usize, total: usize, duration: Option<u64>) -> Config {
    Config {
        protocol: Protocol::Tcp,
        target: Target {
            broker: None,
            topic: None,
            client_id: None,
            qos: None,
            retain: None,
            auth: None,
            url: None,
            method: None,
            headers: None,
            timeout_secs: None,
            host: Some("h".to_string()),
            port: Some(1),
            line_delimiter: None,
        },
        device: DeviceConfig { count, id_prefix: "dev".to_string() },
        payload: PayloadConfig::default(),
        run: RunConfig { total_messages: total, interval_ms: 250, duration_secs: duration },
        auth: None,
        time: Some(TimeConfig {
            mode: TimeMode::Fixed,
            start: Some("2026-01-01T00:00:00Z".to_string()),
            step_secs: Some(60),
            min_secs: None,
            max_secs: None,
            field: "time".to_string(),
        }),
    }
}

#[test]
fn a_run_hands_out_devices_round_robin_and_counts_outcomes() {
    let mut run = RunState::begin(&config(2, 4, None)).unwrap();
    assert_eq!(run.interval_ms(), 250);
    assert_eq!(run.time_field(), "time");
    let outcomes = [
        MessageOutcome::Delivered { bytes: 10 },
        MessageOutcome::PayloadFailed,
        MessageOutcome::SendFailed,
        MessageOutcome::Delivered { bytes: 5 },
    ];
    let mut pauses = Vec::new();
    for (k, outcome) in outcomes.iter().enumerate() {
        match run.try_next_step(0).unwrap() {
            RunStep::Send { device, seq, ts } => {
                assert_eq!(seq, k);
                assert_eq!(device.device_id, format!("dev-{:04}", k % 2));
                assert_eq!(ts.secs, 1767225600 + 60 * k as i64);
            }
            other => panic!("unexpected step {:?}", other),
        }
        pauses.push(run.finish_message(*outcome));
    }
    assert_eq!(pauses, vec![true, false, true, false]);
    assert!(matches!(run.try_next_step(0), Some(RunStep::Finished)));
    let m = run.metrics();
    assert_eq!(m.total_sent, 4);
    assert_eq!(m.total_success, 2);
    assert_eq!(m.total_failed, 2);
    assert_eq!(m.error_count, 2);
    assert_eq!(m.total_bytes, 15);
}

#[test]
fn a_time_limit_stops_the_run() {
    let mut run = RunState::begin(&config(1, 10, Some(3))).unwrap();
    assert!(matches!(run.try_next_step(2), Some(RunStep::Send { .. })));
    run.finish_message(MessageOutcome::Delivered { bytes: 1 });
    match run.try_next_step(3) {
        Some(RunStep::DurationLimitReached { sent }) => assert_eq!(sent, 1),
        other => panic!("unexpected {:?}", other),
    }
    assert!(matches!(run.try_next_step(0), Some(RunStep::Finished)));
    assert_eq!(run.metrics().total_sent, 1);
}

#[test]
fn a_bad_clock_start_fails_the_run() {
    let mut c = config(1, 1, None);
    if let Some(t) = c.time.as_mut() {
        t.start = Some("soon".to_string());
    }
    assert!(matches!(RunState::begin(&c), Err(MerError::Config(_))));
}

#[test]
fn reports_become_outcomes() {
    let ok = SendResult { success: true, bytes_sent: 3, error: None };
    let bad = SendResult { success: false, bytes_sent: 3, error: Some("x".to_string()) };
    assert_eq!(outcome_of(&ok), MessageOutcome::Delivered { bytes: 3 });
    assert_eq!(outcome_of(&bad), MessageOutcome::SendFailed);
}

#[test]
fn metrics_count_successes_and_failures() {
    let mut m = Metrics::new();
    assert_eq!((m.total_sent, m.total_success, m.total_failed, m.total_bytes, m.error_count), (0, 0, 0, 0, 0));
    m.record_success(100);
    m.record_success(200);
    m.record_failure();
    assert_eq!(m.total_sent, 3);
    assert_eq!(m.total_success, 2);
    assert_eq!(m.total_failed, 1);
    assert_eq!(m.error_count, 1);
    assert_eq!(m.total_bytes, 300);
    let mut w = Metrics { total_sent: usize::MAX, total_success: 0, total_failed: usize::MAX, total_bytes: u64::MAX, error_count: 0 };
    w.record_failure();
    assert_eq!(w.total_sent, 0);
    w.record_success(2);
    assert_eq!(w.total_bytes, 1);
}

#[test]
fn protocol_mismatch_is_a_validation_error() {
    assert!(check_protocol(Protocol::Http, Protocol::Http).is_ok());
    match check_protocol(Protocol::Mqtt, Protocol::Tcp) {
        Err(e) => {
            assert_eq!(
                e.message(),
                "Validation error: Config protocol 'mqtt' does not match command protocol 'tcp'"
            );
        }
        Ok(()) => panic!("expected an error"),
    }
}

#[test]
fn starter_configs_per_protocol() {
    assert_eq!(starter_config("http"), HTTP_TEMPLATE);
    assert_eq!(starter_config("tcp"), TCP_TEMPLATE);
    assert_eq!(starter_config("mqtt"), MQTT_TEMPLATE);
    assert_eq!(starter_config("other"), MQTT_TEMPLATE);
    assert!(MQTT_TEMPLATE.contains("protocol: mqtt"));
}

#[test]
fn defaults_match_the_documented_ones() {
    assert_eq!(default_id_prefix(), "device");
    assert_eq!(default_payload_mode(), PayloadMode::Random);
    assert_eq!(default_total_messages(), 10);
    assert_eq!(default_interval_ms(), 1000);
    let d = DeviceConfig::default();
    assert_eq!((d.count, d.id_prefix.as_str()), (1, "device"));
    assert_eq!(Protocol::Http.name(), "http");
}

#[test]
fn statuses_are_drawn_four_to_one_to_one() {
    let draws: Vec<String> = (0..6).map(status_for_draw).collect();
    assert_eq!(draws, vec!["online", "online", "online", "online", "offline", "error"]);
    for _ in 0..30 {
        let s = random_status();
        assert!(["online", "offline", "error"].contains(&s.as_str()));
    }
}

#[test]
fn timestamps_format_as_rfc3339() {
    let mut run = RunState::begin(&config(1, 1, None)).unwrap();
    match run.try_next_step(0) {
        Some(RunStep::Send { ts, .. }) => assert_eq!(ts.to_rfc3339(), "2026-01-01T00:00:00+00:00"),
        other => panic!("unexpected {:?}", other),
    }
}

#[test]
fn error_messages_name_their_kind() {
    let cases = [
        (MerError::Config("a".to_string()), "Config error: a"),
        (MerError::Validation("b".to_string()), "Validation error: b"),
        (MerError::Template("c".to_string()), "Template error: c"),
        (MerError::Http("d".to_string()), "HTTP error: d"),
        (MerError::Io("e".to_string()), "IO error: e"),
        (MerError::Yaml("f".to_string()), "YAML parse error: f"),
        (MerError::Json("g".to_string()), "JSON error: g"),
    ];
    for (e, text) in cases.iter() {
        assert_eq!(e.message(), *text);
    }
}

#[test]
fn a_valid_configuration_can_be_run_to_the_end() {
    let c = config(3, 5, None);
    assert!(mer_iot::config::validate::validate_config(&c).is_ok());
    let mut run = RunState::begin(&c).unwrap();
    let mut sent = 0;
    while let Some(RunStep::Send { .. }) = run.try_next_step(0) {
        run.finish_message(MessageOutcome::Delivered { bytes: 1 });
        sent += 1;
    }
    assert_eq!(sent, 5);
    assert_eq!(run.metrics().total_success, 5);
}
