use mer_iot::config::model::{
    AuthConfig, Config, DeviceConfig, PayloadConfig, Protocol, RunConfig, Target, TargetAuth,
};
use mer_iot::error::MerError;
use mer_iot::protocols::http::{resolve_url, response_result, HttpSettings, HttpVerb};
use mer_iot::protocols::mqtt::{client_id_from, parse_broker, resolve_topic, MqttSettings, QosLevel};
use mer_iot::protocols::sender::OutboundMessage;
use mer_iot::protocols::tcp::TcpSender;

fn empty_target() -> Target {
    Target {
        broker: None,
        topic: None,
        client_id: None,
        qos: None,
        retain: None,
        auth: None,
        url: None,
        method: None,
        headers: None,
        timeout_secs: None,
        host: None,
        port: None,
        line_delimiter: None,
    }
}

fn config_with(protocol: Protocol, target: Target, auth: Option<AuthConfig>) -> Config {
    Config {
        protocol,
        target,
        device: DeviceConfig::default(),
        payload: PayloadConfig::default(),
        run: RunConfig::default(),
        auth,
        time: None,
    }
}

fn config_error(r: Result<impl std::fmt::Debug, MerError>) -> String {
    match r {
        Err(MerError::Config(m)) => m,
        other => panic!("expected a config error, got {:?}", other),
    }
}

#[test]
fn broker_uris_split_into_host_and_port() {
    assert_eq!(parse_broker("mqtt://localhost:1883").unwrap(), ("localhost".to_string(), 1883));
    assert_eq!(parse_broker("mqtts://broker.io:8883").unwrap(), ("broker.io".to_string(), 8883));
    assert_eq!(parse_broker("example.com").unwrap(), ("example.com".to_string(), 1883));
    assert_eq!(parse_broker("h:+42").unwrap(), ("h".to_string(), 42));
    assert_eq!(parse_broker("a:b:7").unwrap(), ("a:b".to_string(), 7));
    assert_eq!(
        config_error(parse_broker("mqtt://host:70000")),
        "Invalid MQTT broker port in URI: mqtt://host:70000"
    );
    assert!(parse_broker("host:").is_err());
    assert!(parse_broker("host:-1").is_err());
}

#[test]
fn topics_and_urls_name_the_device() {
    assert_eq!(resolve_topic("devices/{device_id}/telemetry", "d-0001"), "devices/d-0001/telemetry");
    assert_eq!(resolve_topic("{device_id}{device_id}", "x"), "xx");
    assert_eq!(resolve_url("http://h/{device_id}/data", "s-7"), "http://h/s-7/data");
    assert_eq!(resolve_url("http://h/static", "s-7"), "http://h/static");
}

#[test]
fn tcp_settings_defaults_and_framing() {
    let mut target = empty_target();
    target.host = Some("localhost".to_string());
    target.port = Some(9000);
    let tcp = TcpSender::from_config(&config_with(Protocol::Tcp, target, None)).unwrap();
    assert_eq!(tcp.timeout_secs, 5);
    assert!(tcp.line_delimiter);
    assert_eq!(tcp.address(), "localhost:9000");
    assert_eq!(tcp.frame("{}"), b"{}\n".to_vec());

    let mut target = empty_target();
    target.host = Some("localhost".to_string());
    assert_eq!(
        config_error(TcpSender::from_config(&config_with(Protocol::Tcp, target, None))),
        "target.port is required for TCP"
    );
    assert_eq!(
        config_error(TcpSender::from_config(&config_with(Protocol::Tcp, empty_target(), None))),
        "target.host is required for TCP"
    );
}

#[test]
fn mqtt_settings_from_config() {
    let mut target = empty_target();
    target.broker = Some("mqtt://localhost:1883".to_string());
    target.topic = Some("t/{device_id}".to_string());
    target.qos = Some(2);
    let s = MqttSettings::from_config(&config_with(Protocol::Mqtt, target.clone(), None)).unwrap();
    assert_eq!(s.host, "localhost");
    assert_eq!(s.port, 1883);
    assert_eq!(s.qos, QosLevel::ExactlyOnce);
    assert!(!s.retain);
    assert!(s.client_id.starts_with("mer-"));
    assert_eq!(s.client_id.len(), 40);
    assert!(s.credentials.is_none());

    let mut with_auth = target.clone();
    with_auth.auth = Some(TargetAuth { username: "u".to_string(), password: "p".to_string() });
    let s = MqttSettings::from_config(&config_with(Protocol::Mqtt, with_auth, None)).unwrap();
    assert_eq!(s.credentials, Some(("u".to_string(), "p".to_string())));

    let bearer = Some(AuthConfig::Bearer { token: "t".to_string() });
    assert_eq!(
        config_error(MqttSettings::from_config(&config_with(Protocol::Mqtt, target.clone(), bearer))),
        "MQTT only supports username/password auth"
    );

    let mut bad_qos = target.clone();
    bad_qos.qos = Some(7);
    assert_eq!(
        config_error(MqttSettings::from_config(&config_with(Protocol::Mqtt, bad_qos, None))),
        "Invalid MQTT QoS value: 7"
    );

    let mut no_topic = target;
    no_topic.topic = None;
    assert_eq!(
        config_error(MqttSettings::from_config(&config_with(Protocol::Mqtt, no_topic, None))),
        "target.topic is required for MQTT"
    );
}

#[test]
fn http_requests_are_planned_from_settings() {
    let mut target = empty_target();
    target.url = Some("http://h/{device_id}".to_string());
    target.method = Some("put".to_string());
    target.headers = Some(vec![
        ("X-Custom".to_string(), "v".to_string()),
        ("bad header".to_string(), "v".to_string()),
        ("X-Split".to_string(), "a\nb".to_string()),
    ]);
    let auth = Some(AuthConfig::UsernamePassword {
        username: "user".to_string(),
        password: "pass".to_string(),
    });
    let s = HttpSettings::from_config(&config_with(Protocol::Http, target, auth)).unwrap();
    assert_eq!(s.method, "PUT");
    assert_eq!(s.timeout_secs, 10);
    let msg = OutboundMessage {
        topic_or_path: String::new(),
        payload: "{\"t\":\"é\"}".to_string(),
        device_id: "dev-0003".to_string(),
    };
    let plan = s.plan_request(&msg).unwrap();
    assert_eq!(plan.url, "http://h/dev-0003");
    assert_eq!(plan.verb, HttpVerb::Put);
    assert_eq!(plan.body_len, 10);
    assert_eq!(
        plan.headers,
        vec![
            ("content-type".to_string(), "application/json".to_string()),
            ("X-Custom".to_string(), "v".to_string()),
            ("authorization".to_string(), "Basic dXNlcjpwYXNz".to_string()),
        ]
    );

    let mut target = empty_target();
    target.url = Some("http://h".to_string());
    target.method = Some("DELETE".to_string());
    let s = HttpSettings::from_config(&config_with(Protocol::Http, target, None)).unwrap();
    let r = s.plan_request(&msg).unwrap_err();
    assert!(!r.success);
    assert_eq!(r.bytes_sent, 0);
    assert_eq!(r.error.as_deref(), Some("Unsupported HTTP method: DELETE"));

    assert_eq!(
        config_error(HttpSettings::from_config(&config_with(Protocol::Http, empty_target(), None))),
        "target.url is required for HTTP"
    );
}

#[test]
fn bearer_and_api_key_headers() {
    let mut target = empty_target();
    target.url = Some("http://h".to_string());
    let bearer = Some(AuthConfig::Bearer { token: "abc".to_string() });
    let s = HttpSettings::from_config(&config_with(Protocol::Http, target.clone(), bearer)).unwrap();
    assert_eq!(s.method, "POST");
    let h = s.headers_for_request();
    assert_eq!(h[1], ("authorization".to_string(), "Bearer abc".to_string()));
    let msg = OutboundMessage {
        topic_or_path: String::new(),
        payload: String::new(),
        device_id: "d".to_string(),
    };
    let mut get = s.clone();
    get.method = "GET".to_string();
    assert_eq!(get.plan_request(&msg).unwrap().verb, HttpVerb::Get);
    let key = Some(AuthConfig::ApiKey { header: "X-API-Key".to_string(), value: "k".to_string() });
    let s = HttpSettings::from_config(&config_with(Protocol::Http, target, key)).unwrap();
    let h = s.headers_for_request();
    assert_eq!(h[1], ("X-API-Key".to_string(), "k".to_string()));
}

#[test]
fn responses_are_reported() {
    let ok = response_result(201, Some("Created"), 12);
    assert!(ok.success);
    assert_eq!(ok.bytes_sent, 12);
    assert!(ok.error.is_none());
    let bad = response_result(503, Some("Service Unavailable"), 12);
    assert!(!bad.success);
    assert_eq!(bad.bytes_sent, 12);
    assert_eq!(bad.error.as_deref(), Some("HTTP 503 Service Unavailable"));
    let odd = response_result(599, None, 1);
    assert_eq!(odd.error.as_deref(), Some("HTTP 599 "));
}

#[test]
fn mqtts_brokers_are_reached_over_tls() {
    let mut target = empty_target();
    target.broker = Some("mqtts://mqtt.iotmer.cloud:8883".to_string());
    target.topic = Some("devices/{device_id}/telemetry".to_string());
    let s = MqttSettings::from_config(&config_with(Protocol::Mqtt, target.clone(), None)).unwrap();
    assert!(s.tls);
    assert_eq!(s.host, "mqtt.iotmer.cloud");
    assert_eq!(s.port, 8883);
    target.broker = Some("mqtt://mqtt.iotmer.cloud:1883".to_string());
    let s = MqttSettings::from_config(&config_with(Protocol::Mqtt, target.clone(), None)).unwrap();
    assert!(!s.tls);
    target.broker = Some("localhost".to_string());
    let s = MqttSettings::from_config(&config_with(Protocol::Mqtt, target, None)).unwrap();
    assert!(!s.tls);
    assert_eq!(s.port, 1883);
}

#[test]
fn header_names_are_tokens() {
    let mut target = empty_target();
    target.url = Some("http://h".to_string());
    target.headers = Some(vec![
        ("X!#$%&'*+-.^_`|~9".to_string(), "a".to_string()),
        ("X-\u{dc}mlaut".to_string(), "b".to_string()),
        ("".to_string(), "c".to_string()),
        ("X(Paren)".to_string(), "d".to_string()),
    ]);
    let s = HttpSettings::from_config(&config_with(Protocol::Http, target, None)).unwrap();
    let h = s.headers_for_request();
    assert_eq!(
        h,
        vec![
            ("content-type".to_string(), "application/json".to_string()),
            ("X!#$%&'*+-.^_`|~9".to_string(), "a".to_string()),
        ]
    );
}

#[test]
fn client_ids_are_prefixed_uuids() {
    assert_eq!(
        client_id_from("123e4567-e89b-42d3-a456-426614174000"),
        "mer-123e4567-e89b-42d3-a456-426614174000"
    );
    let mut target = empty_target();
    target.broker = Some("localhost".to_string());
    target.topic = Some("t".to_string());
    let a = MqttSettings::from_config(&config_with(Protocol::Mqtt, target.clone(), None)).unwrap();
    let b = MqttSettings::from_config(&config_with(Protocol::Mqtt, target, None)).unwrap();
    assert_ne!(a.client_id, b.client_id);
    assert_eq!(a.client_id.as_bytes()[4 + 14], b'4');
}
