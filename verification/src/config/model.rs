//! The configuration a run is described by.
use vstd::prelude::*;

use crate::text::owned;

verus! {

/// A complete run configuration.
#[derive(Debug, Clone)]
pub struct Config {
    pub protocol: Protocol,
    pub target: Target,
    pub device: DeviceConfig,
    pub payload: PayloadConfig,
    pub run: RunConfig,
    pub auth: Option<AuthConfig>,
    pub time: Option<TimeConfig>,
}

/// The transport messages are sent over.
#[derive(Debug, Clone, Copy, PartialEq, Eq, Structural)]
pub enum Protocol {
    Mqtt,
    Http,
    Tcp,
}

/// The lower-case name of a protocol.
pub open spec fn protocol_name(p: Protocol) -> Seq<char> {
    match p {
        Protocol::Mqtt => "mqtt"@,
        Protocol::Http => "http"@,
        Protocol::Tcp => "tcp"@,
    }
}

impl Protocol {
    /// The lower-case name of the protocol, as shown to users.
    pub fn name(&self) -> (res: String)
        ensures
            res@ == protocol_name(*self),
    {
        match self {
            Protocol::Mqtt => owned("mqtt"),
            Protocol::Http => owned("http"),
            Protocol::Tcp => owned("tcp"),
        }
    }
}

/// Where messages go. Which fields matter depends on the protocol.
#[derive(Debug, Clone)]
pub struct Target {
    pub broker: Option<String>,
    pub topic: Option<String>,
    pub client_id: Option<String>,
    pub qos: Option<u8>,
    pub retain: Option<bool>,
    /// MQTT broker credentials given under the target.
    pub auth: Option<TargetAuth>,
    pub url: Option<String>,
    pub method: Option<String>,
    /// Extra HTTP headers, as name and value pairs.
    pub headers: Option<Vec<(String, String)>>,
    pub timeout_secs: Option<u64>,
    pub host: Option<String>,
    pub port: Option<u16>,
    pub line_delimiter: Option<bool>,
}

/// Username and password for an MQTT broker.
#[derive(Debug, Clone)]
pub struct TargetAuth {
    pub username: String,
    pub password: String,
}

/// How many devices are simulated and how they are named.
#[derive(Debug, Clone)]
pub struct DeviceConfig {
    pub count: usize,
    pub id_prefix: String,
}

/// The prefix of device ids when none is configured.
pub fn default_id_prefix() -> (res: String)
    ensures
        res@ == "device"@,
{
    owned("device")
}

impl Default for DeviceConfig {
    fn default() -> (res: Self)
        ensures
            res.count == 1,
            res.id_prefix@ == "device"@,
    {
        DeviceConfig { count: 1, id_prefix: owned("device") }
    }
}

/// How payloads are produced.
#[derive(Debug, Clone)]
pub struct PayloadConfig {
    pub mode: PayloadMode,
    pub template_file: Option<String>,
    pub template_inline: Option<String>,
}

/// Random sensor readings, or a user template.
#[derive(Debug, Clone, Copy, PartialEq, Eq, Structural)]
pub enum PayloadMode {
    Random,
    Template,
}

/// The payload mode when none is configured.
pub fn default_payload_mode() -> (res: PayloadMode)
    ensures
        res == PayloadMode::Random,
{
    PayloadMode::Random
}

impl Default for PayloadConfig {
    fn default() -> (res: Self)
        ensures
            res.mode == PayloadMode::Random,
            res.template_file is None,
            res.template_inline is None,
    {
        PayloadConfig { mode: PayloadMode::Random, template_file: None, template_inline: None }
    }
}

/// How long a run lasts and how fast it sends.
#[derive(Debug, Clone)]
pub struct RunConfig {
    pub total_messages: usize,
    pub interval_ms: u64,
    pub duration_secs: Option<u64>,
}

/// The number of messages of a run when none is configured.
pub fn default_total_messages() -> (res: usize)
    ensures
        res == 10,
{
    10
}

/// The pause between messages, in milliseconds, when none is configured.
pub fn default_interval_ms() -> (res: u64)
    ensures
        res == 1000,
{
    1000
}

impl Default for RunConfig {
    fn default() -> (res: Self)
        ensures
            res.total_messages == 10,
            res.interval_ms == 1000,
            res.duration_secs is None,
    {
        RunConfig { total_messages: 10, interval_ms: 1000, duration_secs: None }
    }
}

/// Credentials given at the root of the configuration.
#[derive(Debug, Clone)]
pub enum AuthConfig {
    UsernamePassword { username: String, password: String },
    Bearer { token: String },
    ApiKey { header: String, value: String },
}

/// How message timestamps are produced.
#[derive(Debug, Clone, Copy, PartialEq, Eq, Structural)]
pub enum TimeMode {
    /// The current wall-clock time.
    Real,
    /// `start + seq * step_secs`.
    Fixed,
    /// `start`, then a random step in `[min_secs, max_secs]` per message.
    Random,
}

/// The simulated clock's settings.
#[derive(Debug, Clone)]
pub struct TimeConfig {
    pub mode: TimeMode,
    pub start: Option<String>,
    pub step_secs: Option<i64>,
    pub min_secs: Option<i64>,
    pub max_secs: Option<i64>,
    /// The payload key the timestamp is written under.
    pub field: String,
}

/// The timestamp key when none is configured.
pub fn default_time_field() -> (res: String)
    ensures
        res@ == "ts"@,
{
    owned("ts")
}

/// The time mode when none is configured.
pub fn default_time_mode() -> (res: TimeMode)
    ensures
        res == TimeMode::Real,
{
    TimeMode::Real
}

} // verus!
