//! The commands of the tool, the starter configurations it writes, and the check
//! that a configuration matches the command it is run with.
use vstd::prelude::*;

use crate::config::model::{protocol_name, Protocol};
use crate::error::{MerError, MerErrorView};
use crate::text::{concat3, str_eq};

verus! {

/// The command line.
#[derive(Debug, Clone)]
pub struct Cli {
    pub command: Commands,
}

/// The top-level commands.
#[derive(Debug, Clone)]
pub enum Commands {
    /// MQTT commands
    Mqtt { command: MqttCommands },
    /// HTTP commands
    Http { command: HttpCommands },
    /// TCP commands
    Tcp { command: TcpCommands },
    /// Validate a config file
    Validate { command: ValidateCommands },
    /// Preview generated payloads without sending
    Preview { command: PreviewCommands },
    /// Generate a starter config file
    Init(InitArgs),
}

/// MQTT subcommands.
#[derive(Debug, Clone)]
pub enum MqttCommands {
    /// Send MQTT messages
    Run(RunArgs),
}

/// HTTP subcommands.
#[derive(Debug, Clone)]
pub enum HttpCommands {
    /// Send HTTP messages
    Run(RunArgs),
}

/// TCP subcommands.
#[derive(Debug, Clone)]
pub enum TcpCommands {
    /// Send TCP messages
    Run(RunArgs),
}

/// Validation subcommands.
#[derive(Debug, Clone)]
pub enum ValidateCommands {
    /// Validate the config file
    Config(ConfigFileArgs),
}

/// Preview subcommands.
#[derive(Debug, Clone)]
pub enum PreviewCommands {
    /// Preview a generated payload
    Payload(PreviewArgs),
}

/// Arguments of a run.
#[derive(Debug, Clone)]
pub struct RunArgs {
    /// Path to config file
    pub file: String,
}

/// Arguments naming a configuration file.
#[derive(Debug, Clone)]
pub struct ConfigFileArgs {
    /// Path to config file
    pub file: String,
}

/// Arguments of a preview.
#[derive(Debug, Clone)]
pub struct PreviewArgs {
    /// Path to config file
    pub file: String,
    /// Number of sample payloads to show
    pub count: usize,
}

/// Arguments of `init`.
#[derive(Debug, Clone)]
pub struct InitArgs {
    /// Protocol to generate config for
    pub protocol: String,
    /// File to write the config to; printed when absent
    pub file: Option<String>,
}

/// The starter configuration for MQTT.
pub const MQTT_TEMPLATE: &'static str = "protocol: mqtt\n\ntarget:\n  broker: mqtt://localhost:1883\n  topic: \"devices/{device_id}/telemetry\"\n  client_id: \"mer-client-{device_id}\"\n  qos: 1\n  retain: false\n\ndevice:\n  count: 5\n  id_prefix: device\n\npayload:\n  mode: random\n\nrun:\n  total_messages: 100\n  interval_ms: 1000\n";

/// The starter configuration for HTTP.
pub const HTTP_TEMPLATE: &'static str = "protocol: http\n\ntarget:\n  url: \"http://localhost:8080/api/data\"\n  method: POST\n  timeout_secs: 10\n  headers:\n    Content-Type: application/json\n\ndevice:\n  count: 5\n  id_prefix: device\n\npayload:\n  mode: random\n\nrun:\n  total_messages: 100\n  interval_ms: 1000\n";

/// The starter configuration for TCP.
pub const TCP_TEMPLATE: &'static str = "protocol: tcp\n\ntarget:\n  host: localhost\n  port: 9000\n  timeout_secs: 5\n  line_delimiter: true\n\ndevice:\n  count: 5\n  id_prefix: device\n\npayload:\n  mode: random\n\nrun:\n  total_messages: 100\n  interval_ms: 1000\n";

/// The starter configuration `init` writes for a protocol name; an unknown name
/// gets the MQTT one.
pub fn starter_config(protocol: &str) -> (res: &'static str)
    ensures
        res@ == (if protocol@ == "http"@ {
            HTTP_TEMPLATE@
        } else if protocol@ == "tcp"@ {
            TCP_TEMPLATE@
        } else {
            MQTT_TEMPLATE@
        }),
{
    if str_eq(protocol, "http") {
        HTTP_TEMPLATE
    } else if str_eq(protocol, "tcp") {
        TCP_TEMPLATE
    } else {
        MQTT_TEMPLATE
    }
}

/// Whether a configuration's protocol is the one of the command it is run with.
pub fn check_protocol(configured: Protocol, expected: Protocol) -> (res: Result<(), MerError>)
    ensures
        configured == expected ==> res is Ok,
        configured != expected ==> (res matches Err(e) && e@ == MerErrorView::Validation(
            "Config protocol '"@ + protocol_name(configured) + "' does not match command protocol '"@
                + protocol_name(expected) + "'"@,
        )),
{
    if configured == expected {
        Ok(())
    } else {
        let a = configured.name();
        let b = expected.name();
        let head = concat3("Config protocol '", a.as_str(), "' does not match command protocol '");
        Err(MerError::Validation(concat3(head.as_str(), b.as_str(), "'")))
    }
}

} // verus!
