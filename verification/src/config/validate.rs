//! Checks a configuration before anything is sent.
//!
//! The checks run in a fixed order (target, device, payload, run, auth) and the
//! first one that fails decides the error.
use vstd::prelude::*;

use crate::config::model::{AuthConfig, Config, PayloadMode, Protocol};
use crate::error::{MerError, MerErrorView};
use crate::text::{concat2, concat3, owned, starts_with};

verus! {

/// A field that is absent or holds the empty string.
pub open spec fn field_missing(v: Option<String>) -> bool {
    match v {
        Some(s) => s@.len() == 0,
        None => true,
    }
}

/// The error for a required field that is absent or empty.
pub open spec fn missing_field_error(field: Seq<char>) -> MerErrorView {
    MerErrorView::Validation("Required config field is missing: "@ + field)
}

/// The outcome `res` is success when `e` is `None` and the error `e` otherwise.
pub open spec fn outcome_is(res: Result<(), MerError>, e: Option<MerErrorView>) -> bool {
    match e {
        None => res is Ok,
        Some(v) => res matches Err(x) && x@ == v,
    }
}

/// Whether a URL names an HTTP or HTTPS endpoint.
pub open spec fn http_scheme(url: Seq<char>) -> bool {
    "http://"@.is_prefix_of(url) || "https://"@.is_prefix_of(url)
}

/// What is wrong with the target of a configuration, if anything.
pub open spec fn target_problem(c: Config) -> Option<MerErrorView> {
    match c.protocol {
        Protocol::Mqtt => if field_missing(c.target.broker) {
            Some(missing_field_error("target.broker"@))
        } else if field_missing(c.target.topic) {
            Some(missing_field_error("target.topic"@))
        } else if c.target.qos matches Some(q) && q > 2 {
            Some(MerErrorView::Validation("target.qos must be 0, 1, or 2"@))
        } else {
            None
        },
        Protocol::Http => if field_missing(c.target.url) {
            Some(missing_field_error("target.url"@))
        } else if !http_scheme(c.target.url->0@) {
            Some(
                MerErrorView::Validation(
                    "target.url must start with http:// or https://, got: "@ + c.target.url->0@,
                ),
            )
        } else {
            None
        },
        Protocol::Tcp => if field_missing(c.target.host) {
            Some(missing_field_error("target.host"@))
        } else if c.target.port is None {
            Some(missing_field_error("target.port"@))
        } else {
            None
        },
    }
}

/// What is wrong with the device section, if anything.
pub open spec fn device_problem(c: Config) -> Option<MerErrorView> {
    if c.device.count == 0 {
        Some(MerErrorView::Validation("device.count must be at least 1"@))
    } else {
        None
    }
}

/// What is wrong with the payload section, given whether the configured template file exists.
pub open spec fn payload_problem(c: Config, template_file_exists: bool) -> Option<MerErrorView> {
    if c.payload.mode == PayloadMode::Template {
        if c.payload.template_file is None && c.payload.template_inline is None {
            Some(
                MerErrorView::Validation(
                    "payload.mode is 'template' but neither payload.template_file nor payload.template_inline is set"@,
                ),
            )
        } else if c.payload.template_file is Some && !template_file_exists {
            Some(
                MerErrorView::Validation(
                    "payload.template_file '"@ + c.payload.template_file->0@ + "' does not exist"@,
                ),
            )
        } else {
            None
        }
    } else {
        None
    }
}

/// What is wrong with the run section, if anything.
pub open spec fn run_problem(c: Config) -> Option<MerErrorView> {
    if c.run.total_messages == 0 {
        Some(MerErrorView::Validation("run.total_messages must be at least 1"@))
    } else {
        None
    }
}

/// The error for a credential field that must not be empty.
pub open spec fn empty_field_error(field: Seq<char>) -> MerErrorView {
    MerErrorView::Validation(field + " must not be empty"@)
}

/// What is wrong with the credentials, if anything.
pub open spec fn auth_problem(c: Config) -> Option<MerErrorView> {
    let root = match c.auth {
        Some(AuthConfig::UsernamePassword { username, password }) => if username@.len() == 0 {
            Some(empty_field_error("auth.username"@))
        } else if password@.len() == 0 {
            Some(empty_field_error("auth.password"@))
        } else {
            None
        },
        Some(AuthConfig::Bearer { token }) => if token@.len() == 0 {
            Some(empty_field_error("auth.token"@))
        } else {
            None
        },
        Some(AuthConfig::ApiKey { header, value }) => if header@.len() == 0 {
            Some(empty_field_error("auth.header"@))
        } else if value@.len() == 0 {
            Some(empty_field_error("auth.value"@))
        } else {
            None
        },
        None => None,
    };
    if root is Some {
        root
    } else if c.protocol == Protocol::Mqtt && c.target.auth is Some {
        let a = c.target.auth->0;
        if a.username@.len() == 0 {
            Some(empty_field_error("target.auth.username"@))
        } else if a.password@.len() == 0 {
            Some(empty_field_error("target.auth.password"@))
        } else {
            None
        }
    } else {
        None
    }
}

/// The first problem of a configuration, checking target, device, payload, run and
/// credentials in that order; `None` when the configuration is valid.
pub open spec fn config_problem(c: Config, template_file_exists: bool) -> Option<MerErrorView> {
    if target_problem(c) is Some {
        target_problem(c)
    } else if device_problem(c) is Some {
        device_problem(c)
    } else if payload_problem(c, template_file_exists) is Some {
        payload_problem(c, template_file_exists)
    } else if run_problem(c) is Some {
        run_problem(c)
    } else {
        auth_problem(c)
    }
}

/// Whether `exists` is an answer `std::path::Path::exists` may give for `path`.
/// Which one it gives depends on the file system at the time of the call.
pub uninterp spec fn exists_answer(path: Seq<char>, exists: bool) -> bool;

/// Whether a file exists at `path` (`std::path::Path::exists`). The contract ties
/// the answer to the path asked about and states nothing more of it: it depends
/// on the file system at the time of the call.
#[verifier::external_body]
fn path_exists(path: &str) -> (res: bool)
    ensures
        exists_answer(path@, res),
{
    std::path::Path::new(path).exists()
}

/// Checks a configuration. The only part of the answer that depends on the file
/// system is whether a configured template file exists; that is asked of the
/// configured path, and the outcome is the one `config_problem` gives for the
/// answer.
pub fn validate_config(config: &Config) -> (res: Result<(), MerError>)
    ensures
        config.payload.mode == PayloadMode::Template ==> (config.payload.template_file matches Some(
            f,
        ) ==> exists|b: bool|
            #[trigger] exists_answer(f@, b) && outcome_is(res, config_problem(*config, b))),
        !(config.payload.mode == PayloadMode::Template && config.payload.template_file is Some)
            ==> outcome_is(res, config_problem(*config, true)),
{
    match &config.payload.template_file {
        Some(file) => if config.payload.mode == PayloadMode::Template {
            let exists = path_exists(file.as_str());
            let res = validate_config_with(config, exists);
            assert(exists_answer(file@, exists) && outcome_is(res, config_problem(*config, exists)));
            res
        } else {
            validate_config_with(config, true)
        },
        None => validate_config_with(config, true),
    }
}

/// Checks a configuration, given whether its template file (if any) exists.
pub fn validate_config_with(config: &Config, template_file_exists: bool) -> (res: Result<(), MerError>)
    ensures
        outcome_is(res, config_problem(*config, template_file_exists)),
{
    validate_target(config)?;
    validate_device(config)?;
    validate_payload(config, template_file_exists)?;
    validate_run(config)?;
    validate_auth(config)?;
    Ok(())
}

/// Fails when a required field is absent or empty.
fn require_field(value: &Option<String>, field: &str) -> (res: Result<(), MerError>)
    ensures
        outcome_is(
            res,
            if field_missing(*value) {
                Some(missing_field_error(field@))
            } else {
                None
            },
        ),
{
    match value {
        Some(v) => if v.as_str().is_empty() {
            Err(MerError::Validation(concat2("Required config field is missing: ", field)))
        } else {
            Ok(())
        },
        None => Err(MerError::Validation(concat2("Required config field is missing: ", field))),
    }
}

fn validate_target(config: &Config) -> (res: Result<(), MerError>)
    ensures
        outcome_is(res, target_problem(*config)),
{
    match config.protocol {
        Protocol::Mqtt => {
            require_field(&config.target.broker, "target.broker")?;
            require_field(&config.target.topic, "target.topic")?;
            if let Some(qos) = config.target.qos {
                if qos > 2 {
                    return Err(MerError::Validation(owned("target.qos must be 0, 1, or 2")));
                }
            }
        },
        Protocol::Http => {
            require_field(&config.target.url, "target.url")?;
            match &config.target.url {
                Some(url) => {
                    if !starts_with(url.as_str(), "http://") && !starts_with(
                        url.as_str(),
                        "https://",
                    ) {
                        return Err(
                            MerError::Validation(
                                concat2(
                                    "target.url must start with http:// or https://, got: ",
                                    url.as_str(),
                                ),
                            ),
                        );
                    }
                },
                None => {},
            }
        },
        Protocol::Tcp => {
            require_field(&config.target.host, "target.host")?;
            if config.target.port.is_none() {
                return Err(
                    MerError::Validation(
                        concat2("Required config field is missing: ", "target.port"),
                    ),
                );
            }
        },
    }
    Ok(())
}

fn validate_device(config: &Config) -> (res: Result<(), MerError>)
    ensures
        outcome_is(res, device_problem(*config)),
{
    if config.device.count == 0 {
        return Err(MerError::Validation(owned("device.count must be at least 1")));
    }
    Ok(())
}

fn validate_payload(config: &Config, template_file_exists: bool) -> (res: Result<(), MerError>)
    ensures
        outcome_is(res, payload_problem(*config, template_file_exists)),
{
    if config.payload.mode == PayloadMode::Template {
        if config.payload.template_file.is_none() && config.payload.template_inline.is_none() {
            return Err(
                MerError::Validation(
                    owned(
                        "payload.mode is 'template' but neither payload.template_file nor payload.template_inline is set",
                    ),
                ),
            );
        }
        if let Some(file) = &config.payload.template_file {
            if !template_file_exists {
                return Err(
                    MerError::Validation(
                        concat3("payload.template_file '", file.as_str(), "' does not exist"),
                    ),
                );
            }
        }
    }
    Ok(())
}

fn validate_run(config: &Config) -> (res: Result<(), MerError>)
    ensures
        outcome_is(res, run_problem(*config)),
{
    if config.run.total_messages == 0 {
        return Err(MerError::Validation(owned("run.total_messages must be at least 1")));
    }
    Ok(())
}

/// Fails when a credential field is empty.
fn require_non_empty(value: &String, field: &str) -> (res: Result<(), MerError>)
    ensures
        outcome_is(
            res,
            if value@.len() == 0 {
                Some(empty_field_error(field@))
            } else {
                None
            },
        ),
{
    if value.as_str().is_empty() {
        Err(MerError::Validation(concat2(field, " must not be empty")))
    } else {
        Ok(())
    }
}

fn validate_auth(config: &Config) -> (res: Result<(), MerError>)
    ensures
        outcome_is(res, auth_problem(*config)),
{
    if let Some(auth) = &config.auth {
        match auth {
            AuthConfig::UsernamePassword { username, password } => {
                require_non_empty(username, "auth.username")?;
                require_non_empty(password, "auth.password")?;
            },
            AuthConfig::Bearer { token } => {
                require_non_empty(token, "auth.token")?;
            },
            AuthConfig::ApiKey { header, value } => {
                require_non_empty(header, "auth.header")?;
                require_non_empty(value, "auth.value")?;
            },
        }
    }
    if config.protocol == Protocol::Mqtt {
        if let Some(auth) = &config.target.auth {
            require_non_empty(&auth.username, "target.auth.username")?;
            require_non_empty(&auth.password, "target.auth.password")?;
        }
    }
    Ok(())
}

/// A configuration that passes validation asks for at least one device and at least
/// one message, so a run can be started on it (`RunState::begin`) and its device
/// pool always has a device to hand out (`DevicePool::next`).
pub proof fn valid_config_is_runnable(c: Config, template_file_exists: bool)
    requires
        config_problem(c, template_file_exists) is None,
    ensures
        c.device.count > 0,
        c.run.total_messages > 0,
{
}

/// A configuration that passes validation names what its protocol needs: TCP a
/// host and a port (so `TcpSender::from_config` succeeds), HTTP an `http://` or
/// `https://` URL (so `HttpSettings::from_config` succeeds), MQTT a non-empty
/// broker and topic and a QoS level that `MqttSettings::from_config` accepts.
pub proof fn valid_config_names_its_target(c: Config, template_file_exists: bool)
    requires
        config_problem(c, template_file_exists) is None,
    ensures
        c.protocol == Protocol::Tcp ==> c.target.host is Some && c.target.port is Some,
        c.protocol == Protocol::Http ==> c.target.url is Some && http_scheme(c.target.url->0@),
        c.protocol == Protocol::Mqtt ==> {
            &&& c.target.broker is Some
            &&& c.target.topic is Some
            &&& c.target.broker->0@.len() > 0
            &&& c.target.topic->0@.len() > 0
            &&& crate::protocols::mqtt::qos_of(c.target.qos.unwrap_or(0)) is Some
        },
{
}

/// MQTT target law: an MQTT target passes its check exactly when it names a
/// non-empty broker and a non-empty topic and its QoS level, if given, is 0, 1 or
/// 2; with broker and topic given, a level above 2 is refused with the QoS error.
pub proof fn mqtt_target_accepted_exactly_for_levels_up_to_two(c: Config)
    requires
        c.protocol == Protocol::Mqtt,
    ensures
        target_problem(c) is None <==> {
            &&& c.target.broker matches Some(b) && b@.len() > 0
            &&& c.target.topic matches Some(t) && t@.len() > 0
            &&& c.target.qos matches Some(q) ==> q <= 2
        },
        (c.target.broker matches Some(b) && b@.len() > 0) && (c.target.topic matches Some(t)
            && t@.len() > 0) && (c.target.qos matches Some(q) && q >= 3) ==> target_problem(c)
            == Some(MerErrorView::Validation("target.qos must be 0, 1, or 2"@)),
{
}

} // verus!
