//! What an MQTT transport needs: broker address, topic, client id, credentials,
//! quality of service.
use vstd::prelude::*;

use crate::config::model::{AuthConfig, Config};
use crate::error::{MerError, MerErrorView};
use crate::text::{
    chars_of, concat2, decimal, decimal_string, owned, parse_u16, parsed_u16, replace_all,
    replace_from, starts_with, string_from_chars,
};

verus! {

/// MQTT delivery guarantee.
#[derive(Debug, Clone, Copy, PartialEq, Eq, Structural)]
pub enum QosLevel {
    AtMostOnce,
    AtLeastOnce,
    ExactlyOnce,
}

/// The delivery guarantee a configured level names, if it is 0, 1 or 2.
pub open spec fn qos_of(level: u8) -> Option<QosLevel> {
    if level == 0 {
        Some(QosLevel::AtMostOnce)
    } else if level == 1 {
        Some(QosLevel::AtLeastOnce)
    } else if level == 2 {
        Some(QosLevel::ExactlyOnce)
    } else {
        None
    }
}

/// A broker URI without its `mqtt://` or `mqtts://` scheme.
pub open spec fn without_scheme(b: Seq<char>) -> Seq<char> {
    if "mqtt://"@.is_prefix_of(b) {
        b.skip("mqtt://"@.len() as int)
    } else if "mqtts://"@.is_prefix_of(b) {
        b.skip("mqtts://"@.len() as int)
    } else {
        b
    }
}

/// Whether a broker URI asks for a TLS connection: it starts with `mqtts://`.
pub open spec fn uses_tls(b: Seq<char>) -> bool {
    "mqtts://"@.is_prefix_of(b)
}

/// The position of the last `c` among the first `k` characters of `s`.
pub open spec fn last_index_of(s: Seq<char>, c: char, k: int) -> Option<int>
    decreases k,
{
    if k <= 0 {
        None
    } else if s[k - 1] == c {
        Some(k - 1)
    } else {
        last_index_of(s, c, k - 1)
    }
}

/// The host and port a broker URI names: after the scheme, the text before the
/// last `:` is the host and the text after it the port; without a `:` the whole
/// text is the host and the port is 1883.
pub open spec fn broker_address(b: Seq<char>) -> Result<(Seq<char>, u16), MerErrorView> {
    let r = without_scheme(b);
    match last_index_of(r, ':', r.len() as int) {
        Some(k) => match parsed_u16(r.skip(k + 1)) {
            Some(p) => Ok((r.take(k), p)),
            None => Err(MerErrorView::Config("Invalid MQTT broker port in URI: "@ + b)),
        },
        None => Ok((r, 1883)),
    }
}

/// Splits a broker URI into host and port.
pub fn parse_broker(broker: &str) -> (res: Result<(String, u16), MerError>)
    ensures
        match broker_address(broker@) {
            Ok((h, p)) => res matches Ok((host, port)) && host@ == h && port == p,
            Err(e) => res matches Err(x) && x@ == e,
        },
{
    let all = chars_of(broker);
    let skip: usize = if starts_with(broker, "mqtt://") {
        7
    } else if starts_with(broker, "mqtts://") {
        8
    } else {
        0
    };
    proof {
        reveal_strlit("mqtt://");
        reveal_strlit("mqtts://");
    }
    let ghost r = without_scheme(broker@);
    let n = all.len();
    let mut rest: Vec<char> = Vec::new();
    let mut i = skip;
    while i < n
        invariant
            skip <= i <= n,
            n == all@.len(),
            all@ == broker@,
            r == broker@.skip(skip as int),
            rest@ == all@.subrange(skip as int, i as int),
        decreases n - i,
    {
        rest.push(all[i]);
        i = i + 1;
        assert(rest@ =~= all@.subrange(skip as int, i as int));
    }
    assert(rest@ =~= r);
    let m = rest.len();
    let mut k = m;
    while k > 0 && rest[k - 1] != ':'
        invariant
            k <= m,
            m == rest@.len(),
            last_index_of(rest@, ':', m as int) == last_index_of(rest@, ':', k as int),
        decreases k,
    {
        k = k - 1;
    }
    if k == 0 {
        return Ok((string_from_chars(rest.as_slice()), 1883));
    }
    let colon = k - 1;
    let mut host: Vec<char> = Vec::new();
    let mut port_text: Vec<char> = Vec::new();
    for j in 0..colon
        invariant
            colon < m,
            m == rest@.len(),
            host@ == rest@.take(j as int),
    {
        host.push(rest[j]);
        assert(rest@.take(j + 1) == rest@.take(j as int).push(rest@[j as int]));
    }
    let mut j = colon + 1;
    while j < m
        invariant
            colon < j <= m,
            m == rest@.len(),
            port_text@ == rest@.subrange(colon + 1, j as int),
        decreases m - j,
    {
        port_text.push(rest[j]);
        j = j + 1;
        assert(port_text@ =~= rest@.subrange(colon + 1, j as int));
    }
    assert(port_text@ =~= rest@.skip(colon + 1));
    let port_string = string_from_chars(port_text.as_slice());
    match parse_u16(port_string.as_str()) {
        Some(p) => Ok((string_from_chars(host.as_slice()), p)),
        None => Err(MerError::Config(concat2("Invalid MQTT broker port in URI: ", broker))),
    }
}

/// The topic a message of `device_id` is published to: the template with every
/// `{device_id}` replaced.
pub fn resolve_topic(template: &str, device_id: &str) -> (res: String)
    ensures
        res@ == replace_from(template@, "{device_id}"@, device_id@, 0),
{
    proof {
        reveal_strlit("{device_id}");
    }
    replace_all(template, "{device_id}", device_id)
}

/// Whether `u` is a text `uuid::Uuid::new_v4().to_string()` may give: a random
/// version 4 UUID, hyphenated. Which one it gives is chance.
pub uninterp spec fn uuid_v4_drawn(u: Seq<char>) -> bool;

/// A fresh random UUID (`uuid::Uuid::new_v4`, hyphenated): 36 characters. The
/// contract says that the text was drawn so; which one is left unsaid, as it
/// rests on chance.
#[verifier::external_body]
fn random_uuid() -> (res: String)
    ensures
        res@.len() == 36,
        uuid_v4_drawn(res@),
{
    uuid::Uuid::new_v4().to_string()
}

/// The broker credentials of a configuration: root credentials must be a username
/// and password; without them, those given under the target are used.
pub open spec fn mqtt_credentials(c: Config) -> Result<Option<(Seq<char>, Seq<char>)>, MerErrorView> {
    match c.auth {
        Some(AuthConfig::UsernamePassword { username, password }) => Ok(Some((username@, password@))),
        Some(_) => Err(MerErrorView::Config("MQTT only supports username/password auth"@)),
        None => match c.target.auth {
            Some(a) => Ok(Some((a.username@, a.password@))),
            None => Ok(None),
        },
    }
}

/// Everything needed to connect to a broker and publish.
#[derive(Debug, Clone)]
pub struct MqttSettings {
    pub host: String,
    pub port: u16,
    pub client_id: String,
    pub topic_template: String,
    pub credentials: Option<(String, String)>,
    /// Whether to connect over TLS.
    pub tls: bool,
    pub qos: QosLevel,
    pub retain: bool,
    /// Seconds between keep-alive pings.
    pub keep_alive_secs: u64,
    /// Capacity of the client's request queue.
    pub queue_capacity: usize,
}

/// The client id made from a drawn UUID: `mer-` followed by it.
pub fn client_id_from(uuid: &str) -> (res: String)
    ensures
        res@ == "mer-"@ + uuid@,
{
    concat2("mer-", uuid)
}

impl MqttSettings {
    /// The MQTT settings of a configuration. Broker and topic are required; a
    /// `mqtts://` broker is reached over TLS; the client id is `mer-` and a random
    /// UUID unless configured; QoS is 0 and retain off unless configured.
    pub fn from_config(config: &Config) -> (res: Result<Self, MerError>)
        ensures
            match (config.target.broker, config.target.topic) {
                (None, _) => res matches Err(e) && e@ == MerErrorView::Config(
                    "target.broker is required for MQTT"@,
                ),
                (Some(_), None) => res matches Err(e) && e@ == MerErrorView::Config(
                    "target.topic is required for MQTT"@,
                ),
                (Some(b), Some(t)) => match broker_address(b@) {
                    Err(be) => res matches Err(e) && e@ == be,
                    Ok((h, p)) => match mqtt_credentials(*config) {
                        Err(ce) => res matches Err(e) && e@ == ce,
                        Ok(cred) => match qos_of(config.target.qos.unwrap_or(0)) {
                            None => res matches Err(e) && e@ == MerErrorView::Config(
                                "Invalid MQTT QoS value: "@ + decimal(
                                    config.target.qos.unwrap_or(0) as nat,
                                ),
                            ),
                            Some(q) => res matches Ok(s) && s.host@ == h && s.port == p
                                && s.tls == uses_tls(b@) && s.topic_template@ == t@ && s.qos == q
                                && s.retain == config.target.retain.unwrap_or(false)
                                && s.keep_alive_secs == 30 && s.queue_capacity == 100
                                && (match config.target.client_id {
                                Some(id) => s.client_id@ == id@,
                                None => exists|u: Seq<char>|
                                    #[trigger] uuid_v4_drawn(u) && u.len() == 36 && s.client_id@
                                        == "mer-"@ + u,
                            }) && (match cred {
                                Some((u, pw)) => s.credentials matches Some((su, sp)) && su@ == u
                                    && sp@ == pw,
                                None => s.credentials is None,
                            }),
                        },
                    },
                },
            },
    {
        let broker = match &config.target.broker {
            Some(b) => b,
            None => return Err(MerError::Config(owned("target.broker is required for MQTT"))),
        };
        let topic_template = match &config.target.topic {
            Some(t) => owned(t.as_str()),
            None => return Err(MerError::Config(owned("target.topic is required for MQTT"))),
        };
        let (host, port) = parse_broker(broker.as_str())?;
        let tls = starts_with(broker.as_str(), "mqtts://");
        let client_id = match &config.target.client_id {
            Some(id) => owned(id.as_str()),
            None => {
                let id = random_uuid();
                let full = client_id_from(id.as_str());
                assert(uuid_v4_drawn(id@) && id@.len() == 36 && full@ == "mer-"@ + id@);
                full
            },
        };
        let credentials = match &config.auth {
            Some(AuthConfig::UsernamePassword { username, password }) => Some(
                (owned(username.as_str()), owned(password.as_str())),
            ),
            Some(_) => {
                return Err(MerError::Config(owned("MQTT only supports username/password auth")));
            },
            None => match &config.target.auth {
                Some(a) => Some((owned(a.username.as_str()), owned(a.password.as_str()))),
                None => None,
            },
        };
        let level = config.target.qos.unwrap_or(0);
        let qos = if level == 0 {
            QosLevel::AtMostOnce
        } else if level == 1 {
            QosLevel::AtLeastOnce
        } else if level == 2 {
            QosLevel::ExactlyOnce
        } else {
            let text = decimal_string(level as usize);
            return Err(MerError::Config(concat2("Invalid MQTT QoS value: ", text.as_str())));
        };
        Ok(
            MqttSettings {
                host,
                port,
                client_id,
                topic_template,
                credentials,
                tls,
                qos,
                retain: config.target.retain.unwrap_or(false),
                keep_alive_secs: 30,
                queue_capacity: 100,
            },
        )
    }
}

/// The number the MQTT protocol gives a delivery guarantee: 0 for at most once,
/// 1 for at least once, 2 for exactly once.
pub open spec fn mqtt_qos_number(q: QosLevel) -> nat {
    match q {
        QosLevel::AtMostOnce => 0,
        QosLevel::AtLeastOnce => 1,
        QosLevel::ExactlyOnce => 2,
    }
}

/// QoS law: a configured level from 0 to 2 stands for the delivery guarantee the
/// MQTT protocol numbers so, and every higher level stands for none; two levels
/// never stand for the same guarantee.
pub proof fn qos_levels_follow_mqtt_numbering(n: u8, m: u8)
    ensures
        n <= 2 ==> (qos_of(n) matches Some(q) && mqtt_qos_number(q) == n),
        n > 2 ==> qos_of(n) is None,
        qos_of(n) is Some && qos_of(n) == qos_of(m) ==> n == m,
{
}

} // verus!
