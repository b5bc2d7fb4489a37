//! What a TCP transport needs: where to connect and how to frame a message.
use vstd::prelude::*;

use vstd::utf8::encode_utf8;

use crate::config::model::Config;
use crate::error::{MerError, MerErrorView};
use crate::text::{concat3, decimal, decimal_string, owned};

verus! {

/// The settings of a TCP transport.
#[derive(Debug, Clone)]
pub struct TcpSender {
    pub host: String,
    pub port: u16,
    /// Whether a newline follows each message.
    pub line_delimiter: bool,
    /// How long connecting may take, in seconds.
    pub timeout_secs: u64,
}

impl TcpSender {
    /// The TCP settings of a configuration: host and port are required; the
    /// timeout is 5 seconds and messages end with a newline unless configured.
    pub fn from_config(config: &Config) -> (res: Result<Self, MerError>)
        ensures
            res is Ok <==> (config.target.host is Some && config.target.port is Some),
            match (config.target.host, config.target.port) {
                (None, _) => res matches Err(e) && e@ == MerErrorView::Config(
                    "target.host is required for TCP"@,
                ),
                (Some(_), None) => res matches Err(e) && e@ == MerErrorView::Config(
                    "target.port is required for TCP"@,
                ),
                (Some(h), Some(p)) => res matches Ok(t) && t.host@ == h@ && t.port == p
                    && t.timeout_secs == config.target.timeout_secs.unwrap_or(5)
                    && t.line_delimiter == config.target.line_delimiter.unwrap_or(true),
            },
    {
        let host = match &config.target.host {
            Some(h) => owned(h.as_str()),
            None => return Err(MerError::Config(owned("target.host is required for TCP"))),
        };
        let port = match config.target.port {
            Some(p) => p,
            None => return Err(MerError::Config(owned("target.port is required for TCP"))),
        };
        Ok(
            TcpSender {
                host,
                port,
                line_delimiter: config.target.line_delimiter.unwrap_or(true),
                timeout_secs: config.target.timeout_secs.unwrap_or(5),
            },
        )
    }

    /// The `host:port` address to connect to.
    pub fn address(&self) -> (res: String)
        ensures
            res@ == self.host@ + ":"@ + decimal(self.port as nat),
    {
        let port = decimal_string(self.port as usize);
        concat3(self.host.as_str(), ":", port.as_str())
    }

    /// The bytes written for a payload: its UTF-8 bytes, then a newline when the
    /// transport delimits lines.
    pub fn frame(&self, payload: &str) -> (res: Vec<u8>)
        ensures
            res@ == (if self.line_delimiter {
                encode_utf8(payload@).push(10u8)
            } else {
                encode_utf8(payload@)
            }),
    {
        let bytes = payload.as_bytes();
        let mut data: Vec<u8> = Vec::new();
        let n = bytes.len();
        for i in 0..n
            invariant
                n == bytes@.len(),
                bytes@ == encode_utf8(payload@),
                data@ == bytes@.take(i as int),
        {
            data.push(bytes[i]);
            assert(bytes@.take(i + 1) == bytes@.take(i as int).push(bytes@[i as int]));
        }
        assert(bytes@.take(n as int) == bytes@);
        if self.line_delimiter {
            data.push(10u8);
        }
        data
    }
}

} // verus!
