//! The message handed to a transport and what the transport reports back.
use vstd::prelude::*;

verus! {

/// One message on its way out.
#[derive(Debug, Clone)]
pub struct OutboundMessage {
    pub topic_or_path: String,
    pub payload: String,
    pub device_id: String,
}

/// What a transport reports for one message.
#[derive(Debug, Clone)]
pub struct SendResult {
    pub success: bool,
    pub bytes_sent: usize,
    pub error: Option<String>,
}

} // verus!
