//! What each transport needs to know, worked out from the configuration.
pub mod http;
pub mod mqtt;
pub mod sender;
pub mod tcp;
