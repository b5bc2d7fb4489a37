//! Simulated devices and the order in which they send.
pub mod context;
pub mod pool;
