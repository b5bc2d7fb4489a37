//! Counting what a run sent.
pub mod metrics;
