//! The decisions of a run, one message at a time.
pub mod runner;
