//! A library for generating IoT test data: configuration checking, device
//! naming, simulated clocks, payload templates, per-transport settings, and the
//! decisions of a sending run, each stated by a contract and proved.
pub mod auth;
pub mod cli;
pub mod config;
pub mod device;
pub mod engine;
pub mod error;
pub mod payload;
pub mod protocols;
pub mod report;
pub mod text;
