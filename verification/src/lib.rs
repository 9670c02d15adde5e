//! Verified core of a Prometheus exporter for Awair air-quality monitors.
pub mod collectors;
pub mod log_level;
pub mod metrics;
pub mod exposition;
pub mod config;
