//! Verified core of a lightweight metrics exporter.
pub mod config;
pub mod configs;
pub mod metric_types;
pub mod metrics;
pub mod paths;
pub mod platforms;
pub mod text;
