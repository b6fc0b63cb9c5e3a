//! Platform-specific exporter logic.
pub mod other;
