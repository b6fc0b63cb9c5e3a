//! The later configuration layouts, with per-metric settings.
pub mod config_structs;
pub mod configs;
pub mod variables;
