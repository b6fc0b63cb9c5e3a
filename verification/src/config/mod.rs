//! The first configuration layout: agent and server sections only.
pub mod config;
