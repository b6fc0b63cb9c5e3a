//! Exporter logic for operating systems with a full standard library.
pub mod collector;
pub mod methods;
