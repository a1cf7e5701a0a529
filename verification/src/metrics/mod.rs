//! Metrics of the engine, and how they are written out for Prometheus.

pub mod common;
pub mod formatters;
pub mod prometheus;
