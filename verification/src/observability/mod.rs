//! Observability: trace contexts and span descriptions.
pub mod tracing;
