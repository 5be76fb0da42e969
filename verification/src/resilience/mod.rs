//! Resilience: circuit breaking and retry decisions.
pub mod circuit_breaker;
pub mod retry_policies;
