//! Administration: tenant logs, usage metrics and the admin endpoints.
pub mod logs;
pub mod handlers;
