//! Logging: lock-free counters, a ring buffer of audit entries, and the
//! levels of the asynchronous logger.
pub mod async_logger;
pub mod atomic_logger;
pub mod ring_buffer;
