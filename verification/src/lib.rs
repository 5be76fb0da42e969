//! Verified core of the FastDataBroker message broker.
pub mod admin;
pub mod admin_api;
pub mod auth;
pub mod batch_processor;
pub mod caching;
pub mod clock;
pub mod clustering;
pub mod config;
pub mod connection_pool;
pub mod distribution;
pub mod fields;
pub mod keyed;
pub mod logging;
pub mod models;
pub mod notifications;
pub mod object_pool;
pub mod observability;
pub mod priority_queue;
pub mod resilience;
pub mod sorting;
pub mod string_map;
pub mod text;
