//! The admin REST API: its data, errors, API keys and self-description.
pub mod auth;
pub mod cache;
pub mod config;
pub mod error;
pub mod info;
pub mod listing;
pub mod models;
pub mod settings;
pub mod store;
pub mod tenants;
