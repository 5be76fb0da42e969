//! Configuration: application settings, tenants, start-up configuration,
//! per-tenant documents, caches and background work.
pub mod app_settings;
pub mod background_workers;
pub mod concurrent_maps;
pub mod config_manager;
pub mod in_memory_cache;
pub mod startup_config;
pub mod tenant;
pub mod tenant_json;

pub use app_settings::{AppConfig, AppSettings, FeatureFlags, LoggingConfig, ServerConfig};
pub use in_memory_cache::{CacheSystem, MetricsCounters, PskVerificationCache, TenantConfigCache};
pub use startup_config::StartupConfig;
pub use tenant::{TenantConfig, TenantFeatures};
pub use tenant_json::{Credential, MetricsSnapshot, TenantJsonConfig, TenantSettings};

use vstd::prelude::*;

verus! {

/// The application settings.
pub type Config = AppSettings;

/// A tenant's configuration.
pub type Tenant = TenantConfig;

} // verus!
