//! The complete system configuration read at start-up, its checks and
//! queries. Reading the file is left to the caller.
use vstd::prelude::*;
use crate::text::{owned, push_str, str_eq, u64_to_string, decimal};

verus! {

/// The complete system configuration.
#[derive(Debug, Clone)]
pub struct StartupConfig {
    pub server: ServerConfig,
    pub storage: StorageConfig,
    pub cache: CacheConfig,
    pub authentication: AuthenticationConfig,
    pub rate_limiting: RateLimitingConfig,
    pub logging: LoggingSystemConfig,
    pub monitoring: MonitoringConfig,
    pub resilience: ResilienceConfig,
    pub performance: PerformanceConfig,
    pub admin_api: AdminApiConfig,
    pub clustering: ClusteringConfig,
    pub security: SecurityConfig,
    pub features: FeaturesConfig,
    pub deployment: DeploymentConfig,
}

/// Where and how the server listens.
#[derive(Debug, Clone)]
pub struct ServerConfig {
    pub host: String,
    pub port: u16,
    pub protocol: String,
    pub tls_version: String,
    pub max_idle_timeout_ms: u32,
    pub max_concurrent_streams: u32,
    pub max_datagram_size: u32,
}

/// Storage mode and back ends.
#[derive(Debug, Clone)]
pub struct StorageConfig {
    pub mode: String,
    pub sled: SledConfig,
    pub json: JsonStorageConfig,
}

/// The embedded key-value store.
#[derive(Debug, Clone)]
pub struct SledConfig {
    pub enabled: bool,
    pub path: String,
    pub cache_capacity: u64,
    pub compression: bool,
    pub compression_factor: u32,
    pub use_compression: bool,
    pub flush_every_ms: u32,
    pub snapshot_after_ops: u64,
}

/// Tenant files on disk and their backups.
#[derive(Debug, Clone)]
pub struct JsonStorageConfig {
    pub enabled: bool,
    pub tenants_path: String,
    pub create_if_missing: bool,
    pub backup_enabled: bool,
    pub backup_path: String,
    pub backup_retention_days: u32,
    pub backup_schedule_utc_hour: u32,
    pub backup_schedule_utc_minute: u32,
}

/// The in-memory caches.
#[derive(Debug, Clone)]
pub struct CacheConfig {
    pub tenant_config: TenantConfigCacheConfig,
    pub metrics: MetricsCacheConfig,
    pub psk_verification: PskVerificationCacheConfig,
}

/// The tenant configuration cache.
#[derive(Debug, Clone)]
pub struct TenantConfigCacheConfig {
    pub enabled: bool,
    pub max_size_mb: u32,
    pub reload_interval_seconds: u32,
    pub hot_reload: bool,
}

/// The metrics cache.
#[derive(Debug, Clone)]
pub struct MetricsCacheConfig {
    pub enabled: bool,
    pub max_entries_per_tenant: u32,
    pub flush_interval_ms: u32,
    pub memory_limit_mb: u32,
}

/// The pre-shared key verification cache.
#[derive(Debug, Clone)]
pub struct PskVerificationCacheConfig {
    pub enabled: bool,
    pub ttl_seconds: u32,
    pub max_cached_entries: u32,
    pub lru_mode: bool,
}

/// How clients authenticate.
#[derive(Debug, Clone)]
pub struct AuthenticationConfig {
    pub method: String,
    pub psk_hash_algorithm: String,
    pub psk_rotation_enabled: bool,
    pub psk_rotation_days: u32,
    pub require_tls: bool,
    pub min_psk_length: u32,
}

/// Request rate limiting; the burst multiplier is kept as the bit pattern of its `f32` value.
#[derive(Debug, Clone)]
pub struct RateLimitingConfig {
    pub enabled: bool,
    pub default_rps: u32,
    pub burst_multiplier_bits: u32,
    pub window_size_ms: u32,
    pub per_tenant_override: bool,
}

/// Request logging, rotation and archiving.
#[derive(Debug, Clone)]
pub struct LoggingSystemConfig {
    pub ndjson: NdjsonLoggingConfig,
    pub rotation: LogRotationConfig,
    pub archive: ArchiveConfig,
    pub level: String,
    pub include_request_headers: bool,
    pub include_request_body: bool,
}

/// Newline-delimited JSON logs.
#[derive(Debug, Clone)]
pub struct NdjsonLoggingConfig {
    pub enabled: bool,
    pub path: String,
    pub buffer_size_mb: u32,
    pub flush_interval_ms: u32,
    pub sync_on_error: bool,
}

/// Daily log rotation.
#[derive(Debug, Clone)]
pub struct LogRotationConfig {
    pub enabled: bool,
    pub schedule_utc_hour: u32,
    pub schedule_utc_minute: u32,
    pub keep_live_files: u32,
}

/// Archiving of rotated logs.
#[derive(Debug, Clone)]
pub struct ArchiveConfig {
    pub enabled: bool,
    pub format: String,
    pub compression: String,
    pub compression_level: u32,
    pub path: String,
    pub schedule_utc_hour: u32,
    pub schedule_utc_minute: u32,
    pub retention_days: u32,
    pub cleanup_batch_size: u32,
}

/// Health checks and metrics export.
#[derive(Debug, Clone)]
pub struct MonitoringConfig {
    pub enabled: bool,
    pub health_check_interval_ms: u32,
    pub metrics_path: String,
    pub prometheus_enabled: bool,
    pub hot_reload_enabled: bool,
}

/// Timeouts, limits and overflow handling.
#[derive(Debug, Clone)]
pub struct ResilienceConfig {
    pub connection_timeout_ms: u32,
    pub read_timeout_ms: u32,
    pub write_timeout_ms: u32,
    pub max_connections_per_tenant: u32,
    pub max_queue_size_per_tenant: u64,
    pub overflow_strategy: String,
    pub circuit_breaker: CircuitBreakerConfig,
}

/// The circuit breaker.
#[derive(Debug, Clone)]
pub struct CircuitBreakerConfig {
    pub enabled: bool,
    pub failure_threshold: u32,
    pub success_threshold: u32,
    pub timeout_ms: u32,
}

/// Worker pool and I/O tuning.
#[derive(Debug, Clone)]
pub struct PerformanceConfig {
    pub worker_threads: u32,
    pub worker_queue_size: u32,
    pub batch_size: u32,
    pub enable_vectored_io: bool,
    pub enable_tcp_nodelay: bool,
    pub enable_zero_copy: bool,
}

/// The admin API server.
#[derive(Debug, Clone)]
pub struct AdminApiConfig {
    pub enabled: bool,
    pub host: String,
    pub port: u16,
    pub auth_required: bool,
    pub auth_token: String,
    pub cors_enabled: bool,
    pub cors_origins: Vec<String>,
}

/// Cluster membership.
#[derive(Debug, Clone)]
pub struct ClusteringConfig {
    pub enabled: bool,
    pub node_id: String,
    pub cluster_name: String,
    pub peer_discovery: String,
    pub peers: Vec<String>,
    pub gossip_interval_ms: u32,
    pub sync_interval_ms: u32,
}

/// TLS and IP filtering.
#[derive(Debug, Clone)]
pub struct SecurityConfig {
    pub tls: TlsConfig,
    pub rate_limit_by_ip: bool,
    pub ip_whitelist_enabled: bool,
    pub ip_whitelist: Vec<String>,
    pub ip_blacklist_enabled: bool,
    pub ip_blacklist: Vec<String>,
}

/// TLS certificates.
#[derive(Debug, Clone)]
pub struct TlsConfig {
    pub cert_path: String,
    pub key_path: String,
    pub ca_cert_path: Option<String>,
    pub verify_client_cert: bool,
    pub session_resumption: bool,
}

/// Optional broker features.
#[derive(Debug, Clone)]
pub struct FeaturesConfig {
    pub priority_queue: bool,
    pub message_compression: bool,
    pub message_encryption: bool,
    pub message_signing: bool,
    pub dead_letter_queue: bool,
    pub message_deduplication: bool,
    pub ordered_delivery: bool,
}

/// Deployment environment and timeouts.
#[derive(Debug, Clone)]
pub struct DeploymentConfig {
    pub environment: String,
    pub graceful_shutdown_timeout_ms: u32,
    pub startup_init_timeout_ms: u32,
    pub config_watch_enabled: bool,
    pub config_watch_interval_ms: u32,
}

/// The first problem the configuration checks find, if any: a zero server
/// port, a minimum pre-shared key length below 16, a zero metrics flush
/// interval.
pub open spec fn startup_problem(c: StartupConfig) -> Option<Seq<char>> {
    if c.server.port == 0 {
        Some("Server port must be greater than 0"@)
    } else if c.authentication.min_psk_length < 16 {
        Some("PSK minimum length should be at least 16 bytes"@)
    } else if c.cache.metrics.flush_interval_ms == 0 {
        Some("Metrics flush interval must be greater than 0"@)
    } else {
        None
    }
}

/// The state of the named feature; unknown names are off.
pub open spec fn feature_state(f: FeaturesConfig, feature: Seq<char>) -> bool {
    if feature == "priority_queue"@ {
        f.priority_queue
    } else if feature == "message_compression"@ {
        f.message_compression
    } else if feature == "message_encryption"@ {
        f.message_encryption
    } else if feature == "message_signing"@ {
        f.message_signing
    } else if feature == "dead_letter_queue"@ {
        f.dead_letter_queue
    } else if feature == "message_deduplication"@ {
        f.message_deduplication
    } else if feature == "ordered_delivery"@ {
        f.ordered_delivery
    } else {
        false
    }
}

impl StartupConfig {
    /// Check the configuration's values (the directories it names are
    /// created by the caller).
    pub fn validate(&self) -> (r: Result<(), String>)
        ensures
            match startup_problem(*self) {
                Some(e) => r matches Err(m) && m@ == e,
                None => r is Ok,
            },
    {
        if self.server.port == 0 {
            return Err(owned("Server port must be greater than 0"));
        }
        if self.authentication.min_psk_length < 16 {
            return Err(owned("PSK minimum length should be at least 16 bytes"));
        }
        if self.cache.metrics.flush_interval_ms == 0 {
            return Err(owned("Metrics flush interval must be greater than 0"));
        }
        Ok(())
    }

    /// The server's bind address, `host:port`.
    pub fn server_bind_addr(&self) -> (r: String)
        ensures
            r@ == self.server.host@ + ":"@ + decimal(self.server.port as nat),
    {
        let mut s = self.server.host.clone();
        push_str(&mut s, ":");
        let p = u64_to_string(self.server.port as u64);
        push_str(&mut s, p.as_str());
        s
    }

    /// Whether the named feature is on.
    pub fn is_feature_enabled(&self, feature: &str) -> (r: bool)
        ensures
            r == feature_state(self.features, feature@),
    {
        if str_eq(feature, "priority_queue") {
            self.features.priority_queue
        } else if str_eq(feature, "message_compression") {
            self.features.message_compression
        } else if str_eq(feature, "message_encryption") {
            self.features.message_encryption
        } else if str_eq(feature, "message_signing") {
            self.features.message_signing
        } else if str_eq(feature, "dead_letter_queue") {
            self.features.dead_letter_queue
        } else if str_eq(feature, "message_deduplication") {
            self.features.message_deduplication
        } else if str_eq(feature, "ordered_delivery") {
            self.features.ordered_delivery
        } else {
            false
        }
    }
}

} // verus!
