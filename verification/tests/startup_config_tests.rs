use fastdatabroker::config::startup_config::{
    AdminApiConfig, ArchiveConfig, AuthenticationConfig, CacheConfig, CircuitBreakerConfig, ClusteringConfig,
    DeploymentConfig, FeaturesConfig, JsonStorageConfig, LogRotationConfig, LoggingSystemConfig, MetricsCacheConfig,
    MonitoringConfig, NdjsonLoggingConfig, PerformanceConfig, PskVerificationCacheConfig, RateLimitingConfig,
    ResilienceConfig, SecurityConfig, ServerConfig, SledConfig, StartupConfig, StorageConfig, TenantConfigCacheConfig,
    TlsConfig,
};

#[test]
fn test_config_validation() {
    let config = build_config();
    // Validation should succeed
    assert!(config.validate().is_ok());
}

fn build_config() -> StartupConfig {
    StartupConfig {
        server: ServerConfig {
            host: "0.0.0.0".to_string(),
            port: 6000,
            protocol: "QUIC".to_string(),
            tls_version: "1.3".to_string(),
            max_idle_timeout_ms: 30000,
            max_concurrent_streams: 1000,
            max_datagram_size: 1200,
        },
        storage: StorageConfig {
            mode: "hybrid".to_string(),
            sled: SledConfig {
                enabled: true,
                path: "/tmp/sled".to_string(),
                cache_capacity: 1073741824,
                compression: true,
                compression_factor: 5,
                use_compression: true,
                flush_every_ms: 500,
                snapshot_after_ops: 1000000,
            },
            json: JsonStorageConfig {
                enabled: true,
                tenants_path: "/tmp/tenants".to_string(),
                create_if_missing: true,
                backup_enabled: true,
                backup_path: "/tmp/backups".to_string(),
                backup_retention_days: 7,
                backup_schedule_utc_hour: 2,
                backup_schedule_utc_minute: 0,
            },
        },
        cache: CacheConfig {
            tenant_config: TenantConfigCacheConfig {
                enabled: true,
                max_size_mb: 50,
                reload_interval_seconds: 3600,
                hot_reload: true,
            },
            metrics: MetricsCacheConfig {
                enabled: true,
                max_entries_per_tenant: 1000,
                flush_interval_ms: 100,
                memory_limit_mb: 100,
            },
            psk_verification: PskVerificationCacheConfig {
                enabled: true,
                ttl_seconds: 86400,
                max_cached_entries: 10000,
                lru_mode: true,
            },
        },
        authentication: AuthenticationConfig {
            method: "PSK".to_string(),
            psk_hash_algorithm: "SHA256".to_string(),
            psk_rotation_enabled: true,
            psk_rotation_days: 90,
            require_tls: true,
            min_psk_length: 32,
        },
        rate_limiting: RateLimitingConfig {
            enabled: true,
            default_rps: 1000,
            burst_multiplier_bits: 1.5f32.to_bits(),
            window_size_ms: 1000,
            per_tenant_override: true,
        },
        logging: LoggingSystemConfig {
            ndjson: NdjsonLoggingConfig {
                enabled: true,
                path: "/tmp/logs/app.log".to_string(),
                buffer_size_mb: 10,
                flush_interval_ms: 50,
                sync_on_error: true,
            },
            rotation: LogRotationConfig {
                enabled: true,
                schedule_utc_hour: 0,
                schedule_utc_minute: 0,
                keep_live_files: 3,
            },
            archive: ArchiveConfig {
                enabled: true,
                format: "parquet".to_string(),
                compression: "snappy".to_string(),
                compression_level: 5,
                path: "/tmp/logs/archive".to_string(),
                schedule_utc_hour: 1,
                schedule_utc_minute: 0,
                retention_days: 30,
                cleanup_batch_size: 1000,
            },
            level: "info".to_string(),
            include_request_headers: false,
            include_request_body: false,
        },
        monitoring: MonitoringConfig {
            enabled: true,
            health_check_interval_ms: 5000,
            metrics_path: "/metrics".to_string(),
            prometheus_enabled: true,
            hot_reload_enabled: true,
        },
        resilience: ResilienceConfig {
            connection_timeout_ms: 10000,
            read_timeout_ms: 30000,
            write_timeout_ms: 30000,
            max_connections_per_tenant: 100,
            max_queue_size_per_tenant: 1000000,
            overflow_strategy: "DROP_OLDEST".to_string(),
            circuit_breaker: CircuitBreakerConfig {
                enabled: true,
                failure_threshold: 100,
                success_threshold: 50,
                timeout_ms: 60000,
            },
        },
        performance: PerformanceConfig {
            worker_threads: 0,
            worker_queue_size: 10000,
            batch_size: 100,
            enable_vectored_io: true,
            enable_tcp_nodelay: true,
            enable_zero_copy: true,
        },
        admin_api: AdminApiConfig {
            enabled: true,
            host: "127.0.0.1".to_string(),
            port: 3000,
            auth_required: true,
            auth_token: "changeme_in_production".to_string(),
            cors_enabled: false,
            cors_origins: vec![],
        },
        clustering: ClusteringConfig {
            enabled: false,
            node_id: "node-1".to_string(),
            cluster_name: "fastdatabroker-cluster".to_string(),
            peer_discovery: "static".to_string(),
            peers: vec![],
            gossip_interval_ms: 1000,
            sync_interval_ms: 5000,
        },
        security: SecurityConfig {
            tls: TlsConfig {
                cert_path: "/certs/server.crt".to_string(),
                key_path: "/certs/server.key".to_string(),
                ca_cert_path: None,
                verify_client_cert: false,
                session_resumption: true,
            },
            rate_limit_by_ip: false,
            ip_whitelist_enabled: false,
            ip_whitelist: vec![],
            ip_blacklist_enabled: false,
            ip_blacklist: vec![],
        },
        features: FeaturesConfig {
            priority_queue: true,
            message_compression: true,
            message_encryption: false,
            message_signing: false,
            dead_letter_queue: true,
            message_deduplication: true,
            ordered_delivery: true,
        },
        deployment: DeploymentConfig {
            environment: "production".to_string(),
            graceful_shutdown_timeout_ms: 30000,
            startup_init_timeout_ms: 60000,
            config_watch_enabled: true,
            config_watch_interval_ms: 5000,
        },
    }
}

#[test]
fn startup_config_rejects_each_problem() {
    let mut c = build_config();
    c.server.port = 0;
    assert_eq!(c.validate(), Err("Server port must be greater than 0".to_string()));
    let mut c = build_config();
    c.authentication.min_psk_length = 15;
    assert_eq!(c.validate(), Err("PSK minimum length should be at least 16 bytes".to_string()));
    let mut c = build_config();
    c.cache.metrics.flush_interval_ms = 0;
    assert_eq!(c.validate(), Err("Metrics flush interval must be greater than 0".to_string()));
}

#[test]
fn startup_config_bind_addr_and_features() {
    let c = build_config();
    assert_eq!(c.server_bind_addr(), "0.0.0.0:6000");
    assert!(c.is_feature_enabled("priority_queue"));
    assert!(!c.is_feature_enabled("message_encryption"));
    assert!(!c.is_feature_enabled("no_such_feature"));
}

use fastdatabroker::config::config_manager::config_report;

#[test]
fn config_report_lists_each_section() {
    let config = build_config();
    let report = config_report(&config, 3, "1.5");
    assert!(report.starts_with("\n╔"));
    assert!(report.contains("📊 SERVER CONFIGURATION\n  • Protocol: QUIC on 0.0.0.0:6000\n"));
    assert!(report.contains("  • Loaded Tenants: 3\n"));
    assert!(report.contains("  • Burst Multiplier: 1.5\n"));
    assert!(report.contains("  • Worker Threads: auto\n"));
    assert!(report.contains("🚀 DEPLOYMENT\n"));
    assert!(report.ends_with("╚═══════════════════════════════════════════════════════════════════════════╝\n"));
    let sections = ["SERVER", "STORAGE", "TENANT CACHE", "METRICS", "AUTHENTICATION", "RATE LIMITING", "LOGGING",
                    "RESILIENCE", "PERFORMANCE", "FEATURES ENABLED", "DEPLOYMENT"];
    let mut at = 0;
    for s in sections {
        let i = report[at..].find(s).expect(s) + at;
        at = i;
    }
}
