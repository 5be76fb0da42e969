use fastdatabroker::config::app_settings::AppSettings;
use fastdatabroker::config::background_workers::backup_delay_secs;
use fastdatabroker::config::config_manager::worker_threads_label;
use fastdatabroker::config::in_memory_cache::{MetricsCounters, PskVerificationCache, TenantConfigCache};
use fastdatabroker::config::tenant::TenantConfig;
use fastdatabroker::config::tenant_json::{Credential, MetricsSnapshot, TenantJsonConfig};

#[test]
fn test_default_settings() {
    let settings = AppSettings::default();
    assert_eq!(settings.app.name, "FastDataBroker");
    assert_eq!(settings.server.port, 6379);
    assert!(settings.features.multi_tenancy);
}

#[test]
fn test_validate_empty_name() {
    let mut settings = AppSettings::default();
    settings.app.name = String::new();
    assert!(settings.validate().is_err());
}

#[test]
fn test_add_tenant() {
    let mut settings = AppSettings::default();
    let tenant = TenantConfig::new("tenant1", "Tenant One", "sk_prod_t1_");

    assert!(settings.add_tenant(tenant).is_ok());
    assert_eq!(settings.tenants.len(), 1);
    assert_eq!(settings.active_tenant_count(), 1);
}

#[test]
fn test_get_tenant() {
    let mut settings = AppSettings::default();
    let tenant = TenantConfig::new("tenant1", "Tenant One", "sk_prod_t1_");
    settings.add_tenant(tenant).unwrap();

    let found = settings.get_tenant("tenant1");
    assert!(found.is_some());
    assert_eq!(found.unwrap().tenant_name, "Tenant One");
}

#[test]
fn test_get_tenant_by_prefix() {
    let mut settings = AppSettings::default();
    let tenant = TenantConfig::new("tenant1", "Tenant One", "sk_prod_t1_");
    settings.add_tenant(tenant).unwrap();

    let found = settings.get_tenant_by_prefix("sk_prod_t1_abc123");
    assert!(found.is_some());
}

#[test]
fn test_remove_tenant() {
    let mut settings = AppSettings::default();
    let tenant = TenantConfig::new("tenant1", "Tenant One", "sk_prod_t1_");
    settings.add_tenant(tenant).unwrap();

    assert!(settings.remove_tenant("tenant1"));
    assert_eq!(settings.tenants.len(), 0);
}

#[test]
fn duplicate_tenant_is_refused() {
    let mut settings = AppSettings::default();
    settings.add_tenant(TenantConfig::new("tenant1", "Tenant One", "sk_prod_t1_")).unwrap();
    assert!(settings.add_tenant(TenantConfig::new("tenant1", "Again", "sk_prod_t2_")).is_err());
    assert!(!settings.remove_tenant("nobody"));
    assert!(settings.get_tenant_by_prefix("sk_test_zz").is_none());
}

#[test]
fn test_server_url() {
    let settings = AppSettings::default();
    assert_eq!(settings.server_url(), "quic://0.0.0.0:6379");
}

#[test]
fn test_server_url_with_tls() {
    let mut settings = AppSettings::default();
    settings.server.enable_tls = true;
    assert_eq!(settings.server_url(), "quics://0.0.0.0:6379");
}

#[test]
fn test_tenant_new() {
    let tenant = TenantConfig::new("acme", "ACME Corp", "sk_prod_acme_");
    assert_eq!(tenant.tenant_id, "acme");
    assert_eq!(tenant.tenant_name, "ACME Corp");
    assert_eq!(tenant.api_key_prefix, "sk_prod_acme_");
    assert!(tenant.enabled);
}

#[test]
fn test_tenant_validate_success() {
    let tenant = TenantConfig::new("acme", "ACME Corp", "sk_prod_acme_");
    assert!(tenant.validate().is_ok());
}

#[test]
fn test_tenant_validate_empty_id() {
    let mut tenant = TenantConfig::new("acme", "ACME Corp", "sk_prod_acme_");
    tenant.tenant_id = String::new();
    assert!(tenant.validate().is_err());
}

#[test]
fn test_tenant_validate_invalid_prefix() {
    let mut tenant = TenantConfig::new("acme", "ACME Corp", "sk_prod_acme_");
    tenant.api_key_prefix = "invalid".to_string();
    assert!(tenant.validate().is_err());
}

#[test]
fn test_feature_check() {
    let tenant = TenantConfig::new("acme", "ACME Corp", "sk_prod_acme_");
    assert!(tenant.is_feature_enabled("priority_queue"));
    assert!(tenant.is_feature_enabled("routing"));
    assert!(!tenant.is_feature_enabled("clustering"));
}

#[test]
fn test_metadata() {
    let mut tenant = TenantConfig::new("acme", "ACME Corp", "sk_prod_acme_");
    tenant.metadata.insert("department".to_string(), "engineering".to_string());
    assert_eq!(tenant.get_metadata("department"), Some(&"engineering".to_string()));
}

fn snapshot(i: u64) -> MetricsSnapshot {
    MetricsSnapshot {
        timestamp: format!("2026-04-12T10:00:{:02}", i % 60),
        messages_received: i,
        messages_sent: i,
        bytes_in: i * 1024,
        bytes_out: i * 1024,
        active_connections: 10,
        rate_limit_violations: 0,
        average_latency_ms_bits: 5.0f32.to_bits(),
        p99_latency_ms_bits: 20.0f32.to_bits(),
        errors: 0,
    }
}

#[test]
fn test_create_tenant_config() {
    let mut config = TenantJsonConfig::new("t_test".to_string(), "test-tenant".to_string());

    assert_eq!(config.tenant.id, "t_test");
    assert_eq!(config.tenant.name, "test-tenant");

    let cred = Credential {
        id: "c1".to_string(),
        username: "user1".to_string(),
        psk: "01234567890123456789012345678901".to_string(),
        password_hash: None,
        created_at: "2026-04-12T10:00:00+00:00".to_string(),
        last_rotated_at: None,
        enabled: true,
    };

    config.add_credential(cred.clone());
    assert_eq!(config.credentials.len(), 1);
    assert!(config.validate().is_ok());
}

#[test]
fn tenant_document_without_credentials_is_invalid() {
    let config = TenantJsonConfig::new("t_test".to_string(), "test-tenant".to_string());
    assert!(config.validate().is_err());
}

#[test]
fn test_example_config() {
    let config = TenantJsonConfig::example();
    assert_eq!(config.tenant.id, "t_acme");
    assert_eq!(config.credentials.len(), 2);
    assert!(config.validate().is_ok());
}

#[test]
fn test_metrics_sliding_window() {
    let mut config = TenantJsonConfig::example();

    // Add more than 1000 metrics snapshots
    for i in 0..1005u64 {
        config.add_metrics_snapshot(snapshot(i), 1000);
    }

    // Should only keep 1000 entries
    assert_eq!(config.metrics.len(), 1000);
    // The newest is last, the oldest kept is the sixth one added.
    assert_eq!(config.metrics[999].messages_received, 1004);
    assert_eq!(config.metrics[0].messages_received, 5);
}

#[test]
fn credentials_are_found_by_psk_and_username() {
    let config = TenantJsonConfig::example();
    let first = config.credentials[0].clone();
    assert_eq!(config.find_credential_by_psk(&first.psk).map(|c| c.id.clone()), Some(first.id.clone()));
    assert_eq!(config.find_credential_by_username(&first.username).map(|c| c.id.clone()), Some(first.id.clone()));
    assert!(config.find_credential_by_psk("no-such-psk").is_none());
}

#[test]
fn test_tenant_config_cache() {
    let mut cache = TenantConfigCache::new();

    let mut configs = Vec::new();
    let mut config = TenantJsonConfig::example();
    config.tenant.id = "t_test".to_string();
    configs.push(("t_test".to_string(), config));

    cache.load_all(configs);
    assert_eq!(cache.size(), 1);

    let retrieved = cache.get("t_test");
    assert!(retrieved.is_some());
}

#[test]
fn test_metrics_counters() {
    let mut metrics = MetricsCounters::new();

    metrics.record_message_received("t_test", 1024);
    metrics.record_message_sent("t_test", 2048);
    metrics.increment_active_connections("t_test");

    let snapshot = metrics.get_metrics("t_test").unwrap();
    assert_eq!(snapshot.messages_received, 1);
    assert_eq!(snapshot.messages_sent, 1);
    assert_eq!(snapshot.bytes_in, 1024);
    assert_eq!(snapshot.bytes_out, 2048);
    assert_eq!(snapshot.active_connections, 1);
}

#[test]
fn test_psk_cache() {
    let mut cache = PskVerificationCache::new(3600);

    cache.insert("test_psk_123".to_string(), "t_test".to_string());
    assert_eq!(cache.get("test_psk_123"), Some("t_test".to_string()));

    cache.remove("test_psk_123");
    assert_eq!(cache.get("test_psk_123"), None);
}

#[test]
fn backup_delay_examples() {
    // 01:00:00, backup at 02:00 -> one hour.
    assert_eq!(backup_delay_secs(3600, 2, 0), 3600);
    // 03:00:00, backup at 02:00 -> tomorrow, 23 hours.
    assert_eq!(backup_delay_secs(3 * 3600, 2, 0), 23 * 3600);
    // Not a time of day -> one hour.
    assert_eq!(backup_delay_secs(0, 24, 0), 3600);
}

#[test]
fn worker_threads_label_examples() {
    assert_eq!(worker_threads_label(0), "auto");
    assert_eq!(worker_threads_label(8), "8");
}

use fastdatabroker::config::background_workers::flush_metrics_into_cache;
use fastdatabroker::config::in_memory_cache::CacheSystem;

#[test]
fn metrics_flush_keeps_the_last_snapshots_per_tenant() {
    let mut caches = CacheSystem::new(60);
    caches.tenant_config.update("a".to_string(), TenantJsonConfig::new("a".to_string(), "A".to_string()));
    caches.tenant_config.update("b".to_string(), TenantJsonConfig::new("b".to_string(), "B".to_string()));
    let snapshots = vec![
        ("a".to_string(), snapshot(1)),
        ("x".to_string(), snapshot(2)),
        ("a".to_string(), snapshot(3)),
        ("a".to_string(), snapshot(4)),
    ];
    let files = flush_metrics_into_cache(&mut caches, snapshots, "/data/tenants", 2, "now".to_string());
    assert_eq!(
        files,
        vec![("a".to_string(), "/data/tenants/a.json".to_string()), ("a".to_string(), "/data/tenants/a.json".to_string()),
             ("a".to_string(), "/data/tenants/a.json".to_string())]
    );
    let a = caches.tenant_config.get("a").unwrap();
    let kept: Vec<u64> = a.metrics.iter().map(|m| m.messages_received).collect();
    assert_eq!(kept, vec![3, 4]);
    assert_eq!(a.tenant.updated_at, "now");
    let b = caches.tenant_config.get("b").unwrap();
    assert!(b.metrics.is_empty());
    assert_ne!(b.tenant.updated_at, "now");
}
