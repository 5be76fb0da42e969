use fastdatabroker::admin_api::models::{SmtpConfig, UpdateSmtpConfigRequest};
use fastdatabroker::admin_api::settings::{merge_smtp_config, smtp_response};
use fastdatabroker::config::app_settings::environment_settings_path;
use fastdatabroker::config::tenant::{api_key_for, generate_api_key_for};
use fastdatabroker::string_map::StringMap;

#[test]
fn environment_file_next_to_base_file() {
    assert_eq!(environment_settings_path("appsettings.json", "production"), "settings.production.json");
    assert_eq!(environment_settings_path("conf/appsettings.json", "dev"), "conf/settings.dev.json");
    assert_eq!(environment_settings_path("other.json", "dev"), "other.jsonsettings.dev.json");
    assert_eq!(environment_settings_path("appsettings.jsonappsettings.json", "x"), "settings.x.json");
}

#[test]
fn api_key_format() {
    assert_eq!(
        api_key_for("acme", "123e4567-e89b-12d3-a456-426614174000"),
        "sk_prod_acme_123e4567e89b12d3a456426614174000"
    );
    let key = generate_api_key_for("acme");
    assert!(key.starts_with("sk_prod_acme_"));
    assert_eq!(key.len(), "sk_prod_acme_".len() + 32);
}

#[test]
fn string_map_pairs() {
    let mut m = StringMap::new();
    m.insert("a".to_string(), "1".to_string());
    m.insert("b".to_string(), "2".to_string());
    m.insert("a".to_string(), "3".to_string());
    let mut pairs = m.to_pairs();
    pairs.sort();
    assert_eq!(pairs, vec![("a".to_string(), "3".to_string()), ("b".to_string(), "2".to_string())]);
    assert_eq!(m.len(), 2);
}

#[test]
fn smtp_merge_defaults_and_stored_values() {
    let req = UpdateSmtpConfigRequest {
        host: Some("smtp.example.com".to_string()),
        port: None,
        username: None,
        password: None,
        from_email: Some("noreply@example.com".to_string()),
        use_tls: None,
    };
    let fresh = merge_smtp_config(None, &req, "id-1".to_string(), "t1".to_string());
    assert_eq!(fresh.id, "id-1");
    assert_eq!(fresh.host, "smtp.example.com");
    assert_eq!(fresh.port, 587);
    assert!(fresh.use_tls);
    assert_eq!(fresh.username, "");
    assert_eq!(fresh.created_at, "t1");

    let stored = SmtpConfig {
        id: "old".to_string(),
        host: "mail.local".to_string(),
        port: 25,
        username: "u".to_string(),
        password: "p".to_string(),
        from_email: "a@b.c".to_string(),
        use_tls: false,
        created_at: "t0".to_string(),
        updated_at: "t0".to_string(),
    };
    let req2 = UpdateSmtpConfigRequest { host: None, port: Some(2525), username: None, password: None, from_email: None, use_tls: None };
    let merged = merge_smtp_config(Some(&stored), &req2, "unused".to_string(), "t2".to_string());
    assert_eq!(merged.id, "old");
    assert_eq!(merged.host, "mail.local");
    assert_eq!(merged.port, 2525);
    assert!(!merged.use_tls);
    assert_eq!(merged.created_at, "t0");
    assert_eq!(merged.updated_at, "t2");
    let shown = smtp_response(&merged);
    assert_eq!(shown.port, 2525);
    assert_eq!(shown.host, "mail.local");
}

use fastdatabroker::admin_api::tenants::{
    apply_limit_changes, apply_tenant_changes, create_tenant_record, new_secret_record, new_tenant_record, reset_limits,
    tenant_id_for, LimitChanges, NewTenantFields, TenantChanges,
};

fn fields() -> NewTenantFields {
    NewTenantFields {
        name: Some("Acme".to_string()),
        email: None,
        max_message_size: None,
        rate_limit_rps: Some(50),
        max_connections: None,
        retention_days: Some(4_294_967_303), // 2^32 + 7: the low 32 bits are kept
    }
}

#[test]
fn new_tenant_defaults() {
    let t = new_tenant_record("tenant_x".to_string(), "key".to_string(), "now".to_string(), &fields());
    assert_eq!(t.name, "Acme");
    assert_eq!(t.email, "");
    assert_eq!(t.status, "active");
    assert_eq!(t.max_message_size, 10485760);
    assert_eq!(t.rate_limit_rps, 50);
    assert_eq!(t.max_connections, 100);
    assert_eq!(t.retention_days, 7);
    assert_eq!(tenant_id_for("abc"), "tenant_abc");
    let fresh = create_tenant_record(&fields());
    assert!(fresh.tenant_id.starts_with("tenant_"));
    assert_eq!(fresh.api_key.len(), 36);
}

#[test]
fn tenant_changes_and_limit_resets() {
    let t = new_tenant_record("tenant_x".to_string(), "key".to_string(), "t0".to_string(), &fields());
    let t = apply_tenant_changes(
        t,
        &TenantChanges { name: None, email: Some("a@b.c".to_string()), status: Some("suspended".to_string()) },
        "t1".to_string(),
    );
    assert_eq!(t.name, "Acme");
    assert_eq!(t.email, "a@b.c");
    assert_eq!(t.status, "suspended");
    assert_eq!(t.updated_at, "t1");
    let t = apply_limit_changes(
        t,
        &LimitChanges { rate_limit_rps: Some(5), max_connections: None, max_message_size: Some(-1), retention_days: None },
        "t2".to_string(),
    );
    assert_eq!(t.rate_limit_rps, 5);
    assert_eq!(t.max_message_size, -1);
    assert_eq!(t.max_connections, 100);
    let t = reset_limits(t, "t3".to_string());
    assert_eq!((t.rate_limit_rps, t.max_connections, t.max_message_size, t.retention_days), (1000, 100, 10485760, 30));
    let s = new_secret_record("s1".to_string(), "tenant_x".to_string(), &Some("k".to_string()), &None, "t4".to_string());
    assert_eq!(s.secret_key, "k");
    assert_eq!(s.secret_value, "");
}

use fastdatabroker::admin_api::error::AdminApiError;
use fastdatabroker::admin_api::models::ClusterEnvironmentRequest;
use fastdatabroker::admin_api::settings::{cluster_environment_response, cluster_insert_error};

#[test]
fn cluster_environment_answers() {
    let req = ClusterEnvironmentRequest {
        name: "prod".to_string(),
        description: None,
        region: "us-east".to_string(),
        broker_addresses: vec!["10.0.0.1:6000".to_string()],
        replication_factor: None,
    };
    let r = cluster_environment_response("id1".to_string(), &req, "t0".to_string(), "t0".to_string());
    assert_eq!(r.replication_factor, 3);
    assert_eq!(r.description, "");
    assert_eq!(r.status, "active");
    assert_eq!(r.broker_addresses, vec!["10.0.0.1:6000".to_string()]);
    match cluster_insert_error("UNIQUE constraint failed: cluster_environments.name") {
        AdminApiError::Conflict(m) => assert_eq!(m, "Cluster name already exists"),
        other => panic!("unexpected {:?}", other),
    }
    match cluster_insert_error("disk I/O error") {
        AdminApiError::DatabaseError(m) => assert_eq!(m, "disk I/O error"),
        other => panic!("unexpected {:?}", other),
    }
}

use fastdatabroker::admin_api::models::{NotificationEvent, NotificationSettingsRequest, SystemConfigRequest};
use fastdatabroker::admin_api::settings::{notification_event_response, notification_settings_response, system_config_update};

#[test]
fn notification_settings_response_copies_the_request() {
    let req = NotificationSettingsRequest {
        event_type: "tenant_created".to_string(),
        enabled: true,
        recipient_email: "ops@example.com".to_string(),
        notification_channels: vec!["email".to_string(), "slack".to_string()],
    };
    let r = notification_settings_response("n-1".to_string(), &req, "2024-01-01T00:00:00Z".to_string());
    assert_eq!(r.id, "n-1");
    assert_eq!(r.event_type, "tenant_created");
    assert!(r.enabled);
    assert_eq!(r.recipient_email, "ops@example.com");
    assert_eq!(r.notification_channels, vec!["email".to_string(), "slack".to_string()]);
    assert_eq!(r.created_at, "2024-01-01T00:00:00Z");
}

#[test]
fn notification_event_response_keeps_fields() {
    let e = NotificationEvent {
        event_id: "e1".to_string(),
        event_type: "alert".to_string(),
        title: "Disk".to_string(),
        description: "Disk full".to_string(),
        severity: "critical".to_string(),
        created_at: "t".to_string(),
    };
    let r = notification_event_response(e);
    assert_eq!(r.event_id, "e1");
    assert_eq!(r.severity, "critical");
    assert_eq!(r.description, "Disk full");
}

#[test]
fn system_config_update_uses_defaults() {
    let req = SystemConfigRequest { broker_url: None, max_brokers: None, replication_factor: Some(5), log_level: None };
    let c = system_config_update(&req, &"http://broker:6000".to_string(), "now".to_string());
    assert_eq!(c.id, "default");
    assert_eq!(c.broker_url, "http://broker:6000");
    assert_eq!(c.max_brokers, 3);
    assert_eq!(c.replication_factor, 5);
    assert_eq!(c.log_level, "info");
    assert_eq!(c.created_at, "");
    assert_eq!(c.updated_at, "now");
    let req2 = SystemConfigRequest {
        broker_url: Some("http://b2".to_string()),
        max_brokers: Some(7),
        replication_factor: None,
        log_level: Some("debug".to_string()),
    };
    let c2 = system_config_update(&req2, &"http://broker:6000".to_string(), "now".to_string());
    assert_eq!(c2.broker_url, "http://b2");
    assert_eq!(c2.max_brokers, 7);
    assert_eq!(c2.replication_factor, 3);
    assert_eq!(c2.log_level, "debug");
}

use fastdatabroker::admin_api::listing::sort_newest_first;
use fastdatabroker::admin_api::store::TenantData;

fn stored_tenant(id: &str, created_at: &str) -> TenantData {
    TenantData {
        tenant_id: id.to_string(),
        name: id.to_string(),
        email: String::new(),
        api_key: String::new(),
        status: "active".to_string(),
        max_message_size: 10485760,
        rate_limit_rps: 1000,
        max_connections: 100,
        retention_days: 30,
        created_at: created_at.to_string(),
        updated_at: created_at.to_string(),
    }
}

#[test]
fn stored_tenants_are_listed_newest_first() {
    let v = vec![
        stored_tenant("a", "2024-01-02T00:00:00Z"),
        stored_tenant("b", "2024-03-01T00:00:00Z"),
        stored_tenant("c", "2024-01-02T00:00:00Z"),
        stored_tenant("d", "2023-12-31T23:59:59Z"),
        stored_tenant("e", "2024-03-01"),
    ];
    let ids: Vec<String> = sort_newest_first(v).into_iter().map(|t| t.tenant_id).collect();
    assert_eq!(ids, vec!["b", "e", "a", "c", "d"]);
    assert!(sort_newest_first(Vec::new()).is_empty());
}
