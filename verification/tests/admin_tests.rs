use fastdatabroker::admin::logs::{LogType, TenantLogger};
use fastdatabroker::admin_api::auth::{generate_api_key, validate_api_key};

#[test]
fn test_generate_api_key() {
    let key1 = generate_api_key();
    let key2 = generate_api_key();
    assert_ne!(key1, key2);
    assert_eq!(key1.len(), 36); // UUID v4 format
}

#[test]
fn test_validate_api_key() {
    let allowed_keys = vec!["key1", "key2"];
    assert!(validate_api_key("key1", &allowed_keys).is_ok());
    assert!(validate_api_key("invalid", &allowed_keys).is_err());
}

#[test]
fn test_tenant_logger() {
    let mut logger = TenantLogger::new(1000);

    logger.log(
        "tenant-1".to_string(),
        LogType::Request,
        "GET /api/messages".to_string(),
        25.5f64.to_bits(),
        200,
        None,
    );

    let logs = logger.get_tenant_logs("tenant-1", 10, None);
    assert_eq!(logs.len(), 1);
    assert_eq!(logs[0].log_type, LogType::Request);
}

#[test]
fn test_error_logs() {
    let mut logger = TenantLogger::new(1000);

    logger.log(
        "tenant-1".to_string(),
        LogType::Error,
        "Connection timeout".to_string(),
        50.0f64.to_bits(),
        500,
        Some("Database unreachable".to_string()),
    );

    let errors = logger.get_error_logs("tenant-1", 10);
    assert_eq!(errors.len(), 1);
    assert_eq!(errors[0].status_code, 500);
}

#[test]
fn tenant_logger_keeps_only_the_newest_entries() {
    let mut logger = TenantLogger::new(2);
    for (i, msg) in ["a", "b", "c"].iter().enumerate() {
        logger.log_at("t".to_string(), LogType::System, msg.to_string(), 0, 200, None, i as i64);
    }
    let logs = logger.get_recent_logs(10);
    assert_eq!(logs.len(), 2);
    let messages: Vec<&str> = logs.iter().map(|e| e.message.as_str()).collect();
    assert!(messages.contains(&"b"));
    assert!(messages.contains(&"c"));
    assert!(!messages.contains(&"a"));
}

#[test]
fn tenant_logger_counts_and_search() {
    let mut logger = TenantLogger::new(100);
    logger.log_at("t1".to_string(), LogType::Request, "GET /a".to_string(), 0, 200, None, 1);
    logger.log_at("t1".to_string(), LogType::Error, "boom".to_string(), 0, 500, None, 2);
    logger.log_at("t1".to_string(), LogType::RateLimit, "slow down".to_string(), 0, 429, None, 3);
    logger.log_at("t2".to_string(), LogType::Request, "GET /b".to_string(), 0, 200, None, 4);
    let counts = logger.get_log_counts("t1");
    assert_eq!(counts.total_entries, 3);
    assert_eq!(counts.error_count, 1);
    assert_eq!(counts.rate_limit_violations, 1);
    assert_eq!(logger.search_logs("t1", "boom", 10).len(), 1);
    assert_eq!(logger.get_rate_limit_logs("t1", 10).len(), 1);
    logger.clear_logs("t1");
    assert_eq!(logger.get_tenant_logs("t1", 10, None).len(), 0);
    assert_eq!(logger.get_tenant_logs("t2", 10, None).len(), 1);
    assert_eq!(LogType::RateLimit.as_str(), "rate_limit");
}

use fastdatabroker::admin_api::auth::extract_api_key;
use fastdatabroker::admin_api::error::AdminApiError;
use fastdatabroker::fields::split_trimmed;

#[test]
fn api_key_comes_from_the_header() {
    assert_eq!(extract_api_key(Some("key-1")).unwrap(), "key-1");
    match extract_api_key(None) {
        Err(AdminApiError::Unauthorized(m)) => assert_eq!(m, "Missing API key header"),
        other => panic!("unexpected {:?}", other),
    }
}

#[test]
fn key_lists_split_on_commas_and_trim() {
    assert_eq!(split_trimmed(" k1, k2 ,,\tk3\n", ','), vec!["k1", "k2", "", "k3"]);
    assert_eq!(split_trimmed("admin-key-default-change-me", ','), vec!["admin-key-default-change-me"]);
    assert_eq!(split_trimmed("", ','), vec![""]);
    assert_eq!(split_trimmed(",", ','), vec!["", ""]);
    assert_eq!(split_trimmed("  a b  ", ','), vec!["a b"]);
}

use fastdatabroker::admin_api::cache::JsonCache;

fn json_text(s: &str) -> String {
    let v: serde_json::Value = serde_json::from_str(s).unwrap();
    v.to_string()
}

#[test]
fn test_cache_operations() {
    let mut cache = JsonCache::new(10);
    let key = "test_key".to_string();
    let value = json_text("{\"test\": \"value\"}");

    cache.put(key.clone(), value.clone());
    assert_eq!(cache.get(&key), Some(value.clone()));

    cache.remove(&key);
    assert_eq!(cache.get(&key), None);
}

#[test]
fn test_cache_eviction() {
    let mut cache = JsonCache::new(2);

    cache.put("key1".to_string(), json_text("1"));
    cache.put("key2".to_string(), json_text("2"));
    cache.put("key3".to_string(), json_text("3"));

    assert_eq!(cache.get("key1"), None);
    assert_eq!(cache.get("key2"), Some(json_text("2")));
    assert_eq!(cache.get("key3"), Some(json_text("3")));
}

#[test]
fn json_cache_lookup_refreshes_recency() {
    let mut cache = JsonCache::new(2);
    cache.put_at("a".to_string(), "1".to_string(), 10);
    cache.put_at("b".to_string(), "2".to_string(), 11);
    assert_eq!(cache.get("a"), Some("1".to_string()));
    cache.put_at("c".to_string(), "3".to_string(), 12);
    assert_eq!(cache.get("b"), None);
    assert_eq!(cache.get("a"), Some("1".to_string()));
    assert_eq!(cache.get("c"), Some("3".to_string()));
    cache.put_at("a".to_string(), "9".to_string(), 13);
    assert_eq!(cache.get("a"), Some("9".to_string()));
    let s = cache.stats();
    assert_eq!((s.len, s.cap), (2, 2));
    assert_eq!(cache.remove("a"), Some("9".to_string()));
    assert_eq!(cache.remove("a"), None);
    cache.clear();
    assert_eq!(cache.stats().len, 0);
}

#[test]
fn json_cache_zero_capacity_means_default() {
    let cache = JsonCache::new(0);
    assert_eq!(cache.stats().cap, 1000);
    assert_eq!(cache.stats().len, 0);
}

#[test]
fn key_lists_trim_unicode_whitespace() {
    assert_eq!(split_trimmed("\u{3000}k1\u{2003},\u{85}k2\u{a0}", ','), vec!["k1", "k2"]);
    // A zero-width space is not white space, so it stays.
    assert_eq!(split_trimmed("\u{200b}k", ','), vec!["\u{200b}k"]);
}

#[test]
fn generated_api_keys_are_hyphenated_lowercase_hex() {
    let k = generate_api_key();
    assert_eq!(k.len(), 36);
    for (i, c) in k.chars().enumerate() {
        if [8, 13, 18, 23].contains(&i) {
            assert_eq!(c, '-');
        } else {
            assert!(c.is_ascii_digit() || ('a'..='f').contains(&c));
        }
    }
}

use fastdatabroker::notifications::webhook::{WebhookConfig, WebhookHandler, WebhookHandlerConfig};

#[test]
fn unregistered_recipient_is_gone() {
    let mut h = WebhookHandler::new(WebhookHandlerConfig::default());
    h.register_webhook("service-1".to_string(), WebhookConfig::new("https://example.com/webhook".to_string())).unwrap();
    assert!(h.unregister_webhook(&"service-1".to_string()).is_ok());
    assert_eq!(h.unregister_webhook(&"service-1".to_string()), Err("Webhook not found: service-1".to_string()));
}

use fastdatabroker::fields::char_is_whitespace;

#[test]
fn whitespace_matches_the_standard_library() {
    for v in 0u32..=0x3100 {
        if let Some(c) = char::from_u32(v) {
            assert_eq!(char_is_whitespace(c), c.is_whitespace(), "U+{:04X}", v);
        }
    }
    assert!(!char_is_whitespace('\u{FEFF}'));
    assert!(!char_is_whitespace('a'));
}
