use sha2::Digest;
use fastdatabroker::models::Envelope;
use fastdatabroker::notifications::email::{EmailHandler, EmailHandlerConfig, EmailStatus};
use fastdatabroker::notifications::push::{PushHandler, PushHandlerConfig, PushPlatform, PushStatus};
use fastdatabroker::notifications::webhook::{WebhookConfig, WebhookHandler, WebhookHandlerConfig, WebhookStatus};
use fastdatabroker::notifications::websocket::{WebSocketHandler, WebSocketHandlerConfig, WebSocketStatus};
use fastdatabroker::notifications::{NotificationBroker, NotificationChannel};

fn envelope(to: &str, body: &[u8]) -> Envelope {
    Envelope::new("producer".to_string(), vec![to.to_string()], "Test".to_string(), body.to_vec())
}

#[test]
fn test_valid_email_format() {
    let handler = EmailHandler::new(EmailHandlerConfig::default());

    assert!(handler.is_valid_email("user@example.com"));
    assert!(handler.is_valid_email("test.user+tag@domain.co.uk"));
    assert!(!handler.is_valid_email("invalid-email"));
    assert!(!handler.is_valid_email("@example.com"));
    assert!(!handler.is_valid_email("user@"));
}

#[test]
fn email_outcomes_by_draw() {
    let mut handler = EmailHandler::new(EmailHandlerConfig::default());
    let env = envelope("user@example.com", b"Hello");
    assert_eq!(handler.send_email_with_draw(&env, &"user@example.com".to_string(), 3), Ok(EmailStatus::Sent));
    assert_eq!(
        handler.send_email_with_draw(&env, &"user@example.com".to_string(), 99),
        Ok(EmailStatus::Failed("SMTP send failed: transient error".to_string()))
    );
    assert_eq!(
        handler.send_email_with_draw(&env, &"bad".to_string(), 3),
        Ok(EmailStatus::Failed("Invalid email format".to_string()))
    );
    let stats = handler.stats();
    assert_eq!(stats.total_received, 2);
    assert_eq!(stats.sent, 1);
    assert_eq!(stats.failed, 2);
    assert_eq!(stats.total_bytes, 10);
}

#[test]
fn test_valid_device_token() {
    let handler = PushHandler::new(PushHandlerConfig::default());

    assert!(handler.is_valid_token("abcd1234567890"));
    assert!(handler.is_valid_token("firebase_token_12345:aGVsbG8="));
    assert!(!handler.is_valid_token(""));
    assert!(!handler.is_valid_token("short"));
}

#[test]
fn push_outcomes() {
    let mut handler = PushHandler::new(PushHandlerConfig::default());
    let env = envelope("device", b"x");
    assert_eq!(
        handler.send_push_with_draw(&env, "abcd1234567890", &PushPlatform::Firebase, 0),
        Ok(PushStatus::Failed("Firebase not configured".to_string()))
    );
    assert_eq!(handler.send_push_with_draw(&env, "abcd1234567890", &PushPlatform::WebPush, 5), Ok(PushStatus::Delivered));
    assert_eq!(handler.send_push_with_draw(&env, "short", &PushPlatform::WebPush, 5), Ok(PushStatus::InvalidToken));
    let stats = handler.stats();
    assert_eq!(stats.total_received, 2);
    assert_eq!(stats.delivered, 1);
    assert_eq!(stats.invalid_tokens, 1);
}

#[test]
fn test_valid_webhook_url() {
    let handler = WebhookHandler::new(WebhookHandlerConfig::default());

    assert!(handler.is_valid_url("https://example.com/webhook"));
    assert!(handler.is_valid_url("http://webhook.service.com/notify"));
    assert!(!handler.is_valid_url("http://localhost:8080/webhook"));
    assert!(!handler.is_valid_url("ftp://example.com"));
    assert!(!handler.is_valid_url("invalid"));
}

#[test]
fn webhook_test_register_webhook() {
    let mut handler = WebhookHandler::new(WebhookHandlerConfig::default());

    let config = WebhookConfig::new("https://example.com/notify".to_string());
    let result = handler.register_webhook("service-1".to_string(), config);

    assert!(result.is_ok());
}

#[test]
fn test_reject_invalid_webhook_url() {
    let mut handler = WebhookHandler::new(WebhookHandlerConfig::default());

    let config = WebhookConfig::new("not-a-valid-url".to_string());
    let result = handler.register_webhook("service-1".to_string(), config);

    assert!(result.is_err());
}

#[test]
fn test_webhook_config_builder() {
    let config = WebhookConfig::new("https://example.com".to_string())
        .with_retries(5)
        .with_header("X-Custom-Header".to_string(), "custom-value".to_string());

    assert_eq!(config.retry_count, 5);
    assert!(config.headers.contains_key("X-Custom-Header"));
}

#[test]
fn test_unregister_webhook() {
    let mut handler = WebhookHandler::new(WebhookHandlerConfig::default());
    let config = WebhookConfig::new("https://example.com/notify".to_string());
    handler.register_webhook("service-1".to_string(), config).unwrap();
    assert_eq!(handler.webhook_count(), 1);
    assert!(handler.unregister_webhook(&"service-1".to_string()).is_ok());
    assert_eq!(handler.webhook_count(), 0);
    assert!(handler.unregister_webhook(&"service-1".to_string()).is_err());
}

#[test]
fn webhook_outcomes_by_draws() {
    let mut handler = WebhookHandler::new(WebhookHandlerConfig::default());
    handler.register_webhook("s".to_string(), WebhookConfig::new("https://example.com/n".to_string())).unwrap();
    let env = envelope("s", b"x");
    assert_eq!(handler.send_webhook_with_draws(&env, &"s".to_string(), 10, 0), Ok(WebhookStatus::Delivered));
    assert_eq!(handler.send_webhook_with_draws(&env, &"s".to_string(), 95, 0), Ok(WebhookStatus::Timeout));
    assert_eq!(handler.send_webhook_with_draws(&env, &"s".to_string(), 95, 1), Ok(WebhookStatus::RateLimited));
    assert_eq!(handler.send_webhook_with_draws(&env, &"nobody".to_string(), 10, 0), Ok(WebhookStatus::InvalidUrl));
    assert_eq!(handler.stats().total_received, 4);
}

#[test]
fn test_register_client() {
    let mut handler = WebSocketHandler::new(WebSocketHandlerConfig::default());

    let result = handler.register_client("client-1".to_string(), "user-123".to_string());

    assert!(result.is_ok());
    assert_eq!(handler.connection_count(), 1);
}

#[test]
fn test_unregister_client() {
    let mut handler = WebSocketHandler::new(WebSocketHandlerConfig::default());

    handler.register_client("client-1".to_string(), "user-123".to_string()).unwrap();

    let result = handler.unregister_client(&"user-123".to_string());

    assert!(result.is_ok());
    assert_eq!(handler.connection_count(), 0);
}

#[test]
fn test_deliver_to_connected_client() {
    let mut handler = WebSocketHandler::new(WebSocketHandlerConfig::default());

    handler.register_client("client-1".to_string(), "user-123".to_string()).unwrap();

    let envelope = Envelope::new(
        "producer".to_string(),
        vec!["user-123".to_string()],
        "Real-time Update".to_string(),
        b"New message available".to_vec(),
    );

    let result = handler.deliver_message(&envelope, &"user-123".to_string());

    assert!(result.is_ok());
    assert_eq!(result.unwrap(), WebSocketStatus::Delivered);
}

#[test]
fn test_deliver_to_disconnected_client() {
    let mut handler = WebSocketHandler::new(WebSocketHandlerConfig::default());

    let envelope = Envelope::new(
        "producer".to_string(),
        vec!["user-999".to_string()],
        "Update".to_string(),
        b"Message".to_vec(),
    );

    let result = handler.deliver_message(&envelope, &"user-999".to_string());

    assert!(result.is_ok());
    assert_eq!(result.unwrap(), WebSocketStatus::Disconnected);
}

#[test]
fn test_broadcast_message() {
    let mut handler = WebSocketHandler::new(WebSocketHandlerConfig::default());

    // Register 3 clients
    for i in 0..3 {
        handler.register_client(format!("client-{}", i), format!("user-{}", i)).unwrap();
    }

    let envelope = Envelope::new(
        "producer".to_string(),
        vec!["broadcast".to_string()],
        "Broadcast".to_string(),
        b"To all".to_vec(),
    );

    let delivered = handler.broadcast_message(&envelope).unwrap();

    assert!(delivered > 0);
}

#[test]
fn test_websocket_stats_tracking() {
    let mut handler = WebSocketHandler::new(WebSocketHandlerConfig::default());

    handler.register_client("client-1".to_string(), "user-123".to_string()).unwrap();

    let envelope = Envelope::new(
        "producer".to_string(),
        vec!["user-123".to_string()],
        "Test".to_string(),
        b"Content".to_vec(),
    );

    for _ in 0..5 {
        let _ = handler.deliver_message(&envelope, &"user-123".to_string());
    }

    let stats = handler.stats();
    assert_eq!(stats.total_received, 5);
    assert_eq!(stats.active_connections, 1);
}

#[test]
fn test_broker_creation() {
    let broker = NotificationBroker::new();
    let stats = broker.stats();

    assert_eq!(stats.email_stats.total_received, 0);
    assert_eq!(stats.websocket_stats.total_received, 0);
    assert_eq!(stats.push_stats.total_received, 0);
    assert_eq!(stats.webhook_stats.total_received, 0);
}

#[test]
fn test_omnibus_delivery() {
    let mut broker = NotificationBroker::new();

    let envelope = Envelope::new(
        "producer".to_string(),
        vec!["recipient-1".to_string()],
        "Multi-channel Test".to_string(),
        b"Test message to all channels".to_vec(),
    );

    let result = broker.deliver_omnibus(&envelope, &"recipient-1".to_string());

    assert!(result.is_ok());
    let delivery = result.unwrap();
    assert_eq!(delivery.recipient, "recipient-1");
}

#[test]
fn test_channel_specific_delivery() {
    let mut broker = NotificationBroker::new();

    let envelope = Envelope::new(
        "producer".to_string(),
        vec!["user@example.com".to_string()],
        "Email Test".to_string(),
        b"Email content".to_vec(),
    );

    let result = broker.deliver_channel(&envelope, &"user@example.com".to_string(), &NotificationChannel::Email);

    assert!(result.is_ok());
    let delivery = result.unwrap();
    assert_eq!(delivery.channel, NotificationChannel::Email);
}

#[test]
fn test_register_websocket_client() {
    let mut broker = NotificationBroker::new();

    let result = broker.register_websocket_client("client-1".to_string(), "user-123".to_string());

    assert!(result.is_ok());
}

#[test]
fn mod_test_register_webhook() {
    let mut broker = NotificationBroker::new();

    let config = WebhookConfig::new("https://example.com/webhook".to_string());
    let result = broker.register_webhook("service-1".to_string(), config);

    assert!(result.is_ok());
}

#[test]
fn test_broker_stats() {
    let mut broker = NotificationBroker::new();

    let envelope = Envelope::new(
        "producer".to_string(),
        vec!["user@example.com".to_string()],
        "Test".to_string(),
        b"Content".to_vec(),
    );

    let _ = broker.deliver_channel(&envelope, &"user@example.com".to_string(), &NotificationChannel::Email);

    let stats = broker.stats();
    assert!(stats.email_stats.total_received > 0);
}

#[test]
fn webhook_signature_is_empty_without_secret() {
    let handler = WebhookHandler::new(WebhookHandlerConfig::default());
    assert_eq!(handler.generate_signature(b"payload"), "");
}

#[test]
fn webhook_signature_hashes_secret_then_payload() {
    let mut config = WebhookHandlerConfig::default();
    config.signature_secret = "s3cret".to_string();
    let handler = WebhookHandler::new(config);
    let sig = handler.generate_signature(b"{\"a\":1}");
    let mut hasher = sha2::Sha256::new();
    hasher.update("s3cret");
    hasher.update(b"{\"a\":1}");
    let expected: String = hasher.finalize().iter().map(|b| format!("{:02x}", b)).collect();
    assert_eq!(sig.len(), 64);
    assert_eq!(sig, expected);
    assert_ne!(sig, handler.generate_signature(b"{\"a\":2}"));
}

#[test]
fn test_send_email_success() {
    let mut handler = EmailHandler::new(EmailHandlerConfig::default());
    let envelope = Envelope::new(
        "producer".to_string(),
        vec!["recipient@example.com".to_string()],
        "Test Subject".to_string(),
        b"Test content".to_vec(),
    );
    let result = handler.send_email(&envelope, &"recipient@example.com".to_string());
    assert!(result.is_ok());
    assert!(matches!(result.unwrap(), EmailStatus::Sent | EmailStatus::Failed(_)));
}

#[test]
fn test_reject_invalid_email() {
    let mut handler = EmailHandler::new(EmailHandlerConfig::default());
    let envelope = Envelope::new(
        "producer".to_string(),
        vec!["invalid".to_string()],
        "Test Subject".to_string(),
        b"Test content".to_vec(),
    );
    let result = handler.send_email(&envelope, &"invalid".to_string());
    assert!(result.is_ok());
    assert!(matches!(result.unwrap(), EmailStatus::Failed(_)));
}

#[test]
fn test_email_stats_tracking() {
    let mut handler = EmailHandler::new(EmailHandlerConfig::default());
    let envelope = Envelope::new(
        "producer".to_string(),
        vec!["user@example.com".to_string()],
        "Test".to_string(),
        b"Content".to_vec(),
    );
    for _ in 0..5 {
        let _ = handler.send_email(&envelope, &"user@example.com".to_string());
    }
    let stats = handler.stats();
    assert_eq!(stats.total_received, 5);
    assert!(stats.sent + stats.failed == 5);
}

#[test]
fn test_send_firebase_push() {
    let mut config = PushHandlerConfig::default();
    config.firebase_api_key = "test-key".to_string();
    let mut handler = PushHandler::new(config);
    let envelope = Envelope::new(
        "producer".to_string(),
        vec!["device-1".to_string()],
        "Notification".to_string(),
        b"You have a new message".to_vec(),
    );
    let result = handler.send_push(&envelope, "android_device_token_12345", &PushPlatform::Firebase);
    assert!(result.is_ok());
    assert!(matches!(result.unwrap(), PushStatus::Delivered | PushStatus::Failed(_)));
}

#[test]
fn test_send_apns_push() {
    let mut config = PushHandlerConfig::default();
    config.apns_certificate_path = "/path/to/cert.p8".to_string();
    let mut handler = PushHandler::new(config);
    let envelope = Envelope::new(
        "producer".to_string(),
        vec!["device-1".to_string()],
        "Notification".to_string(),
        b"Message for iOS".to_vec(),
    );
    let result = handler.send_push(&envelope, "ios_device_token_12345", &PushPlatform::ApplePushNotification);
    assert!(result.is_ok());
    assert!(matches!(result.unwrap(), PushStatus::Delivered | PushStatus::Failed(_)));
}

#[test]
fn test_reject_invalid_token() {
    let mut handler = PushHandler::new(PushHandlerConfig::default());
    let envelope = Envelope::new("producer".to_string(), vec!["device".to_string()], "Test".to_string(), b"Content".to_vec());
    let result = handler.send_push(&envelope, "short", &PushPlatform::Firebase);
    assert!(result.is_ok());
    assert_eq!(result.unwrap(), PushStatus::InvalidToken);
}

#[test]
fn test_batch_send_push() {
    let mut handler = PushHandler::new(PushHandlerConfig::default());
    let envelope = Envelope::new("producer".to_string(), vec!["batch".to_string()], "Batch".to_string(), b"Message".to_vec());
    let tokens = vec!["token1_1234567890", "token2_1234567890", "token3_1234567890"];
    let result = handler.batch_send(&envelope, tokens, &PushPlatform::Firebase);
    assert!(result.is_ok());
    let (sent, failed) = result.unwrap();
    assert!(sent + failed == 3);
}

#[test]
fn test_push_stats_tracking() {
    let mut handler = PushHandler::new(PushHandlerConfig::default());
    let envelope = Envelope::new("producer".to_string(), vec!["device".to_string()], "Test".to_string(), b"Content".to_vec());
    for _ in 0..5 {
        let _ = handler.send_push(&envelope, "device_token_1234567890", &PushPlatform::Firebase);
    }
    let stats = handler.stats();
    assert_eq!(stats.total_received, 5);
}

#[test]
fn test_send_webhook() {
    let mut handler = WebhookHandler::new(WebhookHandlerConfig::default());
    let config = WebhookConfig::new("https://example.com/webhook".to_string());
    handler.register_webhook("service-1".to_string(), config).unwrap();
    let envelope = Envelope::new(
        "producer".to_string(),
        vec!["service-1".to_string()],
        "Event".to_string(),
        b"Event data".to_vec(),
    );
    let result = handler.send_webhook(&envelope, &"service-1".to_string());
    assert!(result.is_ok());
    assert!(matches!(
        result.unwrap(),
        WebhookStatus::Delivered | WebhookStatus::Failed(_) | WebhookStatus::Timeout | WebhookStatus::RateLimited
    ));
}

#[test]
fn test_webhook_stats_tracking() {
    let mut handler = WebhookHandler::new(WebhookHandlerConfig::default());
    let config = WebhookConfig::new("https://example.com/webhook".to_string());
    handler.register_webhook("service-1".to_string(), config).unwrap();
    let envelope = Envelope::new("producer".to_string(), vec!["service-1".to_string()], "Event".to_string(), b"Data".to_vec());
    for _ in 0..5 {
        let _ = handler.send_webhook(&envelope, &"service-1".to_string());
    }
    let stats = handler.stats();
    assert_eq!(stats.total_received, 5);
}
