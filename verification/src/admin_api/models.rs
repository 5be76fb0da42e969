//! Data exchanged by the admin API.
use vstd::prelude::*;

verus! {

/// Broker-wide configuration as stored.
#[derive(Debug, Clone)]
pub struct SystemConfig {
    pub id: String,
    pub broker_url: String,
    pub max_brokers: i32,
    pub replication_factor: i32,
    pub log_level: String,
    pub created_at: String,
    pub updated_at: String,
}

/// A change to the broker-wide configuration.
#[derive(Debug, Clone)]
pub struct SystemConfigRequest {
    pub broker_url: Option<String>,
    pub max_brokers: Option<i32>,
    pub replication_factor: Option<i32>,
    pub log_level: Option<String>,
}

/// Basic health of the system.
#[derive(Debug, Clone)]
pub struct SystemHealth {
    pub status: HealthStatus,
    pub uptime_seconds: u64,
    pub broker_connected: bool,
    pub database_healthy: bool,
    pub timestamp: String,
}

/// Overall health.
#[derive(Debug, Clone, Copy, PartialEq, Eq, Structural)]
pub enum HealthStatus {
    Healthy,
    Degraded,
    Unhealthy,
}

/// Health of the broker connection.
#[derive(Debug, Clone)]
pub struct BrokerHealth {
    pub connected: bool,
    pub url: String,
    pub response_time_ms: u32,
    pub active_connections: u32,
}

/// Health of the database.
#[derive(Debug, Clone)]
pub struct DatabaseHealth {
    pub connected: bool,
    pub query_time_ms: u32,
    pub pool_size: u32,
}

/// A cluster environment as stored (broker addresses as JSON text).
#[derive(Debug, Clone)]
pub struct ClusterEnvironment {
    pub id: String,
    pub name: String,
    pub description: String,
    pub region: String,
    pub broker_addresses: String,
    pub replication_factor: i32,
    pub status: String,
    pub created_at: String,
    pub updated_at: String,
}

/// A request to create or change a cluster environment.
#[derive(Debug, Clone)]
pub struct ClusterEnvironmentRequest {
    pub name: String,
    pub description: Option<String>,
    pub region: String,
    pub broker_addresses: Vec<String>,
    pub replication_factor: Option<i32>,
}

/// A cluster environment as returned.
#[derive(Debug, Clone)]
pub struct ClusterEnvironmentResponse {
    pub id: String,
    pub name: String,
    pub description: String,
    pub region: String,
    pub broker_addresses: Vec<String>,
    pub replication_factor: i32,
    pub status: String,
    pub created_at: String,
    pub updated_at: String,
}

/// A tenant as stored.
#[derive(Debug, Clone)]
pub struct Tenant {
    pub tenant_id: String,
    pub name: String,
    pub email: String,
    pub api_key: String,
    pub status: String,
    pub max_message_size: i32,
    pub rate_limit_rps: i32,
    pub max_connections: i32,
    pub retention_days: i32,
    pub created_at: String,
    pub updated_at: String,
}

/// A request to create a tenant.
#[derive(Debug, Clone)]
pub struct CreateTenantRequest {
    pub name: String,
    pub email: String,
}

/// A change to a tenant.
#[derive(Debug, Clone)]
pub struct UpdateTenantRequest {
    pub name: Option<String>,
    pub email: Option<String>,
    pub status: Option<String>,
}

/// A tenant as returned.
#[derive(Debug, Clone)]
pub struct TenantResponse {
    pub tenant_id: String,
    pub name: String,
    pub email: String,
    pub status: String,
    pub limits: TenantLimits,
    pub created_at: String,
    pub updated_at: String,
}

/// A tenant secret as stored.
#[derive(Debug, Clone)]
pub struct TenantSecret {
    pub secret_id: String,
    pub tenant_id: String,
    pub secret_key: String,
    pub secret_value: String,
    pub created_at: String,
    pub updated_at: String,
}

/// A request to create a tenant secret.
#[derive(Debug, Clone)]
pub struct CreateTenantSecretRequest {
    pub secret_key: String,
    pub secret_value: String,
}

/// A tenant secret as returned (without its value).
#[derive(Debug, Clone)]
pub struct TenantSecretResponse {
    pub secret_id: String,
    pub secret_key: String,
    pub created_at: String,
}

/// The limits of a tenant.
#[derive(Debug, Clone)]
pub struct TenantLimits {
    pub max_message_size: i32,
    pub rate_limit_rps: i32,
    pub max_connections: i32,
    pub retention_days: i32,
}

/// A change to the limits of a tenant.
#[derive(Debug, Clone)]
pub struct UpdateTenantLimitsRequest {
    pub max_message_size: Option<i32>,
    pub rate_limit_rps: Option<i32>,
    pub max_connections: Option<i32>,
    pub retention_days: Option<i32>,
}

/// SMTP configuration as stored.
#[derive(Debug, Clone)]
pub struct SmtpConfig {
    pub id: String,
    pub host: String,
    pub port: i32,
    pub username: String,
    pub password: String,
    pub from_email: String,
    pub use_tls: bool,
    pub created_at: String,
    pub updated_at: String,
}

/// A change to the SMTP configuration.
#[derive(Debug, Clone)]
pub struct UpdateSmtpConfigRequest {
    pub host: Option<String>,
    pub port: Option<i32>,
    pub username: Option<String>,
    pub password: Option<String>,
    pub from_email: Option<String>,
    pub use_tls: Option<bool>,
}

/// A request to test the SMTP configuration.
#[derive(Debug, Clone)]
pub struct SmtpTestRequest {
    pub recipient_email: String,
}

/// SMTP configuration as returned (without credentials).
#[derive(Debug, Clone)]
pub struct SmtpConfigResponse {
    pub host: String,
    pub port: i32,
    pub from_email: String,
    pub use_tls: bool,
    pub created_at: String,
    pub updated_at: String,
}

/// Notification settings of an event type as stored (channels as JSON text).
#[derive(Debug, Clone)]
pub struct NotificationSettings {
    pub id: String,
    pub event_type: String,
    pub enabled: bool,
    pub recipient_email: String,
    pub notification_channels: String,
    pub created_at: String,
    pub updated_at: String,
}

/// A change to the notification settings of an event type.
#[derive(Debug, Clone)]
pub struct NotificationSettingsRequest {
    pub event_type: String,
    pub enabled: bool,
    pub recipient_email: String,
    pub notification_channels: Vec<String>,
}

/// Notification settings as returned.
#[derive(Debug, Clone)]
pub struct NotificationSettingsResponse {
    pub id: String,
    pub event_type: String,
    pub enabled: bool,
    pub recipient_email: String,
    pub notification_channels: Vec<String>,
    pub created_at: String,
}

/// A notification event as stored.
#[derive(Debug, Clone)]
pub struct NotificationEvent {
    pub event_id: String,
    pub event_type: String,
    pub title: String,
    pub description: String,
    pub severity: String,
    pub created_at: String,
}

/// A notification event as returned.
#[derive(Debug, Clone)]
pub struct NotificationEventResponse {
    pub event_id: String,
    pub event_type: String,
    pub title: String,
    pub description: String,
    pub severity: String,
    pub created_at: String,
}

/// The admin API's self-description.
#[derive(Debug, Clone)]
pub struct ApiInfo {
    pub name: String,
    pub version: String,
    pub description: String,
    pub endpoints: Vec<EndpointInfo>,
    pub documentation: String,
}

/// One endpoint of the admin API.
#[derive(Debug, Clone)]
pub struct EndpointInfo {
    pub path: String,
    pub method: String,
    pub description: String,
    pub authentication: bool,
}

/// The body of an error answer.
#[derive(Debug, Clone)]
pub struct ErrorResponse {
    pub error: String,
    pub code: u16,
    pub message: String,
    pub timestamp: String,
}

} // verus!
