//! How the admin API's stored settings change: the SMTP configuration,
//! notification settings, the system configuration and cluster environments.
use vstd::prelude::*;
use crate::auth::clone_strings;
use crate::text::{contains_seq, contains_str, owned, string_views};
use super::error::AdminApiError;
use super::models::{
    ClusterEnvironmentRequest, ClusterEnvironmentResponse, NotificationEvent, NotificationEventResponse,
    NotificationSettingsRequest, NotificationSettingsResponse, SmtpConfig, SmtpConfigResponse, SystemConfig,
    SystemConfigRequest, UpdateSmtpConfigRequest,
};

verus! {

/// The value a change gives a setting: the new value if one is given, else
/// the stored one, else the default.
pub open spec fn chosen<T>(new: Option<T>, stored: Option<T>, default: T) -> T {
    match new {
        Some(v) => v,
        None => match stored {
            Some(v) => v,
            None => default,
        },
    }
}

/// The text a change gives a field.
pub open spec fn chosen_text(new: Option<String>, stored: Option<Seq<char>>) -> Seq<char> {
    match new {
        Some(v) => v@,
        None => match stored {
            Some(v) => v,
            None => Seq::empty(),
        },
    }
}

fn pick_text(new: &Option<String>, stored: Option<&String>) -> (r: String)
    ensures
        r@ == chosen_text(*new, match stored { Some(s) => Some(s@), None => None }),
{
    match new {
        Some(v) => v.clone(),
        None => match stored {
            Some(s) => s.clone(),
            None => String::new(),
        },
    }
}

/// The SMTP configuration after `req` is applied at `now`: each field takes
/// the requested value, else the stored one, else its default (no text,
/// port 587, TLS on). The stored configuration keeps its id and creation
/// time; a new one gets `new_id` and is created at `now`. It is updated at
/// `now`.
pub fn merge_smtp_config(existing: Option<&SmtpConfig>, req: &UpdateSmtpConfigRequest, new_id: String, now: String) -> (r: SmtpConfig)
    ensures
        r.id@ == match existing { Some(c) => c.id@, None => new_id@ },
        r.host@ == chosen_text(req.host, match existing { Some(c) => Some(c.host@), None => None }),
        r.port == chosen(req.port, match existing { Some(c) => Some(c.port), None => None }, 587i32),
        r.username@ == chosen_text(req.username, match existing { Some(c) => Some(c.username@), None => None }),
        r.password@ == chosen_text(req.password, match existing { Some(c) => Some(c.password@), None => None }),
        r.from_email@ == chosen_text(req.from_email, match existing { Some(c) => Some(c.from_email@), None => None }),
        r.use_tls == chosen(req.use_tls, match existing { Some(c) => Some(c.use_tls), None => None }, true),
        r.created_at@ == match existing { Some(c) => c.created_at@, None => now@ },
        r.updated_at@ == now@,
{
    let id = match existing {
        Some(c) => c.id.clone(),
        None => new_id,
    };
    let host = pick_text(&req.host, match existing { Some(c) => Some(&c.host), None => None });
    let port = match req.port {
        Some(p) => p,
        None => match existing {
            Some(c) => c.port,
            None => 587,
        },
    };
    let username = pick_text(&req.username, match existing { Some(c) => Some(&c.username), None => None });
    let password = pick_text(&req.password, match existing { Some(c) => Some(&c.password), None => None });
    let from_email = pick_text(&req.from_email, match existing { Some(c) => Some(&c.from_email), None => None });
    let use_tls = match req.use_tls {
        Some(t) => t,
        None => match existing {
            Some(c) => c.use_tls,
            None => true,
        },
    };
    let created_at = match existing {
        Some(c) => c.created_at.clone(),
        None => now.clone(),
    };
    SmtpConfig { id, host, port, username, password, from_email, use_tls, created_at, updated_at: now }
}

/// What is shown of an SMTP configuration: no id, user name or password.
pub fn smtp_response(c: &SmtpConfig) -> (r: SmtpConfigResponse)
    ensures
        r.host@ == c.host@,
        r.port == c.port,
        r.from_email@ == c.from_email@,
        r.use_tls == c.use_tls,
        r.created_at@ == c.created_at@,
        r.updated_at@ == c.updated_at@,
{
    SmtpConfigResponse {
        host: c.host.clone(),
        port: c.port,
        from_email: c.from_email.clone(),
        use_tls: c.use_tls,
        created_at: c.created_at.clone(),
        updated_at: c.updated_at.clone(),
    }
}

/// The cluster environment a request describes, active, with the given id
/// and times: no description is empty, no replication factor is 3.
pub fn cluster_environment_response(id: String, req: &ClusterEnvironmentRequest, created_at: String, updated_at: String) -> (r: ClusterEnvironmentResponse)
    ensures
        r.id == id,
        r.name@ == req.name@,
        r.description@ == match req.description { Some(d) => d@, None => Seq::empty() },
        r.region@ == req.region@,
        string_views(r.broker_addresses@) == string_views(req.broker_addresses@),
        r.replication_factor == match req.replication_factor { Some(f) => f, None => 3 },
        r.status@ == "active"@,
        r.created_at == created_at,
        r.updated_at == updated_at,
{
    ClusterEnvironmentResponse {
        id,
        name: req.name.clone(),
        description: match &req.description {
            Some(d) => d.clone(),
            None => String::new(),
        },
        region: req.region.clone(),
        broker_addresses: clone_strings(&req.broker_addresses),
        replication_factor: match req.replication_factor {
            Some(f) => f,
            None => 3,
        },
        status: owned("active"),
        created_at,
        updated_at,
    }
}

/// The error answered for a failed insert of a cluster environment: a
/// conflict when the database reports a uniqueness violation, a database
/// error with its message otherwise.
pub fn cluster_insert_error(db_message: &str) -> (r: AdminApiError)
    ensures
        contains_seq(db_message@, "UNIQUE"@) ==> (r matches AdminApiError::Conflict(m) && m@ == "Cluster name already exists"@),
        !contains_seq(db_message@, "UNIQUE"@) ==> (r matches AdminApiError::DatabaseError(m) && m@ == db_message@),
{
    if contains_str(db_message, "UNIQUE") {
        AdminApiError::Conflict(owned("Cluster name already exists"))
    } else {
        AdminApiError::DatabaseError(owned(db_message))
    }
}

/// The notification settings a request gives an event type, under `id` and
/// created at `created_at` (empty when an existing entry was updated).
pub fn notification_settings_response(id: String, req: &NotificationSettingsRequest, created_at: String) -> (r: NotificationSettingsResponse)
    ensures
        r.id == id,
        r.event_type@ == req.event_type@,
        r.enabled == req.enabled,
        r.recipient_email@ == req.recipient_email@,
        string_views(r.notification_channels@) == string_views(req.notification_channels@),
        r.created_at == created_at,
{
    NotificationSettingsResponse {
        id,
        event_type: req.event_type.clone(),
        enabled: req.enabled,
        recipient_email: req.recipient_email.clone(),
        notification_channels: clone_strings(&req.notification_channels),
        created_at,
    }
}

/// A stored notification event as returned: the same fields.
pub fn notification_event_response(e: NotificationEvent) -> (r: NotificationEventResponse)
    ensures
        r.event_id == e.event_id,
        r.event_type == e.event_type,
        r.title == e.title,
        r.description == e.description,
        r.severity == e.severity,
        r.created_at == e.created_at,
{
    NotificationEventResponse {
        event_id: e.event_id,
        event_type: e.event_type,
        title: e.title,
        description: e.description,
        severity: e.severity,
        created_at: e.created_at,
    }
}

/// The system configuration a request sets at `now`: the requested values,
/// else the broker URL the server runs with, 3 brokers, a replication factor
/// of 3 and the "info" log level. Its id is "default"; the creation time is
/// not known here and is left empty.
pub fn system_config_update(req: &SystemConfigRequest, server_broker_url: &String, now: String) -> (r: SystemConfig)
    ensures
        r.id@ == "default"@,
        r.broker_url@ == match req.broker_url { Some(u) => u@, None => server_broker_url@ },
        r.max_brokers == match req.max_brokers { Some(n) => n, None => 3 },
        r.replication_factor == match req.replication_factor { Some(n) => n, None => 3 },
        r.log_level@ == match req.log_level { Some(l) => l@, None => "info"@ },
        r.created_at@ == Seq::<char>::empty(),
        r.updated_at == now,
{
    SystemConfig {
        id: owned("default"),
        broker_url: match &req.broker_url {
            Some(u) => u.clone(),
            None => server_broker_url.clone(),
        },
        max_brokers: match req.max_brokers {
            Some(n) => n,
            None => 3,
        },
        replication_factor: match req.replication_factor {
            Some(n) => n,
            None => 3,
        },
        log_level: match &req.log_level {
            Some(l) => l.clone(),
            None => owned("info"),
        },
        created_at: String::new(),
        updated_at: now,
    }
}

} // verus!
