//! The tenant records the admin API keeps: how a new record is made from a
//! request, and how changes and limit resets apply to one.
use vstd::prelude::*;
use crate::clock;
use crate::text::{concat, owned};
use super::store::{SecretData, TenantData};

verus! {

/// The fields a request to create a tenant may give.
#[derive(Debug, Clone)]
pub struct NewTenantFields {
    pub name: Option<String>,
    pub email: Option<String>,
    pub max_message_size: Option<i64>,
    pub rate_limit_rps: Option<i64>,
    pub max_connections: Option<i64>,
    pub retention_days: Option<i64>,
}

/// Changes to a tenant's name, email or status.
#[derive(Debug, Clone)]
pub struct TenantChanges {
    pub name: Option<String>,
    pub email: Option<String>,
    pub status: Option<String>,
}

/// Changes to a tenant's limits.
#[derive(Debug, Clone)]
pub struct LimitChanges {
    pub rate_limit_rps: Option<i64>,
    pub max_connections: Option<i64>,
    pub max_message_size: Option<i64>,
    pub retention_days: Option<i64>,
}

/// The default message size limit: 10 MiB.
pub const DEFAULT_MAX_MESSAGE_SIZE: i64 = 10485760;
/// The default request rate limit.
pub const DEFAULT_RATE_LIMIT_RPS: i64 = 1000;
/// The default connection limit.
pub const DEFAULT_MAX_CONNECTIONS: i64 = 100;
/// The default retention, in days.
pub const DEFAULT_RETENTION_DAYS: i64 = 30;

/// A requested number, or the default; kept as a 32-bit number (the low
/// 32 bits, as a cast keeps them).
pub open spec fn limit_or(v: Option<i64>, default: i64) -> i32 {
    (match v {
        Some(x) => x,
        None => default,
    }) as i32
}

/// A requested text, or none.
pub open spec fn text_or_empty(v: Option<String>) -> Seq<char> {
    match v {
        Some(s) => s@,
        None => Seq::empty(),
    }
}

fn limit_value(v: Option<i64>, default: i64) -> (r: i32)
    ensures
        r == limit_or(v, default),
{
    let x = match v {
        Some(x) => x,
        None => default,
    };
    #[verifier::truncate]
    (x as i32)
}

fn text_value(v: &Option<String>) -> (r: String)
    ensures
        r@ == text_or_empty(*v),
{
    match v {
        Some(s) => s.clone(),
        None => String::new(),
    }
}

/// The id of a new tenant: `tenant_<random id>`.
pub fn tenant_id_for(random_id: &str) -> (r: String)
    ensures
        r@ == "tenant_"@ + random_id@,
{
    concat("tenant_", random_id)
}

/// A new active tenant from a request, created at `now`: the name and email
/// given (else empty), the limits given (else the defaults), its id and API
/// key as passed.
pub fn new_tenant_record(tenant_id: String, api_key: String, now: String, fields: &NewTenantFields) -> (r: TenantData)
    ensures
        r.tenant_id == tenant_id,
        r.api_key == api_key,
        r.name@ == text_or_empty(fields.name),
        r.email@ == text_or_empty(fields.email),
        r.status@ == "active"@,
        r.max_message_size == limit_or(fields.max_message_size, DEFAULT_MAX_MESSAGE_SIZE),
        r.rate_limit_rps == limit_or(fields.rate_limit_rps, DEFAULT_RATE_LIMIT_RPS),
        r.max_connections == limit_or(fields.max_connections, DEFAULT_MAX_CONNECTIONS),
        r.retention_days == limit_or(fields.retention_days, DEFAULT_RETENTION_DAYS),
        r.created_at@ == now@,
        r.updated_at@ == now@,
{
    TenantData {
        tenant_id,
        name: text_value(&fields.name),
        email: text_value(&fields.email),
        api_key,
        status: owned("active"),
        max_message_size: limit_value(fields.max_message_size, DEFAULT_MAX_MESSAGE_SIZE),
        rate_limit_rps: limit_value(fields.rate_limit_rps, DEFAULT_RATE_LIMIT_RPS),
        max_connections: limit_value(fields.max_connections, DEFAULT_MAX_CONNECTIONS),
        retention_days: limit_value(fields.retention_days, DEFAULT_RETENTION_DAYS),
        created_at: now.clone(),
        updated_at: now,
    }
}

/// A new tenant with a fresh random id and API key, created now.
pub fn create_tenant_record(fields: &NewTenantFields) -> (r: TenantData)
    ensures
        r.name@ == text_or_empty(fields.name),
        r.email@ == text_or_empty(fields.email),
        r.status@ == "active"@,
        r.max_message_size == limit_or(fields.max_message_size, DEFAULT_MAX_MESSAGE_SIZE),
        r.rate_limit_rps == limit_or(fields.rate_limit_rps, DEFAULT_RATE_LIMIT_RPS),
        r.max_connections == limit_or(fields.max_connections, DEFAULT_MAX_CONNECTIONS),
        r.retention_days == limit_or(fields.retention_days, DEFAULT_RETENTION_DAYS),
        exists|id: Seq<char>| id.len() == 36 && r.tenant_id@ == "tenant_"@ + id,
        r.api_key@.len() == 36,
        r.created_at@ == r.updated_at@,
{
    let id = clock::new_uuid_string();
    let tenant_id = tenant_id_for(id.as_str());
    let api_key = clock::new_uuid_string();
    let now = clock::utc_rfc3339();
    new_tenant_record(tenant_id, api_key, now, fields)
}

/// The tenant after the given name, email and status changes, updated at
/// `now`; the rest is kept.
pub fn apply_tenant_changes(t: TenantData, changes: &TenantChanges, now: String) -> (r: TenantData)
    ensures
        r.name@ == match changes.name { Some(n) => n@, None => t.name@ },
        r.email@ == match changes.email { Some(e) => e@, None => t.email@ },
        r.status@ == match changes.status { Some(s) => s@, None => t.status@ },
        r.updated_at == now,
        r.tenant_id == t.tenant_id && r.api_key == t.api_key && r.created_at == t.created_at,
        r.max_message_size == t.max_message_size && r.rate_limit_rps == t.rate_limit_rps,
        r.max_connections == t.max_connections && r.retention_days == t.retention_days,
{
    let mut r = t;
    match &changes.name {
        Some(n) => { r.name = n.clone(); },
        None => {},
    }
    match &changes.email {
        Some(e) => { r.email = e.clone(); },
        None => {},
    }
    match &changes.status {
        Some(s) => { r.status = s.clone(); },
        None => {},
    }
    r.updated_at = now;
    r
}

/// The tenant after the given limit changes (each kept as its low 32 bits),
/// updated at `now`; the rest is kept.
pub fn apply_limit_changes(t: TenantData, changes: &LimitChanges, now: String) -> (r: TenantData)
    ensures
        r.rate_limit_rps == match changes.rate_limit_rps { Some(v) => v as i32, None => t.rate_limit_rps },
        r.max_connections == match changes.max_connections { Some(v) => v as i32, None => t.max_connections },
        r.max_message_size == match changes.max_message_size { Some(v) => v as i32, None => t.max_message_size },
        r.retention_days == match changes.retention_days { Some(v) => v as i32, None => t.retention_days },
        r.updated_at == now,
        r.tenant_id == t.tenant_id && r.api_key == t.api_key && r.created_at == t.created_at,
        r.name == t.name && r.email == t.email && r.status == t.status,
{
    let mut r = t;
    match changes.rate_limit_rps {
        Some(v) => { r.rate_limit_rps = limit_value(Some(v), 0); },
        None => {},
    }
    match changes.max_connections {
        Some(v) => { r.max_connections = limit_value(Some(v), 0); },
        None => {},
    }
    match changes.max_message_size {
        Some(v) => { r.max_message_size = limit_value(Some(v), 0); },
        None => {},
    }
    match changes.retention_days {
        Some(v) => { r.retention_days = limit_value(Some(v), 0); },
        None => {},
    }
    r.updated_at = now;
    r
}

/// The tenant with every limit back at its default, updated at `now`.
pub fn reset_limits(t: TenantData, now: String) -> (r: TenantData)
    ensures
        r.max_message_size == DEFAULT_MAX_MESSAGE_SIZE,
        r.rate_limit_rps == DEFAULT_RATE_LIMIT_RPS,
        r.max_connections == DEFAULT_MAX_CONNECTIONS,
        r.retention_days == DEFAULT_RETENTION_DAYS,
        r.updated_at == now,
        r.tenant_id == t.tenant_id && r.api_key == t.api_key && r.created_at == t.created_at,
        r.name == t.name && r.email == t.email && r.status == t.status,
{
    let mut r = t;
    r.max_message_size = 10485760;
    r.rate_limit_rps = 1000;
    r.max_connections = 100;
    r.retention_days = 30;
    r.updated_at = now;
    r
}

/// A secret of a tenant, created and updated at `now`: the key and value
/// given (else empty).
pub fn new_secret_record(secret_id: String, tenant_id: String, key: &Option<String>, value: &Option<String>, now: String) -> (r: SecretData)
    ensures
        r.secret_id == secret_id,
        r.tenant_id == tenant_id,
        r.secret_key@ == text_or_empty(*key),
        r.secret_value@ == text_or_empty(*value),
        r.created_at@ == now@,
        r.updated_at@ == now@,
{
    SecretData {
        secret_id,
        tenant_id,
        secret_key: text_value(key),
        secret_value: text_value(value),
        created_at: now.clone(),
        updated_at: now,
    }
}

} // verus!
