//! The decisions of the admin endpoints: which log kind a query asks for,
//! how many entries it may see, and what a tenant update changes. The HTTP
//! answers are written by the caller.
use vstd::prelude::*;
use crate::config::tenant::TenantConfig;
use crate::config::app_settings::AppSettings;
use crate::text::{concat, push_str, str_eq};
use super::logs::LogType;

verus! {

/// A change to a tenant's limits.
#[derive(Debug, Clone)]
pub struct UpdateTenantRequest {
    pub rate_limit_rps: Option<u32>,
    pub max_connections: Option<usize>,
    pub max_message_size: Option<u64>,
    pub retention_days: Option<u32>,
    pub enabled: Option<bool>,
}

/// The health answer.
#[derive(Debug, Clone)]
pub struct HealthResponse {
    pub status: String,
    pub timestamp: String,
    pub version: String,
    pub total_tenants: usize,
}

/// A logs query: the kind of entries and how many.
#[derive(Debug, Clone)]
pub struct LogsQuery {
    pub log_type: Option<String>,
    pub limit: Option<usize>,
}

/// A query for at most `limit` entries.
#[derive(Debug, Clone)]
pub struct PaginationQuery {
    pub limit: Option<usize>,
}

/// The kind a log query names; none for an absent or unknown name.
pub open spec fn named_log_type(name: Option<Seq<char>>) -> Option<LogType> {
    match name {
        Some(n) => if n == "request"@ {
            Some(LogType::Request)
        } else if n == "error"@ {
            Some(LogType::Error)
        } else if n == "rate_limit"@ {
            Some(LogType::RateLimit)
        } else if n == "auth_failure"@ {
            Some(LogType::AuthFailure)
        } else if n == "system"@ {
            Some(LogType::System)
        } else {
            None
        },
        None => None,
    }
}

/// The kind of entries a log query asks for.
pub fn log_type_filter(name: Option<&str>) -> (r: Option<LogType>)
    ensures
        r == named_log_type(match name { Some(n) => Some(n@), None => None }),
{
    match name {
        Some(n) => {
            if str_eq(n, "request") {
                Some(LogType::Request)
            } else if str_eq(n, "error") {
                Some(LogType::Error)
            } else if str_eq(n, "rate_limit") {
                Some(LogType::RateLimit)
            } else if str_eq(n, "auth_failure") {
                Some(LogType::AuthFailure)
            } else if str_eq(n, "system") {
                Some(LogType::System)
            } else {
                None
            }
        },
        None => None,
    }
}

/// How many entries a query may see: 100 by default, 10000 at most.
pub fn page_limit(limit: Option<usize>) -> (r: usize)
    ensures
        r == match limit {
            Some(l) => if l < 10000 { l } else { 10000 },
            None => 100,
        },
{
    let l = match limit {
        Some(l) => l,
        None => 100,
    };
    if l < 10000 { l } else { 10000 }
}

/// A tenant's limits after an update.
#[derive(Debug, Clone)]
pub struct TenantUpdate {
    pub tenant_id: String,
    pub rate_limit_rps: u32,
    pub max_connections: usize,
    pub max_message_size: u64,
    pub retention_days: u32,
    pub enabled: bool,
}

/// A field's new value, or its old one when the update leaves it.
pub open spec fn updated<T>(new: Option<T>, old: T) -> T {
    match new {
        Some(v) => v,
        None => old,
    }
}

/// The tenant's limits with the update's fields applied.
pub fn apply_tenant_update(t: &TenantConfig, req: &UpdateTenantRequest) -> (r: TenantUpdate)
    ensures
        r.tenant_id@ == t.tenant_id@,
        r.rate_limit_rps == updated(req.rate_limit_rps, t.rate_limit_rps),
        r.max_connections == updated(req.max_connections, t.max_connections),
        r.max_message_size == updated(req.max_message_size, t.max_message_size),
        r.retention_days == updated(req.retention_days, t.retention_days),
        r.enabled == updated(req.enabled, t.enabled),
{
    TenantUpdate {
        tenant_id: t.tenant_id.clone(),
        rate_limit_rps: match req.rate_limit_rps { Some(v) => v, None => t.rate_limit_rps },
        max_connections: match req.max_connections { Some(v) => v, None => t.max_connections },
        max_message_size: match req.max_message_size { Some(v) => v, None => t.max_message_size },
        retention_days: match req.retention_days { Some(v) => v, None => t.retention_days },
        enabled: match req.enabled { Some(v) => v, None => t.enabled },
    }
}

/// PUT /api/admin/tenants/{tenant_id}: the update's confirmation and the
/// tenant's new limits, or "Tenant '<id>' not found". The settings are not
/// changed.
pub fn update_tenant(settings: &AppSettings, tenant_id: &str, req: &UpdateTenantRequest) -> (r: Result<(String, TenantUpdate), String>)
    ensures
        (r is Ok) == crate::config::app_settings::has_tenant_id(settings.tenants@, tenant_id@),
        r matches Err(e) ==> e@ == "Tenant '"@ + tenant_id@ + "' not found"@,
        r matches Ok((m, u)) ==> m@ == "Tenant '"@ + tenant_id@ + "' updated successfully"@
            && exists|i: int| 0 <= i < settings.tenants@.len() && #[trigger] settings.tenants@[i].tenant_id@ == tenant_id@
                && (forall|j: int| 0 <= j < i ==> (#[trigger] settings.tenants@[j]).tenant_id@ != tenant_id@)
                && u.tenant_id@ == settings.tenants@[i].tenant_id@
                && u.rate_limit_rps == updated(req.rate_limit_rps, settings.tenants@[i].rate_limit_rps)
                && u.max_connections == updated(req.max_connections, settings.tenants@[i].max_connections)
                && u.max_message_size == updated(req.max_message_size, settings.tenants@[i].max_message_size)
                && u.retention_days == updated(req.retention_days, settings.tenants@[i].retention_days)
                && u.enabled == updated(req.enabled, settings.tenants@[i].enabled),
{
    match settings.get_tenant(tenant_id) {
        Some(t) => {
            let u = apply_tenant_update(t, req);
            let mut m = concat("Tenant '", tenant_id);
            push_str(&mut m, "' updated successfully");
            Ok((m, u))
        },
        None => {
            let mut e = concat("Tenant '", tenant_id);
            push_str(&mut e, "' not found");
            Err(e)
        },
    }
}

} // verus!
