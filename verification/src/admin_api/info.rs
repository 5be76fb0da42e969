//! The admin API's self-description.
use vstd::prelude::*;
use crate::text::owned;
use super::models::{ApiInfo, EndpointInfo};

verus! {

/// Path, method and description of each endpoint the admin API lists, in
/// order; none of them asks for authentication.
pub open spec fn api_endpoints() -> Seq<(Seq<char>, Seq<char>, Seq<char>)> {
    seq![
        ("/health"@, "GET"@, "Basic health check"@),
        ("/health/detailed"@, "GET"@, "Detailed health status with metrics"@),
        ("/api/v1/system/config"@, "GET"@, "Get system configuration"@),
        ("/api/v1/system/config"@, "PUT"@, "Update system configuration"@),
        ("/api/v1/cluster/environments"@, "GET"@, "List all cluster environments"@),
        ("/api/v1/cluster/environments"@, "POST"@, "Create new cluster environment"@),
        ("/api/v1/cluster/environments/{id}"@, "GET"@, "Get specific cluster environment"@),
        ("/api/v1/cluster/environments/{id}"@, "PUT"@, "Update cluster environment"@),
        ("/api/v1/cluster/environments/{id}"@, "DELETE"@, "Delete cluster environment"@),
        ("/api/v1/tenants"@, "GET"@, "List all tenants"@),
        ("/api/v1/tenants"@, "POST"@, "Create new tenant"@),
        ("/api/v1/tenants/{tenant_id}"@, "GET"@, "Get tenant details"@),
        ("/api/v1/tenants/{tenant_id}"@, "PUT"@, "Update tenant"@),
        ("/api/v1/tenants/{tenant_id}"@, "DELETE"@, "Delete tenant"@),
        ("/api/v1/tenants/{tenant_id}/secrets"@, "GET"@, "Get tenant secrets"@),
        ("/api/v1/tenants/{tenant_id}/secrets"@, "POST"@, "Create tenant secret"@),
        ("/api/v1/tenants/{tenant_id}/secrets"@, "PUT"@, "Update tenant secret"@),
        ("/api/v1/tenants/{tenant_id}/secrets/{secret_id}"@, "DELETE"@, "Delete tenant secret"@),
        ("/api/v1/tenants/{tenant_id}/usage"@, "GET"@, "Get tenant usage statistics"@),
        ("/api/v1/tenants/{tenant_id}/limits"@, "GET"@, "Get tenant limits"@),
        ("/api/v1/tenants/{tenant_id}/limits"@, "PUT"@, "Update tenant limits"@),
        ("/api/v1/tenants/{tenant_id}/limits/reset"@, "POST"@, "Reset tenant limits to defaults"@),
        ("/api/v1/notifications/smtp"@, "GET"@, "Get SMTP configuration"@),
        ("/api/v1/notifications/smtp"@, "PUT"@, "Update SMTP configuration"@),
        ("/api/v1/notifications/smtp/test"@, "POST"@, "Test SMTP connection"@),
        ("/api/v1/notifications/settings"@, "GET"@, "Get notification settings"@),
        ("/api/v1/notifications/settings"@, "PUT"@, "Update notification settings"@),
        ("/api/v1/notifications/events"@, "GET"@, "List notification events"@),
        ("/api/v1/notifications/events/{event_id}"@, "GET"@, "Get specific notification event"@)
    ]
}

/// Path, method and description of an endpoint.
pub open spec fn endpoint_view(e: EndpointInfo) -> (Seq<char>, Seq<char>, Seq<char>) {
    (e.path@, e.method@, e.description@)
}

/// The views of a list of endpoints.
pub open spec fn endpoint_views(s: Seq<EndpointInfo>) -> Seq<(Seq<char>, Seq<char>, Seq<char>)> {
    s.map_values(|e: EndpointInfo| endpoint_view(e))
}

fn endpoint(path: &str, method: &str, description: &str) -> (r: EndpointInfo)
    ensures
        endpoint_view(r) == (path@, method@, description@),
        !r.authentication,
{
    EndpointInfo { path: owned(path), method: owned(method), description: owned(description), authentication: false }
}

/// The admin API's name, version, description, endpoints and documentation
/// link.
pub fn api_info() -> (r: ApiInfo)
    ensures
        r.name@ == "FastDataBroker Admin API"@,
        r.version@ == "0.1.0"@,
        r.description@ == "Lightweight REST API for managing FastDataBroker configuration, tenants, and system health"@,
        endpoint_views(r.endpoints@) == api_endpoints(),
        forall|i: int| 0 <= i < r.endpoints@.len() ==> !(#[trigger] r.endpoints@[i]).authentication,
        r.documentation@ == "https://github.com/suraj202923/fastdatabroker/docs/admin-api"@,
{
    let mut v: Vec<EndpointInfo> = Vec::new();
    v.push(endpoint("/health", "GET", "Basic health check"));
    v.push(endpoint("/health/detailed", "GET", "Detailed health status with metrics"));
    v.push(endpoint("/api/v1/system/config", "GET", "Get system configuration"));
    v.push(endpoint("/api/v1/system/config", "PUT", "Update system configuration"));
    v.push(endpoint("/api/v1/cluster/environments", "GET", "List all cluster environments"));
    v.push(endpoint("/api/v1/cluster/environments", "POST", "Create new cluster environment"));
    v.push(endpoint("/api/v1/cluster/environments/{id}", "GET", "Get specific cluster environment"));
    v.push(endpoint("/api/v1/cluster/environments/{id}", "PUT", "Update cluster environment"));
    v.push(endpoint("/api/v1/cluster/environments/{id}", "DELETE", "Delete cluster environment"));
    v.push(endpoint("/api/v1/tenants", "GET", "List all tenants"));
    v.push(endpoint("/api/v1/tenants", "POST", "Create new tenant"));
    v.push(endpoint("/api/v1/tenants/{tenant_id}", "GET", "Get tenant details"));
    v.push(endpoint("/api/v1/tenants/{tenant_id}", "PUT", "Update tenant"));
    v.push(endpoint("/api/v1/tenants/{tenant_id}", "DELETE", "Delete tenant"));
    v.push(endpoint("/api/v1/tenants/{tenant_id}/secrets", "GET", "Get tenant secrets"));
    v.push(endpoint("/api/v1/tenants/{tenant_id}/secrets", "POST", "Create tenant secret"));
    v.push(endpoint("/api/v1/tenants/{tenant_id}/secrets", "PUT", "Update tenant secret"));
    v.push(endpoint("/api/v1/tenants/{tenant_id}/secrets/{secret_id}", "DELETE", "Delete tenant secret"));
    v.push(endpoint("/api/v1/tenants/{tenant_id}/usage", "GET", "Get tenant usage statistics"));
    v.push(endpoint("/api/v1/tenants/{tenant_id}/limits", "GET", "Get tenant limits"));
    v.push(endpoint("/api/v1/tenants/{tenant_id}/limits", "PUT", "Update tenant limits"));
    v.push(endpoint("/api/v1/tenants/{tenant_id}/limits/reset", "POST", "Reset tenant limits to defaults"));
    v.push(endpoint("/api/v1/notifications/smtp", "GET", "Get SMTP configuration"));
    v.push(endpoint("/api/v1/notifications/smtp", "PUT", "Update SMTP configuration"));
    v.push(endpoint("/api/v1/notifications/smtp/test", "POST", "Test SMTP connection"));
    v.push(endpoint("/api/v1/notifications/settings", "GET", "Get notification settings"));
    v.push(endpoint("/api/v1/notifications/settings", "PUT", "Update notification settings"));
    v.push(endpoint("/api/v1/notifications/events", "GET", "List notification events"));
    v.push(endpoint("/api/v1/notifications/events/{event_id}", "GET", "Get specific notification event"));
    assert(endpoint_views(v@) =~= api_endpoints());
    ApiInfo {
        name: owned("FastDataBroker Admin API"),
        version: owned("0.1.0"),
        description: owned("Lightweight REST API for managing FastDataBroker configuration, tenants, and system health"),
        endpoints: v,
        documentation: owned("https://github.com/suraj202923/fastdatabroker/docs/admin-api"),
    }
}

} // verus!
