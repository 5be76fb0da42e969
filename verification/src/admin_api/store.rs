//! Where the admin API keeps tenants and their secrets: one JSON file each.
use vstd::prelude::*;
use crate::text::{concat, push_str};

verus! {

/// The directory holding the tenant files.
pub const TENANTS_DIR: &'static str = "tenants";

/// A tenant as kept on disk.
#[derive(Debug, Clone)]
pub struct TenantData {
    pub tenant_id: String,
    pub name: String,
    pub email: String,
    pub api_key: String,
    pub status: String,
    pub max_message_size: i32,
    pub rate_limit_rps: i32,
    pub max_connections: i32,
    pub retention_days: i32,
    pub created_at: String,
    pub updated_at: String,
}

/// A tenant secret as kept on disk.
#[derive(Debug, Clone)]
pub struct SecretData {
    pub secret_id: String,
    pub tenant_id: String,
    pub secret_key: String,
    pub secret_value: String,
    pub created_at: String,
    pub updated_at: String,
}

/// The file of tenant `tenant_id`: `tenants/<tenant_id>.json`.
pub fn tenant_file(tenant_id: &str) -> (r: String)
    ensures
        r@ == "tenants/"@ + tenant_id@ + ".json"@,
{
    let mut s = concat("tenants/", tenant_id);
    push_str(&mut s, ".json");
    s
}

/// The directory of the secrets of tenant `tenant_id`:
/// `tenants/<tenant_id>/.secrets`.
pub fn secret_dir(tenant_id: &str) -> (r: String)
    ensures
        r@ == "tenants/"@ + tenant_id@ + "/.secrets"@,
{
    let mut s = concat("tenants/", tenant_id);
    push_str(&mut s, "/.secrets");
    s
}

/// The file of secret `secret_id` of tenant `tenant_id`:
/// `tenants/<tenant_id>/.secrets/<secret_id>.json`.
pub fn secret_file(tenant_id: &str, secret_id: &str) -> (r: String)
    ensures
        r@ == "tenants/"@ + tenant_id@ + "/.secrets"@ + "/"@ + secret_id@ + ".json"@,
{
    let mut s = secret_dir(tenant_id);
    push_str(&mut s, "/");
    push_str(&mut s, secret_id);
    push_str(&mut s, ".json");
    s
}

} // verus!
