//! Tenant configuration: each tenant has isolated queues, API keys and rate
//! limits.
use vstd::prelude::*;
use crate::string_map::StringMap;
use crate::clock;
use crate::text::{append_char, chars_of, ends_with_char, owned, push_str, str_eq};

verus! {

/// Feature flags for a tenant.
#[derive(Debug, Clone)]
pub struct TenantFeatures {
    /// Allow priority queue usage
    pub priority_queue: bool,
    /// Allow scheduled/delayed messages
    pub scheduled_messages: bool,
    /// Allow message routing/topics
    pub routing: bool,
    /// Allow webhooks for delivery
    pub webhooks: bool,
    /// Allow clustering/distribution
    pub clustering: bool,
    /// Allow metrics export
    pub metrics: bool,
    /// Allow persistence
    pub persistence: bool,
}

impl Default for TenantFeatures {
    /// Everything enabled but clustering.
    fn default() -> (r: TenantFeatures)
        ensures
            r.priority_queue && r.scheduled_messages && r.routing && r.webhooks && !r.clustering && r.metrics && r.persistence,
    {
        TenantFeatures {
            priority_queue: true,
            scheduled_messages: true,
            routing: true,
            webhooks: true,
            clustering: false,
            metrics: true,
            persistence: true,
        }
    }
}

/// Tenant configuration.
#[derive(Debug, Clone)]
pub struct TenantConfig {
    /// Unique tenant identifier (e.g., "acme-corp", "startup-xyz")
    pub tenant_id: String,
    /// Human-readable tenant name
    pub tenant_name: String,
    /// Tenant description
    pub description: Option<String>,
    /// API key prefix for tenant (e.g., "sk_prod_tenant1_")
    pub api_key_prefix: String,
    /// Rate limit per tenant (requests/second)
    pub rate_limit_rps: u32,
    /// Max concurrent connections for this tenant
    pub max_connections: usize,
    /// Max message size in bytes (e.g., 1MB = 1_048_576)
    pub max_message_size: u64,
    /// Data retention period in days
    pub retention_days: u32,
    /// Enabled features for this tenant
    pub features: TenantFeatures,
    /// Custom metadata
    pub metadata: StringMap,
    /// Is tenant active/enabled
    pub enabled: bool,
}

/// The value a tenant gets for `enabled` when its configuration omits it.
pub fn default_enabled() -> (r: bool)
    ensures
        r,
{
    true
}

/// The message of the first check that a tenant configuration fails, in the
/// order the checks are made; `None` when it passes them all.
pub open spec fn tenant_config_error(c: TenantConfig) -> Option<Seq<char>> {
    if c.tenant_id@.len() == 0 {
        Some("tenant_id cannot be empty"@)
    } else if c.tenant_name@.len() == 0 {
        Some("tenant_name cannot be empty"@)
    } else if c.api_key_prefix@.len() == 0 {
        Some("api_key_prefix cannot be empty"@)
    } else if c.api_key_prefix@.last() != '_' {
        Some("api_key_prefix should end with '_'"@)
    } else if c.rate_limit_rps == 0 {
        Some("rate_limit_rps must be greater than 0"@)
    } else if c.max_connections == 0 {
        Some("max_connections must be greater than 0"@)
    } else if c.max_message_size == 0 {
        Some("max_message_size must be greater than 0"@)
    } else if c.retention_days == 0 {
        Some("retention_days must be greater than 0"@)
    } else {
        None
    }
}

/// Whether the named feature is on in `f`; unknown names are off.
pub open spec fn feature_on(f: TenantFeatures, name: Seq<char>) -> bool {
    if name == "priority_queue"@ {
        f.priority_queue
    } else if name == "scheduled_messages"@ {
        f.scheduled_messages
    } else if name == "routing"@ {
        f.routing
    } else if name == "webhooks"@ {
        f.webhooks
    } else if name == "clustering"@ {
        f.clustering
    } else if name == "metrics"@ {
        f.metrics
    } else if name == "persistence"@ {
        f.persistence
    } else {
        false
    }
}

impl TenantConfig {
    /// A new tenant with the given ID, name and key prefix: no description,
    /// 1000 requests per second, 100 connections, 1 MiB messages, 7 days of
    /// retention, default features, no metadata, enabled.
    pub fn new(tenant_id: &str, tenant_name: &str, api_key_prefix: &str) -> (r: Self)
        ensures
            r.tenant_id@ == tenant_id@,
            r.tenant_name@ == tenant_name@,
            r.description is None,
            r.api_key_prefix@ == api_key_prefix@,
            r.rate_limit_rps == 1000,
            r.max_connections == 100,
            r.max_message_size == 1_048_576,
            r.retention_days == 7,
            r.features.priority_queue && r.features.scheduled_messages && r.features.routing && r.features.webhooks
                && !r.features.clustering && r.features.metrics && r.features.persistence,
            r.metadata.view() == Map::<Seq<char>, Seq<char>>::empty(),
            r.enabled,
    {
        TenantConfig {
            tenant_id: owned(tenant_id),
            tenant_name: owned(tenant_name),
            description: None,
            api_key_prefix: owned(api_key_prefix),
            rate_limit_rps: 1000,
            max_connections: 100,
            max_message_size: 1_048_576,
            retention_days: 7,
            features: TenantFeatures::default(),
            metadata: StringMap::new(),
            enabled: true,
        }
    }

    /// Validate the tenant configuration: the message of the first failed
    /// check, or `Ok`.
    pub fn validate(&self) -> (r: Result<(), String>)
        ensures
            r is Ok <==> tenant_config_error(*self) is None,
            r matches Err(e) ==> tenant_config_error(*self) == Some(e@),
    {
        if self.tenant_id.as_str().is_empty() {
            return Err(owned("tenant_id cannot be empty"));
        }
        if self.tenant_name.as_str().is_empty() {
            return Err(owned("tenant_name cannot be empty"));
        }
        if self.api_key_prefix.as_str().is_empty() {
            return Err(owned("api_key_prefix cannot be empty"));
        }
        if !ends_with_char(self.api_key_prefix.as_str(), '_') {
            return Err(owned("api_key_prefix should end with '_'"));
        }
        if self.rate_limit_rps == 0 {
            return Err(owned("rate_limit_rps must be greater than 0"));
        }
        if self.max_connections == 0 {
            return Err(owned("max_connections must be greater than 0"));
        }
        if self.max_message_size == 0 {
            return Err(owned("max_message_size must be greater than 0"));
        }
        if self.retention_days == 0 {
            return Err(owned("retention_days must be greater than 0"));
        }
        Ok(())
    }

    /// Check if a feature is enabled; unknown feature names are disabled.
    pub fn is_feature_enabled(&self, feature: &str) -> (r: bool)
        ensures
            r == feature_on(self.features, feature@),
    {
        if str_eq(feature, "priority_queue") {
            self.features.priority_queue
        } else if str_eq(feature, "scheduled_messages") {
            self.features.scheduled_messages
        } else if str_eq(feature, "routing") {
            self.features.routing
        } else if str_eq(feature, "webhooks") {
            self.features.webhooks
        } else if str_eq(feature, "clustering") {
            self.features.clustering
        } else if str_eq(feature, "metrics") {
            self.features.metrics
        } else if str_eq(feature, "persistence") {
            self.features.persistence
        } else {
            false
        }
    }

    /// Get a metadata value.
    pub fn get_metadata(&self, key: &str) -> (r: Option<&String>)
        ensures
            r matches Some(v) ==> self.metadata.view().contains_key(key@) && v@ == self.metadata.view()[key@],
            r is None ==> !self.metadata.view().contains_key(key@),
    {
        self.metadata.get(key)
    }
}

/// `s` without its hyphens.
pub open spec fn without_hyphens(s: Seq<char>) -> Seq<char>
    decreases s.len(),
{
    if s.len() == 0 {
        s
    } else if s.last() == '-' {
        without_hyphens(s.drop_last())
    } else {
        without_hyphens(s.drop_last()).push(s.last())
    }
}

/// The API key of a tenant's client: `sk_prod_<tenant>_<id>`, where the
/// random ID is written without hyphens.
pub fn api_key_for(tenant_id: &str, random_id: &str) -> (r: String)
    ensures
        r@ == "sk_prod_"@ + tenant_id@ + "_"@ + without_hyphens(random_id@),
{
    let mut r = owned("sk_prod_");
    push_str(&mut r, tenant_id);
    push_str(&mut r, "_");
    let ghost prefix = r@;
    let id = chars_of(random_id);
    let mut i: usize = 0;
    while i < id.len()
        invariant
            i <= id@.len(),
            id@ == random_id@,
            r@ == prefix + without_hyphens(id@.take(i as int)),
        decreases id@.len() - i,
    {
        assert(id@.take(i + 1).drop_last() =~= id@.take(i as int));
        if id[i] != '-' {
            append_char(&mut r, id[i]);
        }
        i = i + 1;
    }
    assert(id@.take(id@.len() as int) =~= id@);
    r
}

/// A fresh API key for a tenant's client, from a random UUID.
pub fn generate_api_key_for(tenant_id: &str) -> (r: String)
    ensures
        exists|id: Seq<char>| id.len() == 36 && r@ == "sk_prod_"@ + tenant_id@ + "_"@ + without_hyphens(id),
{
    let id = clock::new_uuid_string();
    api_key_for(tenant_id, id.as_str())
}

} // verus!
