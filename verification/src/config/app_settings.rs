//! Application settings: centralized configuration of the broker.
use vstd::prelude::*;
use crate::config::tenant::{TenantConfig, tenant_config_error};
use crate::text::{chars_of, concat, decimal, is_prefix, owned, push_str, starts_with, str_eq, string_of_chars, u64_to_string};

verus! {

/// Main application settings.
#[derive(Debug, Clone)]
pub struct AppSettings {
    /// Application name and version
    pub app: AppConfig,
    /// Server configuration
    pub server: ServerConfig,
    /// Logging configuration
    pub logging: LoggingConfig,
    /// List of tenants
    pub tenants: Vec<TenantConfig>,
    /// Feature flags
    pub features: FeatureFlags,
}

/// Application metadata.
#[derive(Debug, Clone)]
pub struct AppConfig {
    pub name: String,
    pub version: String,
    pub environment: String,
}

impl Default for AppConfig {
    fn default() -> (r: AppConfig)
        ensures
            r.name@ == "FastDataBroker"@,
            r.version@ == "0.1.16"@,
            r.environment@ == "development"@,
    {
        AppConfig {
            name: owned("FastDataBroker"),
            version: owned("0.1.16"),
            environment: owned("development"),
        }
    }
}

/// Server configuration.
#[derive(Debug, Clone)]
pub struct ServerConfig {
    /// Bind address
    pub bind_address: String,
    /// Bind port
    pub port: u16,
    /// TLS certificate path
    pub cert_path: String,
    /// TLS private key path
    pub key_path: String,
    /// Enable TLS
    pub enable_tls: bool,
    /// Global max connections
    pub max_connections: usize,
    /// Global max streams per connection
    pub max_streams: u64,
    /// Idle timeout in milliseconds
    pub idle_timeout_ms: u64,
    /// Request timeout in seconds
    pub request_timeout_secs: u64,
    /// Whether to enable metrics
    pub enable_metrics: bool,
    /// Metrics export interval in seconds
    pub metrics_interval_secs: u64,
}

impl Default for ServerConfig {
    fn default() -> (r: ServerConfig)
        ensures
            r.bind_address@ == "0.0.0.0"@,
            r.port == 6379,
            r.cert_path@ == "./certs/cert.pem"@,
            r.key_path@ == "./certs/key.pem"@,
            !r.enable_tls,
            r.max_connections == 10000,
            r.max_streams == 1000000,
            r.idle_timeout_ms == 30000,
            r.request_timeout_secs == 30,
            r.enable_metrics,
            r.metrics_interval_secs == 60,
    {
        ServerConfig {
            bind_address: owned("0.0.0.0"),
            port: 6379,
            cert_path: owned("./certs/cert.pem"),
            key_path: owned("./certs/key.pem"),
            enable_tls: false,
            max_connections: 10000,
            max_streams: 1000000,
            idle_timeout_ms: 30000,
            request_timeout_secs: 30,
            enable_metrics: true,
            metrics_interval_secs: 60,
        }
    }
}

/// Logging configuration.
#[derive(Debug, Clone)]
pub struct LoggingConfig {
    /// Log level (trace, debug, info, warn, error)
    pub level: String,
    /// Log format (json, text)
    pub format: String,
    /// Log output (console, file, both)
    pub output: String,
    /// Log file path (if output includes file)
    pub file_path: Option<String>,
    /// Include target in logs
    pub include_target: bool,
    /// Include thread IDs in logs
    pub include_thread_ids: bool,
}

impl Default for LoggingConfig {
    fn default() -> (r: LoggingConfig)
        ensures
            r.level@ == "info"@,
            r.format@ == "text"@,
            r.output@ == "console"@,
            r.file_path is None,
            r.include_target,
            r.include_thread_ids,
    {
        LoggingConfig {
            level: owned("info"),
            format: owned("text"),
            output: owned("console"),
            file_path: None,
            include_target: true,
            include_thread_ids: true,
        }
    }
}

/// Global feature flags.
#[derive(Debug, Clone)]
pub struct FeatureFlags {
    /// Enable multi-tenancy
    pub multi_tenancy: bool,
    /// Enable authentication
    pub authentication: bool,
    /// Enable rate limiting
    pub rate_limiting: bool,
    /// Enable persistence
    pub persistence: bool,
    /// Enable clustering
    pub clustering: bool,
}

impl Default for FeatureFlags {
    fn default() -> (r: FeatureFlags)
        ensures
            r.multi_tenancy && r.authentication && r.rate_limiting && r.persistence && !r.clustering,
    {
        FeatureFlags {
            multi_tenancy: true,
            authentication: true,
            rate_limiting: true,
            persistence: true,
            clustering: false,
        }
    }
}

/// The message of the first check that the settings fail, in the order the
/// checks are made (name, port, then each tenant in turn); `None` when they
/// pass them all.
pub open spec fn settings_error(app_name: Seq<char>, port: u16, tenants: Seq<TenantConfig>) -> Option<Seq<char>> {
    if app_name.len() == 0 {
        Some("app.name cannot be empty"@)
    } else if port == 0 {
        Some("server.port must be greater than 0"@)
    } else {
        first_tenant_error(tenants)
    }
}

/// The error of the first tenant, in order, that fails validation.
pub open spec fn first_tenant_error(tenants: Seq<TenantConfig>) -> Option<Seq<char>>
    decreases tenants.len(),
{
    if tenants.len() == 0 {
        None
    } else {
        match tenant_config_error(tenants[0]) {
            Some(e) => Some(e),
            None => first_tenant_error(tenants.drop_first()),
        }
    }
}

/// The tenants other than those with ID `id`, in order.
pub open spec fn tenants_without(tenants: Seq<TenantConfig>, id: Seq<char>) -> Seq<TenantConfig>
    decreases tenants.len(),
{
    if tenants.len() == 0 {
        tenants
    } else {
        let r = tenants_without(tenants.drop_last(), id);
        if tenants.last().tenant_id@ == id {
            r
        } else {
            r.push(tenants.last())
        }
    }
}

/// Number of enabled tenants.
pub open spec fn enabled_count(tenants: Seq<TenantConfig>) -> nat
    decreases tenants.len(),
{
    if tenants.len() == 0 {
        0
    } else {
        enabled_count(tenants.drop_last()) + if tenants.last().enabled { 1nat } else { 0nat }
    }
}

/// `tenants` has one with ID `id`.
pub open spec fn has_tenant_id(tenants: Seq<TenantConfig>, id: Seq<char>) -> bool {
    exists|i: int| 0 <= i < tenants.len() && (#[trigger] tenants[i]).tenant_id@ == id
}

/// `s` with every trailing copy of `suffix` removed.
pub open spec fn trim_end_all(s: Seq<char>, suffix: Seq<char>) -> Seq<char>
    decreases s.len(),
{
    if suffix.len() > 0 && suffix.len() <= s.len() && s.subrange(s.len() - suffix.len(), s.len() as int) == suffix {
        trim_end_all(s.subrange(0, s.len() - suffix.len()), suffix)
    } else {
        s
    }
}

/// The file of environment-specific settings next to the base settings
/// file: the base path without its trailing `appsettings.json`, then
/// `settings.<environment>.json`.
pub fn environment_settings_path(base_path: &str, environment: &str) -> (r: String)
    ensures
        r@ == trim_end_all(base_path@, "appsettings.json"@) + "settings."@ + environment@ + ".json"@,
{
    let suffix = chars_of("appsettings.json");
    let base = chars_of(base_path);
    let ghost suf = "appsettings.json"@;
    proof { reveal_strlit("appsettings.json"); }
    let n = suffix.len();
    let mut end: usize = base.len();
    assert(base@.subrange(0, end as int) =~= base@);
    while n <= end && ends_with_at(&base, end, &suffix)
        invariant
            n == suffix@.len(),
            suffix@ == suf,
            suf.len() > 0,
            end <= base@.len(),
            trim_end_all(base@.subrange(0, end as int), suf) == trim_end_all(base@, suf),
        decreases end,
    {
        proof {
            let t = base@.subrange(0, end as int);
            assert(t.subrange(t.len() - suf.len(), t.len() as int) =~= base@.subrange(end - n, end as int));
            assert(t.subrange(0, t.len() - suf.len()) =~= base@.subrange(0, end - n));
        }
        end = end - n;
    }
    proof {
        let t = base@.subrange(0, end as int);
        if n <= end {
            assert(t.subrange(t.len() - suf.len(), t.len() as int) =~= base@.subrange(end - n, end as int));
        }
    }
    let mut out: Vec<char> = Vec::new();
    let mut i: usize = 0;
    while i < end
        invariant
            i <= end,
            end <= base@.len(),
            out@ == base@.subrange(0, i as int),
        decreases end - i,
    {
        out.push(base[i]);
        assert(base@.subrange(0, i + 1) =~= base@.subrange(0, i as int).push(base@[i as int]));
        i = i + 1;
    }
    let mut r = string_of_chars(&out);
    push_str(&mut r, "settings.");
    push_str(&mut r, environment);
    push_str(&mut r, ".json");
    r
}

/// Whether `suffix` ends `s` just before position `end`.
fn ends_with_at(s: &Vec<char>, end: usize, suffix: &Vec<char>) -> (r: bool)
    requires
        suffix@.len() <= end <= s@.len(),
    ensures
        r == (s@.subrange(end - suffix@.len(), end as int) == suffix@),
{
    let n = suffix.len();
    let start = end - n;
    let mut i: usize = 0;
    while i < n
        invariant
            i <= n,
            n == suffix@.len(),
            start + n == end,
            end <= s@.len(),
            forall|j: int| 0 <= j < i ==> s@[start + j] == suffix@[j],
        decreases n - i,
    {
        if s[start + i] != suffix[i] {
            assert(s@.subrange(start as int, end as int)[i as int] != suffix@[i as int]);
            return false;
        }
        i = i + 1;
    }
    assert(s@.subrange(start as int, end as int) =~= suffix@);
    true
}

impl AppSettings {
    /// Default settings: default application, server, logging and feature
    /// settings and no tenant.
    pub fn default() -> (r: Self)
        ensures
            r.app.name@ == "FastDataBroker"@,
            r.app.version@ == "0.1.16"@,
            r.app.environment@ == "development"@,
            r.server.bind_address@ == "0.0.0.0"@,
            r.server.port == 6379,
            !r.server.enable_tls,
            r.logging.level@ == "info"@,
            r.tenants@.len() == 0,
            r.features.multi_tenancy && r.features.authentication && r.features.rate_limiting
                && r.features.persistence && !r.features.clustering,
    {
        AppSettings {
            app: AppConfig::default(),
            server: ServerConfig::default(),
            logging: LoggingConfig::default(),
            tenants: Vec::new(),
            features: FeatureFlags::default(),
        }
    }

    /// Validate all settings: the message of the first failed check, or `Ok`.
    pub fn validate(&self) -> (r: Result<(), String>)
        ensures
            r is Ok <==> settings_error(self.app.name@, self.server.port, self.tenants@) is None,
            r matches Err(e) ==> settings_error(self.app.name@, self.server.port, self.tenants@) == Some(e@),
    {
        if self.app.name.as_str().is_empty() {
            return Err(owned("app.name cannot be empty"));
        }
        if self.server.port == 0 {
            return Err(owned("server.port must be greater than 0"));
        }
        let mut i: usize = 0;
        assert(self.tenants@.skip(0) =~= self.tenants@);
        while i < self.tenants.len()
            invariant
                i <= self.tenants@.len(),
                self.app.name@.len() > 0,
                self.server.port != 0,
                first_tenant_error(self.tenants@) == first_tenant_error(self.tenants@.skip(i as int)),
            decreases self.tenants@.len() - i,
        {
            let ghost rest = self.tenants@.skip(i as int);
            assert(rest[0] == self.tenants@[i as int]);
            assert(rest.drop_first() =~= self.tenants@.skip(i + 1));
            match self.tenants[i].validate() {
                Ok(()) => {},
                Err(e) => {
                    return Err(e);
                },
            }
            i = i + 1;
        }
        assert(self.tenants@.skip(i as int) =~= Seq::<TenantConfig>::empty());
        Ok(())
    }

    /// Get the first tenant with this ID.
    pub fn get_tenant(&self, tenant_id: &str) -> (r: Option<&TenantConfig>)
        ensures
            r matches Some(t) ==> exists|i: int| 0 <= i < self.tenants@.len() && self.tenants@[i] == *t
                && t.tenant_id@ == tenant_id@
                && forall|j: int| 0 <= j < i ==> (#[trigger] self.tenants@[j]).tenant_id@ != tenant_id@,
            r is None ==> !has_tenant_id(self.tenants@, tenant_id@),
    {
        let mut i: usize = 0;
        while i < self.tenants.len()
            invariant
                i <= self.tenants@.len(),
                forall|j: int| 0 <= j < i ==> (#[trigger] self.tenants@[j]).tenant_id@ != tenant_id@,
            decreases self.tenants@.len() - i,
        {
            if str_eq(self.tenants[i].tenant_id.as_str(), tenant_id) {
                return Some(&self.tenants[i]);
            }
            i = i + 1;
        }
        None
    }

    /// Get the first tenant whose API key prefix starts `prefix`.
    pub fn get_tenant_by_prefix(&self, prefix: &str) -> (r: Option<&TenantConfig>)
        ensures
            r matches Some(t) ==> exists|i: int| 0 <= i < self.tenants@.len() && self.tenants@[i] == *t
                && is_prefix(t.api_key_prefix@, prefix@)
                && forall|j: int| 0 <= j < i ==> !is_prefix((#[trigger] self.tenants@[j]).api_key_prefix@, prefix@),
            r is None ==> forall|j: int| 0 <= j < self.tenants@.len() ==> !is_prefix((#[trigger] self.tenants@[j]).api_key_prefix@, prefix@),
    {
        let mut i: usize = 0;
        while i < self.tenants.len()
            invariant
                i <= self.tenants@.len(),
                forall|j: int| 0 <= j < i ==> !is_prefix((#[trigger] self.tenants@[j]).api_key_prefix@, prefix@),
            decreases self.tenants@.len() - i,
        {
            if starts_with(prefix, self.tenants[i].api_key_prefix.as_str()) {
                return Some(&self.tenants[i]);
            }
            i = i + 1;
        }
        None
    }

    /// Add a new tenant: refused with its validation error when it is
    /// invalid, and with "Tenant <id> already exists" when a tenant with the
    /// same ID is present; otherwise it joins the end of the list.
    pub fn add_tenant(&mut self, tenant: TenantConfig) -> (r: Result<(), String>)
        ensures
            tenant_config_error(tenant) matches Some(e) ==> (r matches Err(m) && m@ == e && final(self).tenants@ == old(self).tenants@),
            tenant_config_error(tenant) is None && has_tenant_id(old(self).tenants@, tenant.tenant_id@) ==>
                (r matches Err(m) && m@ == "Tenant "@ + tenant.tenant_id@ + " already exists"@ && final(self).tenants@ == old(self).tenants@),
            tenant_config_error(tenant) is None && !has_tenant_id(old(self).tenants@, tenant.tenant_id@) ==>
                (r is Ok && final(self).tenants@ == old(self).tenants@.push(tenant)),
            final(self).app == old(self).app,
            final(self).server == old(self).server,
            final(self).logging == old(self).logging,
            final(self).features == old(self).features,
    {
        match tenant.validate() {
            Ok(()) => {},
            Err(e) => {
                return Err(e);
            },
        }
        if self.get_tenant(tenant.tenant_id.as_str()).is_some() {
            let mut m = concat("Tenant ", tenant.tenant_id.as_str());
            push_str(&mut m, " already exists");
            return Err(m);
        }
        self.tenants.push(tenant);
        Ok(())
    }

    /// Remove every tenant with this ID; true when one was removed.
    pub fn remove_tenant(&mut self, tenant_id: &str) -> (r: bool)
        ensures
            final(self).tenants@ == tenants_without(old(self).tenants@, tenant_id@),
            r == has_tenant_id(old(self).tenants@, tenant_id@),
            final(self).app == old(self).app,
            final(self).server == old(self).server,
            final(self).logging == old(self).logging,
            final(self).features == old(self).features,
    {
        let ghost t0 = self.tenants@;
        let mut kept: Vec<TenantConfig> = Vec::new();
        let mut rest: Vec<TenantConfig> = Vec::new();
        std::mem::swap(&mut rest, &mut self.tenants);
        let mut rev: Vec<TenantConfig> = Vec::new();
        let n = rest.len();
        while rest.len() > 0
            invariant
                rest@ == t0.take(rest@.len() as int),
                rest@.len() + rev@.len() == t0.len(),
                forall|k: int| 0 <= k < rev@.len() ==> #[trigger] rev@[k] == t0[t0.len() - 1 - k],
            decreases rest@.len(),
        {
            let ghost before = rest@;
            let x = rest.pop().unwrap();
            assert(before.subrange(0, before.len() - 1) =~= t0.take(rest@.len() as int));
            rev.push(x);
        }
        let mut found = false;
        let mut i: usize = 0;
        while rev.len() > 0
            invariant
                rev@.len() + i == t0.len(),
                t0.len() == n,
                forall|k: int| 0 <= k < rev@.len() ==> #[trigger] rev@[k] == t0[t0.len() - 1 - k],
                kept@ == tenants_without(t0.take(i as int), tenant_id@),
                found == has_tenant_id(t0.take(i as int), tenant_id@),
            decreases rev@.len(),
        {
            let x = rev.pop().unwrap();
            assert(x == t0[i as int]);
            assert(t0.take(i + 1).drop_last() =~= t0.take(i as int));
            let same = str_eq(x.tenant_id.as_str(), tenant_id);
            proof {
                if has_tenant_id(t0.take(i + 1), tenant_id@) && !has_tenant_id(t0.take(i as int), tenant_id@) {
                    let k = choose|k: int| 0 <= k < i + 1 && (#[trigger] t0.take(i + 1)[k]).tenant_id@ == tenant_id@;
                    if k < i {
                        assert(t0.take(i as int)[k] == t0.take(i + 1)[k]);
                    }
                }
                if has_tenant_id(t0.take(i as int), tenant_id@) {
                    let k = choose|k: int| 0 <= k < i && (#[trigger] t0.take(i as int)[k]).tenant_id@ == tenant_id@;
                    assert(t0.take(i + 1)[k] == t0.take(i as int)[k]);
                }
                if same {
                    assert(t0.take(i + 1)[i as int] == x);
                }
            }
            if same {
                found = true;
            } else {
                kept.push(x);
            }
            i = i + 1;
        }
        assert(t0.take(i as int) =~= t0);
        self.tenants = kept;
        found
    }

    /// Number of enabled tenants.
    pub fn active_tenant_count(&self) -> (r: usize)
        ensures
            r == enabled_count(self.tenants@),
    {
        let mut c: usize = 0;
        let mut i: usize = 0;
        while i < self.tenants.len()
            invariant
                i <= self.tenants@.len(),
                c == enabled_count(self.tenants@.take(i as int)),
                c <= i,
            decreases self.tenants@.len() - i,
        {
            assert(self.tenants@.take(i + 1).drop_last() =~= self.tenants@.take(i as int));
            if self.tenants[i].enabled {
                c = c + 1;
            }
            i = i + 1;
        }
        assert(self.tenants@.take(i as int) =~= self.tenants@);
        c
    }

    /// The server URL: "quics" with TLS and "quic" without, then "://", the
    /// bind address, ":" and the port.
    pub fn server_url(&self) -> (r: String)
        ensures
            r@ == (if self.server.enable_tls { "quics"@ } else { "quic"@ }) + "://"@ + self.server.bind_address@ + ":"@
                + decimal(self.server.port as nat),
    {
        let mut s = if self.server.enable_tls { owned("quics") } else { owned("quic") };
        push_str(&mut s, "://");
        push_str(&mut s, self.server.bind_address.as_str());
        push_str(&mut s, ":");
        let p = u64_to_string(self.server.port as u64);
        push_str(&mut s, p.as_str());
        s
    }

    /// Merge environment-specific settings over these base settings: the
    /// application, server, logging and feature settings are replaced, the
    /// environment's tenants whose IDs are not present yet are appended in
    /// order, and the result is validated.
    pub fn merge_environment(self, env: AppSettings) -> (r: Result<AppSettings, String>)
        ensures
            settings_error(env.app.name@, env.server.port, merged_tenants(self.tenants@, env.tenants@)) matches Some(e)
                ==> (r matches Err(m) && m@ == e),
            settings_error(env.app.name@, env.server.port, merged_tenants(self.tenants@, env.tenants@)) is None ==>
                (r matches Ok(s) && s.app == env.app && s.server == env.server && s.logging == env.logging
                    && s.features == env.features && s.tenants@ == merged_tenants(self.tenants@, env.tenants@)),
    {
        let AppSettings { app, server, logging, tenants, features } = env;
        let mut merged = AppSettings { app, server, logging, tenants: self.tenants, features };
        let ghost base = merged.tenants@;
        let ghost extra = tenants@;
        let mut rest = tenants;
        let n_extra = rest.len();
        let mut rev: Vec<TenantConfig> = Vec::new();
        while rest.len() > 0
            invariant
                rest@ == extra.take(rest@.len() as int),
                rest@.len() + rev@.len() == extra.len(),
                forall|k: int| 0 <= k < rev@.len() ==> #[trigger] rev@[k] == extra[extra.len() - 1 - k],
            decreases rest@.len(),
        {
            let ghost before = rest@;
            let x = rest.pop().unwrap();
            assert(before.subrange(0, before.len() - 1) =~= extra.take(rest@.len() as int));
            rev.push(x);
        }
        let mut i: usize = 0;
        while rev.len() > 0
            invariant
                rev@.len() + i == extra.len(),
                extra.len() == n_extra,
                forall|k: int| 0 <= k < rev@.len() ==> #[trigger] rev@[k] == extra[extra.len() - 1 - k],
                merged.tenants@ == merged_tenants(base, extra.take(i as int)),
                merged.app == app && merged.server == server && merged.logging == logging && merged.features == features,
            decreases rev@.len(),
        {
            let t = rev.pop().unwrap();
            assert(t == extra[i as int]);
            assert(extra.take(i + 1).drop_last() =~= extra.take(i as int));
            if merged.get_tenant(t.tenant_id.as_str()).is_none() {
                merged.tenants.push(t);
            }
            i = i + 1;
        }
        assert(extra.take(i as int) =~= extra);
        match merged.validate() {
            Ok(()) => Ok(merged),
            Err(e) => Err(e),
        }
    }
}

/// `base` followed by the tenants of `extra`, in order, whose IDs are not
/// among those before them.
pub open spec fn merged_tenants(base: Seq<TenantConfig>, extra: Seq<TenantConfig>) -> Seq<TenantConfig>
    decreases extra.len(),
{
    if extra.len() == 0 {
        base
    } else {
        let r = merged_tenants(base, extra.drop_last());
        if has_tenant_id(r, extra.last().tenant_id@) {
            r
        } else {
            r.push(extra.last())
        }
    }
}

} // verus!

verus! {

/// Read-after-add law: once `add_tenant` has accepted a tenant, looking its
/// ID up finds exactly that tenant (it is the only one with that ID).
pub proof fn law_added_tenant_is_found(ts: Seq<TenantConfig>, t: TenantConfig)
    requires
        !has_tenant_id(ts, t.tenant_id@),
    ensures
        has_tenant_id(ts.push(t), t.tenant_id@),
        ts.push(t)[ts.len() as int] == t,
        forall|j: int| 0 <= j < ts.len() ==> (#[trigger] ts.push(t)[j]).tenant_id@ != t.tenant_id@,
{
    assert(ts.push(t)[ts.len() as int] == t);
    assert forall|j: int| 0 <= j < ts.len() implies (#[trigger] ts.push(t)[j]).tenant_id@ != t.tenant_id@ by {
        assert(ts.push(t)[j] == ts[j]);
    }
}

/// Removal law: after `remove_tenant(id)` no tenant with that ID is left, and
/// every tenant with another ID is kept.
pub proof fn law_removed_tenant_is_gone(ts: Seq<TenantConfig>, id: Seq<char>)
    ensures
        !has_tenant_id(tenants_without(ts, id), id),
        forall|i: int| 0 <= i < ts.len() && (#[trigger] ts[i]).tenant_id@ != id ==> tenants_without(ts, id).contains(ts[i]),
    decreases ts.len(),
{
    if ts.len() > 0 {
        law_removed_tenant_is_gone(ts.drop_last(), id);
        let r = tenants_without(ts.drop_last(), id);
        if has_tenant_id(tenants_without(ts, id), id) {
            let k = choose|k: int| 0 <= k < tenants_without(ts, id).len() && (#[trigger] tenants_without(ts, id)[k]).tenant_id@ == id;
            if k < r.len() {
                assert(r[k] == tenants_without(ts, id)[k]);
            }
        }
        assert forall|i: int| 0 <= i < ts.len() && (#[trigger] ts[i]).tenant_id@ != id implies tenants_without(ts, id).contains(ts[i]) by {
            if i < ts.len() - 1 {
                assert(ts.drop_last()[i] == ts[i]);
                if ts.last().tenant_id@ != id {
                    let k = choose|k: int| 0 <= k < r.len() && r[k] == ts[i];
                    assert(r.push(ts.last())[k] == ts[i]);
                }
            } else {
                assert(tenants_without(ts, id)[r.len() as int] == ts[i]);
            }
        }
    }
}

} // verus!
