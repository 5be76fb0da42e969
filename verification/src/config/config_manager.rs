//! What start-up does with the system configuration: the caches to build
//! and the background workers to start. Running them is left to the caller.
use vstd::prelude::*;
use crate::text::{decimal, owned, push_str, u64_to_string};
use super::startup_config::StartupConfig;

verus! {

/// The metrics flush worker's settings.
#[derive(Debug, Clone)]
pub struct MetricsFlushPlan {
    pub tenants_path: String,
    pub flush_interval_ms: u32,
    pub max_metrics_per_tenant: usize,
}

/// The configuration reload worker's settings.
#[derive(Debug, Clone)]
pub struct ConfigReloadPlan {
    pub tenants_path: String,
    pub reload_interval_seconds: u32,
}

/// The backup worker's settings.
#[derive(Debug, Clone)]
pub struct BackupPlan {
    pub tenants_path: String,
    pub backup_path: String,
    pub backup_hour_utc: u32,
    pub backup_minute_utc: u32,
}

/// What start-up builds and starts.
#[derive(Debug, Clone)]
pub struct StartupPlan {
    /// Lifetime of pre-shared key cache entries.
    pub psk_ttl_seconds: u32,
    /// The directory to load tenant documents from, when JSON storage is on.
    pub tenants_to_load: Option<String>,
    /// The metrics flush worker, when metrics caching is on.
    pub metrics_flush: Option<MetricsFlushPlan>,
    /// The configuration reload worker, when hot reload is on.
    pub config_reload: Option<ConfigReloadPlan>,
    /// The backup worker, when backups are on.
    pub backup: Option<BackupPlan>,
}

/// The start-up plan of a configuration.
pub fn startup_plan(c: &StartupConfig) -> (r: StartupPlan)
    ensures
        r.psk_ttl_seconds == c.cache.psk_verification.ttl_seconds,
        c.storage.json.enabled ==> (r.tenants_to_load matches Some(p) && p@ == c.storage.json.tenants_path@),
        !c.storage.json.enabled ==> r.tenants_to_load is None,
        c.cache.metrics.enabled ==> (r.metrics_flush matches Some(m) && m.tenants_path@ == c.storage.json.tenants_path@
            && m.flush_interval_ms == c.cache.metrics.flush_interval_ms
            && m.max_metrics_per_tenant == c.cache.metrics.max_entries_per_tenant),
        !c.cache.metrics.enabled ==> r.metrics_flush is None,
        c.cache.tenant_config.hot_reload ==> (r.config_reload matches Some(m) && m.tenants_path@ == c.storage.json.tenants_path@
            && m.reload_interval_seconds == c.cache.tenant_config.reload_interval_seconds),
        !c.cache.tenant_config.hot_reload ==> r.config_reload is None,
        c.storage.json.backup_enabled ==> (r.backup matches Some(b) && b.tenants_path@ == c.storage.json.tenants_path@
            && b.backup_path@ == c.storage.json.backup_path@
            && b.backup_hour_utc == c.storage.json.backup_schedule_utc_hour
            && b.backup_minute_utc == c.storage.json.backup_schedule_utc_minute),
        !c.storage.json.backup_enabled ==> r.backup is None,
{
    let json = &c.storage.json;
    StartupPlan {
        psk_ttl_seconds: c.cache.psk_verification.ttl_seconds,
        tenants_to_load: if json.enabled { Some(json.tenants_path.clone()) } else { None },
        metrics_flush: if c.cache.metrics.enabled {
            Some(MetricsFlushPlan {
                tenants_path: json.tenants_path.clone(),
                flush_interval_ms: c.cache.metrics.flush_interval_ms,
                max_metrics_per_tenant: c.cache.metrics.max_entries_per_tenant as usize,
            })
        } else {
            None
        },
        config_reload: if c.cache.tenant_config.hot_reload {
            Some(ConfigReloadPlan {
                tenants_path: json.tenants_path.clone(),
                reload_interval_seconds: c.cache.tenant_config.reload_interval_seconds,
            })
        } else {
            None
        },
        backup: if json.backup_enabled {
            Some(BackupPlan {
                tenants_path: json.tenants_path.clone(),
                backup_path: json.backup_path.clone(),
                backup_hour_utc: json.backup_schedule_utc_hour,
                backup_minute_utc: json.backup_schedule_utc_minute,
            })
        } else {
            None
        },
    }
}

/// How the report shows the worker thread count: "auto" for zero.
pub fn worker_threads_label(worker_threads: u32) -> (r: String)
    ensures
        r@ == if worker_threads == 0 { "auto"@ } else { decimal(worker_threads as nat) },
{
    if worker_threads == 0 {
        owned("auto")
    } else {
        u64_to_string(worker_threads as u64)
    }
}

proof fn lemma_append_assoc(a: Seq<char>, b: Seq<char>, c: Seq<char>)
    ensures
        (a + b) + c == a + (b + c),
{
    assert((a + b) + c =~= a + (b + c));
}

/// The text of a boolean, as `{}` writes it.
#[verifier::opaque]
pub open spec fn bool_text(b: bool) -> Seq<char> {
    if b { "true"@ } else { "false"@ }
}

fn bool_str(b: bool) -> (r: &'static str)
    ensures
        r@ == bool_text(b),
{
    proof { reveal(bool_text); }
    if b { "true" } else { "false" }
}

/// The server part of the configuration report.
pub open spec fn report_server(c: StartupConfig, loaded: nat, burst: Seq<char>) -> Seq<char> {
    "\n╔═══════════════════════════════════════════════════════════════════════════╗\n║          FastDataBroker v3.1 Configuration Report                         ║\n╚═══════════════════════════════════════════════════════════════════════════╝\n\n📊 SERVER CONFIGURATION\n  • Protocol: "@
        + c.server.protocol@
        + " on "@
        + c.server.host@
        + ":"@
        + decimal(c.server.port as nat)
        + "\n  • Max Concurrent Streams: "@
        + decimal(c.server.max_concurrent_streams as nat)
        + "\n  • Max Idle Timeout: "@
        + decimal(c.server.max_idle_timeout_ms as nat)
}

fn push_report_server(r: &mut String, c: &StartupConfig, loaded: usize, burst: &str)
    ensures
        final(r)@ == old(r)@ + report_server(*c, loaded as nat, burst@),
{
    let ghost start = r@;
    let ghost mut acc: Seq<char> = Seq::empty();
    assert(start + acc =~= start);
    push_str(r, "\n╔═══════════════════════════════════════════════════════════════════════════╗\n║          FastDataBroker v3.1 Configuration Report                         ║\n╚═══════════════════════════════════════════════════════════════════════════╝\n\n📊 SERVER CONFIGURATION\n  • Protocol: ");
    proof { lemma_append_assoc(start, acc, "\n╔═══════════════════════════════════════════════════════════════════════════╗\n║          FastDataBroker v3.1 Configuration Report                         ║\n╚═══════════════════════════════════════════════════════════════════════════╝\n\n📊 SERVER CONFIGURATION\n  • Protocol: "@); acc = acc + "\n╔═══════════════════════════════════════════════════════════════════════════╗\n║          FastDataBroker v3.1 Configuration Report                         ║\n╚═══════════════════════════════════════════════════════════════════════════╝\n\n📊 SERVER CONFIGURATION\n  • Protocol: "@; }
    push_str(r, c.server.protocol.as_str());
    proof { lemma_append_assoc(start, acc, c.server.protocol@); acc = acc + c.server.protocol@; }
    push_str(r, " on ");
    proof { lemma_append_assoc(start, acc, " on "@); acc = acc + " on "@; }
    push_str(r, c.server.host.as_str());
    proof { lemma_append_assoc(start, acc, c.server.host@); acc = acc + c.server.host@; }
    push_str(r, ":");
    proof { lemma_append_assoc(start, acc, ":"@); acc = acc + ":"@; }
    let t = u64_to_string(c.server.port as u64);
    push_str(r, t.as_str());
    proof { lemma_append_assoc(start, acc, t@); acc = acc + t@; }
    push_str(r, "\n  • Max Concurrent Streams: ");
    proof { lemma_append_assoc(start, acc, "\n  • Max Concurrent Streams: "@); acc = acc + "\n  • Max Concurrent Streams: "@; }
    let t = u64_to_string(c.server.max_concurrent_streams as u64);
    push_str(r, t.as_str());
    proof { lemma_append_assoc(start, acc, t@); acc = acc + t@; }
    push_str(r, "\n  • Max Idle Timeout: ");
    proof { lemma_append_assoc(start, acc, "\n  • Max Idle Timeout: "@); acc = acc + "\n  • Max Idle Timeout: "@; }
    let t = u64_to_string(c.server.max_idle_timeout_ms as u64);
    push_str(r, t.as_str());
    proof { lemma_append_assoc(start, acc, t@); acc = acc + t@; }
    assert(acc =~= report_server(*c, loaded as nat, burst@));
}

/// The storage part of the configuration report.
pub open spec fn report_storage(c: StartupConfig, loaded: nat, burst: Seq<char>) -> Seq<char> {
    "ms\n  \n💾 STORAGE CONFIGURATION\n  • Mode: "@
        + c.storage.mode@
        + "\n  • Sled Enabled: "@
        + bool_text(c.storage.sled.enabled)
        + "\n  • JSON Storage Enabled: "@
        + bool_text(c.storage.json.enabled)
        + "\n  • Tenants Path: "@
        + c.storage.json.tenants_path@
}

fn push_report_storage(r: &mut String, c: &StartupConfig, loaded: usize, burst: &str)
    ensures
        final(r)@ == old(r)@ + report_storage(*c, loaded as nat, burst@),
{
    let ghost start = r@;
    let ghost mut acc: Seq<char> = Seq::empty();
    assert(start + acc =~= start);
    push_str(r, "ms\n  \n💾 STORAGE CONFIGURATION\n  • Mode: ");
    proof { lemma_append_assoc(start, acc, "ms\n  \n💾 STORAGE CONFIGURATION\n  • Mode: "@); acc = acc + "ms\n  \n💾 STORAGE CONFIGURATION\n  • Mode: "@; }
    push_str(r, c.storage.mode.as_str());
    proof { lemma_append_assoc(start, acc, c.storage.mode@); acc = acc + c.storage.mode@; }
    push_str(r, "\n  • Sled Enabled: ");
    proof { lemma_append_assoc(start, acc, "\n  • Sled Enabled: "@); acc = acc + "\n  • Sled Enabled: "@; }
    push_str(r, bool_str(c.storage.sled.enabled));
    proof { lemma_append_assoc(start, acc, bool_text(c.storage.sled.enabled)); acc = acc + bool_text(c.storage.sled.enabled); }
    push_str(r, "\n  • JSON Storage Enabled: ");
    proof { lemma_append_assoc(start, acc, "\n  • JSON Storage Enabled: "@); acc = acc + "\n  • JSON Storage Enabled: "@; }
    push_str(r, bool_str(c.storage.json.enabled));
    proof { lemma_append_assoc(start, acc, bool_text(c.storage.json.enabled)); acc = acc + bool_text(c.storage.json.enabled); }
    push_str(r, "\n  • Tenants Path: ");
    proof { lemma_append_assoc(start, acc, "\n  • Tenants Path: "@); acc = acc + "\n  • Tenants Path: "@; }
    push_str(r, c.storage.json.tenants_path.as_str());
    proof { lemma_append_assoc(start, acc, c.storage.json.tenants_path@); acc = acc + c.storage.json.tenants_path@; }
    assert(acc =~= report_storage(*c, loaded as nat, burst@));
}

/// The tenant cache part of the configuration report.
pub open spec fn report_tenant_cache(c: StartupConfig, loaded: nat, burst: Seq<char>) -> Seq<char> {
    "\n  \n🗂️  TENANT CACHE\n  • Loaded Tenants: "@
        + decimal(loaded as nat)
        + "\n  • Max Size: "@
        + decimal(c.cache.tenant_config.max_size_mb as nat)
        + "MB\n  • Hot Reload: "@
        + bool_text(c.cache.tenant_config.hot_reload)
        + " (interval: "@
        + decimal(c.cache.tenant_config.reload_interval_seconds as nat)
}

fn push_report_tenant_cache(r: &mut String, c: &StartupConfig, loaded: usize, burst: &str)
    ensures
        final(r)@ == old(r)@ + report_tenant_cache(*c, loaded as nat, burst@),
{
    let ghost start = r@;
    let ghost mut acc: Seq<char> = Seq::empty();
    assert(start + acc =~= start);
    push_str(r, "\n  \n🗂️  TENANT CACHE\n  • Loaded Tenants: ");
    proof { lemma_append_assoc(start, acc, "\n  \n🗂️  TENANT CACHE\n  • Loaded Tenants: "@); acc = acc + "\n  \n🗂️  TENANT CACHE\n  • Loaded Tenants: "@; }
    let t = u64_to_string(loaded as u64);
    push_str(r, t.as_str());
    proof { lemma_append_assoc(start, acc, t@); acc = acc + t@; }
    push_str(r, "\n  • Max Size: ");
    proof { lemma_append_assoc(start, acc, "\n  • Max Size: "@); acc = acc + "\n  • Max Size: "@; }
    let t = u64_to_string(c.cache.tenant_config.max_size_mb as u64);
    push_str(r, t.as_str());
    proof { lemma_append_assoc(start, acc, t@); acc = acc + t@; }
    push_str(r, "MB\n  • Hot Reload: ");
    proof { lemma_append_assoc(start, acc, "MB\n  • Hot Reload: "@); acc = acc + "MB\n  • Hot Reload: "@; }
    push_str(r, bool_str(c.cache.tenant_config.hot_reload));
    proof { lemma_append_assoc(start, acc, bool_text(c.cache.tenant_config.hot_reload)); acc = acc + bool_text(c.cache.tenant_config.hot_reload); }
    push_str(r, " (interval: ");
    proof { lemma_append_assoc(start, acc, " (interval: "@); acc = acc + " (interval: "@; }
    let t = u64_to_string(c.cache.tenant_config.reload_interval_seconds as u64);
    push_str(r, t.as_str());
    proof { lemma_append_assoc(start, acc, t@); acc = acc + t@; }
    assert(acc =~= report_tenant_cache(*c, loaded as nat, burst@));
}

/// The metrics part of the configuration report.
pub open spec fn report_metrics(c: StartupConfig, loaded: nat, burst: Seq<char>) -> Seq<char> {
    "s)\n  \n📈 METRICS\n  • Enabled: "@
        + bool_text(c.cache.metrics.enabled)
        + "\n  • Flush Interval: "@
        + decimal(c.cache.metrics.flush_interval_ms as nat)
        + "ms\n  • Max Entries Per Tenant: "@
        + decimal(c.cache.metrics.max_entries_per_tenant as nat)
        + "\n  • Memory Limit: "@
        + decimal(c.cache.metrics.memory_limit_mb as nat)
}

fn push_report_metrics(r: &mut String, c: &StartupConfig, loaded: usize, burst: &str)
    ensures
        final(r)@ == old(r)@ + report_metrics(*c, loaded as nat, burst@),
{
    let ghost start = r@;
    let ghost mut acc: Seq<char> = Seq::empty();
    assert(start + acc =~= start);
    push_str(r, "s)\n  \n📈 METRICS\n  • Enabled: ");
    proof { lemma_append_assoc(start, acc, "s)\n  \n📈 METRICS\n  • Enabled: "@); acc = acc + "s)\n  \n📈 METRICS\n  • Enabled: "@; }
    push_str(r, bool_str(c.cache.metrics.enabled));
    proof { lemma_append_assoc(start, acc, bool_text(c.cache.metrics.enabled)); acc = acc + bool_text(c.cache.metrics.enabled); }
    push_str(r, "\n  • Flush Interval: ");
    proof { lemma_append_assoc(start, acc, "\n  • Flush Interval: "@); acc = acc + "\n  • Flush Interval: "@; }
    let t = u64_to_string(c.cache.metrics.flush_interval_ms as u64);
    push_str(r, t.as_str());
    proof { lemma_append_assoc(start, acc, t@); acc = acc + t@; }
    push_str(r, "ms\n  • Max Entries Per Tenant: ");
    proof { lemma_append_assoc(start, acc, "ms\n  • Max Entries Per Tenant: "@); acc = acc + "ms\n  • Max Entries Per Tenant: "@; }
    let t = u64_to_string(c.cache.metrics.max_entries_per_tenant as u64);
    push_str(r, t.as_str());
    proof { lemma_append_assoc(start, acc, t@); acc = acc + t@; }
    push_str(r, "\n  • Memory Limit: ");
    proof { lemma_append_assoc(start, acc, "\n  • Memory Limit: "@); acc = acc + "\n  • Memory Limit: "@; }
    let t = u64_to_string(c.cache.metrics.memory_limit_mb as u64);
    push_str(r, t.as_str());
    proof { lemma_append_assoc(start, acc, t@); acc = acc + t@; }
    assert(acc =~= report_metrics(*c, loaded as nat, burst@));
}

/// The authentication part of the configuration report.
pub open spec fn report_authentication(c: StartupConfig, loaded: nat, burst: Seq<char>) -> Seq<char> {
    "MB\n  \n🔐 AUTHENTICATION\n  • Method: "@
        + c.authentication.method@
        + "\n  • PSK Hash: "@
        + c.authentication.psk_hash_algorithm@
        + "\n  • Min PSK Length: "@
        + decimal(c.authentication.min_psk_length as nat)
        + " bytes\n  • TLS Required: "@
        + bool_text(c.authentication.require_tls)
}

fn push_report_authentication(r: &mut String, c: &StartupConfig, loaded: usize, burst: &str)
    ensures
        final(r)@ == old(r)@ + report_authentication(*c, loaded as nat, burst@),
{
    let ghost start = r@;
    let ghost mut acc: Seq<char> = Seq::empty();
    assert(start + acc =~= start);
    push_str(r, "MB\n  \n🔐 AUTHENTICATION\n  • Method: ");
    proof { lemma_append_assoc(start, acc, "MB\n  \n🔐 AUTHENTICATION\n  • Method: "@); acc = acc + "MB\n  \n🔐 AUTHENTICATION\n  • Method: "@; }
    push_str(r, c.authentication.method.as_str());
    proof { lemma_append_assoc(start, acc, c.authentication.method@); acc = acc + c.authentication.method@; }
    push_str(r, "\n  • PSK Hash: ");
    proof { lemma_append_assoc(start, acc, "\n  • PSK Hash: "@); acc = acc + "\n  • PSK Hash: "@; }
    push_str(r, c.authentication.psk_hash_algorithm.as_str());
    proof { lemma_append_assoc(start, acc, c.authentication.psk_hash_algorithm@); acc = acc + c.authentication.psk_hash_algorithm@; }
    push_str(r, "\n  • Min PSK Length: ");
    proof { lemma_append_assoc(start, acc, "\n  • Min PSK Length: "@); acc = acc + "\n  • Min PSK Length: "@; }
    let t = u64_to_string(c.authentication.min_psk_length as u64);
    push_str(r, t.as_str());
    proof { lemma_append_assoc(start, acc, t@); acc = acc + t@; }
    push_str(r, " bytes\n  • TLS Required: ");
    proof { lemma_append_assoc(start, acc, " bytes\n  • TLS Required: "@); acc = acc + " bytes\n  • TLS Required: "@; }
    push_str(r, bool_str(c.authentication.require_tls));
    proof { lemma_append_assoc(start, acc, bool_text(c.authentication.require_tls)); acc = acc + bool_text(c.authentication.require_tls); }
    assert(acc =~= report_authentication(*c, loaded as nat, burst@));
}

/// The rate limiting part of the configuration report.
pub open spec fn report_rate_limiting(c: StartupConfig, loaded: nat, burst: Seq<char>) -> Seq<char> {
    "\n  \n⏱️  RATE LIMITING\n  • Enabled: "@
        + bool_text(c.rate_limiting.enabled)
        + "\n  • Default RPS: "@
        + decimal(c.rate_limiting.default_rps as nat)
        + "\n  • Burst Multiplier: "@
        + burst
        + "\n  • Per-Tenant Override: "@
        + bool_text(c.rate_limiting.per_tenant_override)
}

fn push_report_rate_limiting(r: &mut String, c: &StartupConfig, loaded: usize, burst: &str)
    ensures
        final(r)@ == old(r)@ + report_rate_limiting(*c, loaded as nat, burst@),
{
    let ghost start = r@;
    let ghost mut acc: Seq<char> = Seq::empty();
    assert(start + acc =~= start);
    push_str(r, "\n  \n⏱️  RATE LIMITING\n  • Enabled: ");
    proof { lemma_append_assoc(start, acc, "\n  \n⏱️  RATE LIMITING\n  • Enabled: "@); acc = acc + "\n  \n⏱️  RATE LIMITING\n  • Enabled: "@; }
    push_str(r, bool_str(c.rate_limiting.enabled));
    proof { lemma_append_assoc(start, acc, bool_text(c.rate_limiting.enabled)); acc = acc + bool_text(c.rate_limiting.enabled); }
    push_str(r, "\n  • Default RPS: ");
    proof { lemma_append_assoc(start, acc, "\n  • Default RPS: "@); acc = acc + "\n  • Default RPS: "@; }
    let t = u64_to_string(c.rate_limiting.default_rps as u64);
    push_str(r, t.as_str());
    proof { lemma_append_assoc(start, acc, t@); acc = acc + t@; }
    push_str(r, "\n  • Burst Multiplier: ");
    proof { lemma_append_assoc(start, acc, "\n  • Burst Multiplier: "@); acc = acc + "\n  • Burst Multiplier: "@; }
    push_str(r, burst);
    proof { lemma_append_assoc(start, acc, burst@); acc = acc + burst@; }
    push_str(r, "\n  • Per-Tenant Override: ");
    proof { lemma_append_assoc(start, acc, "\n  • Per-Tenant Override: "@); acc = acc + "\n  • Per-Tenant Override: "@; }
    push_str(r, bool_str(c.rate_limiting.per_tenant_override));
    proof { lemma_append_assoc(start, acc, bool_text(c.rate_limiting.per_tenant_override)); acc = acc + bool_text(c.rate_limiting.per_tenant_override); }
    assert(acc =~= report_rate_limiting(*c, loaded as nat, burst@));
}

/// The logging part of the configuration report.
pub open spec fn report_logging(c: StartupConfig, loaded: nat, burst: Seq<char>) -> Seq<char> {
    "\n  \n📝 LOGGING\n  • NDJSON Enabled: "@
        + bool_text(c.logging.ndjson.enabled)
        + "\n  • Log Level: "@
        + c.logging.level@
        + "\n  • Buffer Size: "@
        + decimal(c.logging.ndjson.buffer_size_mb as nat)
        + "MB\n  • Flush Interval: "@
        + decimal(c.logging.ndjson.flush_interval_ms as nat)
        + "ms\n  • Archive Enabled: "@
        + bool_text(c.logging.archive.enabled)
        + " (format: "@
        + c.logging.archive.format@
        + ")\n  • Rotation Enabled: "@
        + bool_text(c.logging.rotation.enabled)
        + " (schedule: "@
        + decimal(c.logging.rotation.schedule_utc_hour as nat)
        + ":00 UTC)\n  • Archive Schedule: "@
        + decimal(c.logging.archive.schedule_utc_hour as nat)
        + ":00 UTC\n  • Retention: "@
        + decimal(c.logging.archive.retention_days as nat)
}

fn push_report_logging(r: &mut String, c: &StartupConfig, loaded: usize, burst: &str)
    ensures
        final(r)@ == old(r)@ + report_logging(*c, loaded as nat, burst@),
{
    let ghost start = r@;
    let ghost mut acc: Seq<char> = Seq::empty();
    assert(start + acc =~= start);
    push_str(r, "\n  \n📝 LOGGING\n  • NDJSON Enabled: ");
    proof { lemma_append_assoc(start, acc, "\n  \n📝 LOGGING\n  • NDJSON Enabled: "@); acc = acc + "\n  \n📝 LOGGING\n  • NDJSON Enabled: "@; }
    push_str(r, bool_str(c.logging.ndjson.enabled));
    proof { lemma_append_assoc(start, acc, bool_text(c.logging.ndjson.enabled)); acc = acc + bool_text(c.logging.ndjson.enabled); }
    push_str(r, "\n  • Log Level: ");
    proof { lemma_append_assoc(start, acc, "\n  • Log Level: "@); acc = acc + "\n  • Log Level: "@; }
    push_str(r, c.logging.level.as_str());
    proof { lemma_append_assoc(start, acc, c.logging.level@); acc = acc + c.logging.level@; }
    push_str(r, "\n  • Buffer Size: ");
    proof { lemma_append_assoc(start, acc, "\n  • Buffer Size: "@); acc = acc + "\n  • Buffer Size: "@; }
    let t = u64_to_string(c.logging.ndjson.buffer_size_mb as u64);
    push_str(r, t.as_str());
    proof { lemma_append_assoc(start, acc, t@); acc = acc + t@; }
    push_str(r, "MB\n  • Flush Interval: ");
    proof { lemma_append_assoc(start, acc, "MB\n  • Flush Interval: "@); acc = acc + "MB\n  • Flush Interval: "@; }
    let t = u64_to_string(c.logging.ndjson.flush_interval_ms as u64);
    push_str(r, t.as_str());
    proof { lemma_append_assoc(start, acc, t@); acc = acc + t@; }
    push_str(r, "ms\n  • Archive Enabled: ");
    proof { lemma_append_assoc(start, acc, "ms\n  • Archive Enabled: "@); acc = acc + "ms\n  • Archive Enabled: "@; }
    push_str(r, bool_str(c.logging.archive.enabled));
    proof { lemma_append_assoc(start, acc, bool_text(c.logging.archive.enabled)); acc = acc + bool_text(c.logging.archive.enabled); }
    push_str(r, " (format: ");
    proof { lemma_append_assoc(start, acc, " (format: "@); acc = acc + " (format: "@; }
    push_str(r, c.logging.archive.format.as_str());
    proof { lemma_append_assoc(start, acc, c.logging.archive.format@); acc = acc + c.logging.archive.format@; }
    push_str(r, ")\n  • Rotation Enabled: ");
    proof { lemma_append_assoc(start, acc, ")\n  • Rotation Enabled: "@); acc = acc + ")\n  • Rotation Enabled: "@; }
    push_str(r, bool_str(c.logging.rotation.enabled));
    proof { lemma_append_assoc(start, acc, bool_text(c.logging.rotation.enabled)); acc = acc + bool_text(c.logging.rotation.enabled); }
    push_str(r, " (schedule: ");
    proof { lemma_append_assoc(start, acc, " (schedule: "@); acc = acc + " (schedule: "@; }
    let t = u64_to_string(c.logging.rotation.schedule_utc_hour as u64);
    push_str(r, t.as_str());
    proof { lemma_append_assoc(start, acc, t@); acc = acc + t@; }
    push_str(r, ":00 UTC)\n  • Archive Schedule: ");
    proof { lemma_append_assoc(start, acc, ":00 UTC)\n  • Archive Schedule: "@); acc = acc + ":00 UTC)\n  • Archive Schedule: "@; }
    let t = u64_to_string(c.logging.archive.schedule_utc_hour as u64);
    push_str(r, t.as_str());
    proof { lemma_append_assoc(start, acc, t@); acc = acc + t@; }
    push_str(r, ":00 UTC\n  • Retention: ");
    proof { lemma_append_assoc(start, acc, ":00 UTC\n  • Retention: "@); acc = acc + ":00 UTC\n  • Retention: "@; }
    let t = u64_to_string(c.logging.archive.retention_days as u64);
    push_str(r, t.as_str());
    proof { lemma_append_assoc(start, acc, t@); acc = acc + t@; }
    assert(acc =~= report_logging(*c, loaded as nat, burst@));
}

/// The resilience part of the configuration report.
pub open spec fn report_resilience(c: StartupConfig, loaded: nat, burst: Seq<char>) -> Seq<char> {
    " days\n  \n🛡️  RESILIENCE\n  • Connection Timeout: "@
        + decimal(c.resilience.connection_timeout_ms as nat)
        + "ms\n  • Max Connections Per Tenant: "@
        + decimal(c.resilience.max_connections_per_tenant as nat)
        + "\n  • Max Queue Size Per Tenant: "@
        + decimal(c.resilience.max_queue_size_per_tenant as nat)
        + "\n  • Overflow Strategy: "@
        + c.resilience.overflow_strategy@
        + "\n  • Circuit Breaker: "@
        + bool_text(c.resilience.circuit_breaker.enabled)
        + " (threshold: "@
        + decimal(c.resilience.circuit_breaker.failure_threshold as nat)
}

fn push_report_resilience(r: &mut String, c: &StartupConfig, loaded: usize, burst: &str)
    ensures
        final(r)@ == old(r)@ + report_resilience(*c, loaded as nat, burst@),
{
    let ghost start = r@;
    let ghost mut acc: Seq<char> = Seq::empty();
    assert(start + acc =~= start);
    push_str(r, " days\n  \n🛡️  RESILIENCE\n  • Connection Timeout: ");
    proof { lemma_append_assoc(start, acc, " days\n  \n🛡️  RESILIENCE\n  • Connection Timeout: "@); acc = acc + " days\n  \n🛡️  RESILIENCE\n  • Connection Timeout: "@; }
    let t = u64_to_string(c.resilience.connection_timeout_ms as u64);
    push_str(r, t.as_str());
    proof { lemma_append_assoc(start, acc, t@); acc = acc + t@; }
    push_str(r, "ms\n  • Max Connections Per Tenant: ");
    proof { lemma_append_assoc(start, acc, "ms\n  • Max Connections Per Tenant: "@); acc = acc + "ms\n  • Max Connections Per Tenant: "@; }
    let t = u64_to_string(c.resilience.max_connections_per_tenant as u64);
    push_str(r, t.as_str());
    proof { lemma_append_assoc(start, acc, t@); acc = acc + t@; }
    push_str(r, "\n  • Max Queue Size Per Tenant: ");
    proof { lemma_append_assoc(start, acc, "\n  • Max Queue Size Per Tenant: "@); acc = acc + "\n  • Max Queue Size Per Tenant: "@; }
    let t = u64_to_string(c.resilience.max_queue_size_per_tenant as u64);
    push_str(r, t.as_str());
    proof { lemma_append_assoc(start, acc, t@); acc = acc + t@; }
    push_str(r, "\n  • Overflow Strategy: ");
    proof { lemma_append_assoc(start, acc, "\n  • Overflow Strategy: "@); acc = acc + "\n  • Overflow Strategy: "@; }
    push_str(r, c.resilience.overflow_strategy.as_str());
    proof { lemma_append_assoc(start, acc, c.resilience.overflow_strategy@); acc = acc + c.resilience.overflow_strategy@; }
    push_str(r, "\n  • Circuit Breaker: ");
    proof { lemma_append_assoc(start, acc, "\n  • Circuit Breaker: "@); acc = acc + "\n  • Circuit Breaker: "@; }
    push_str(r, bool_str(c.resilience.circuit_breaker.enabled));
    proof { lemma_append_assoc(start, acc, bool_text(c.resilience.circuit_breaker.enabled)); acc = acc + bool_text(c.resilience.circuit_breaker.enabled); }
    push_str(r, " (threshold: ");
    proof { lemma_append_assoc(start, acc, " (threshold: "@); acc = acc + " (threshold: "@; }
    let t = u64_to_string(c.resilience.circuit_breaker.failure_threshold as u64);
    push_str(r, t.as_str());
    proof { lemma_append_assoc(start, acc, t@); acc = acc + t@; }
    assert(acc =~= report_resilience(*c, loaded as nat, burst@));
}

/// The performance part of the configuration report.
pub open spec fn report_performance(c: StartupConfig, loaded: nat, burst: Seq<char>) -> Seq<char> {
    ")\n  \n⚙️  PERFORMANCE\n  • Worker Threads: "@
        + (if c.performance.worker_threads == 0 { "auto"@ } else { decimal(c.performance.worker_threads as nat) })
        + "\n  • Batch Size: "@
        + decimal(c.performance.batch_size as nat)
        + "\n  • Vectored I/O: "@
        + bool_text(c.performance.enable_vectored_io)
        + "\n  • TCP_NODELAY: "@
        + bool_text(c.performance.enable_tcp_nodelay)
        + "\n  • Zero-Copy: "@
        + bool_text(c.performance.enable_zero_copy)
}

fn push_report_performance(r: &mut String, c: &StartupConfig, loaded: usize, burst: &str)
    ensures
        final(r)@ == old(r)@ + report_performance(*c, loaded as nat, burst@),
{
    let ghost start = r@;
    let ghost mut acc: Seq<char> = Seq::empty();
    assert(start + acc =~= start);
    push_str(r, ")\n  \n⚙️  PERFORMANCE\n  • Worker Threads: ");
    proof { lemma_append_assoc(start, acc, ")\n  \n⚙️  PERFORMANCE\n  • Worker Threads: "@); acc = acc + ")\n  \n⚙️  PERFORMANCE\n  • Worker Threads: "@; }
    let t = worker_threads_label(c.performance.worker_threads);
    push_str(r, t.as_str());
    proof { lemma_append_assoc(start, acc, t@); acc = acc + t@; }
    push_str(r, "\n  • Batch Size: ");
    proof { lemma_append_assoc(start, acc, "\n  • Batch Size: "@); acc = acc + "\n  • Batch Size: "@; }
    let t = u64_to_string(c.performance.batch_size as u64);
    push_str(r, t.as_str());
    proof { lemma_append_assoc(start, acc, t@); acc = acc + t@; }
    push_str(r, "\n  • Vectored I/O: ");
    proof { lemma_append_assoc(start, acc, "\n  • Vectored I/O: "@); acc = acc + "\n  • Vectored I/O: "@; }
    push_str(r, bool_str(c.performance.enable_vectored_io));
    proof { lemma_append_assoc(start, acc, bool_text(c.performance.enable_vectored_io)); acc = acc + bool_text(c.performance.enable_vectored_io); }
    push_str(r, "\n  • TCP_NODELAY: ");
    proof { lemma_append_assoc(start, acc, "\n  • TCP_NODELAY: "@); acc = acc + "\n  • TCP_NODELAY: "@; }
    push_str(r, bool_str(c.performance.enable_tcp_nodelay));
    proof { lemma_append_assoc(start, acc, bool_text(c.performance.enable_tcp_nodelay)); acc = acc + bool_text(c.performance.enable_tcp_nodelay); }
    push_str(r, "\n  • Zero-Copy: ");
    proof { lemma_append_assoc(start, acc, "\n  • Zero-Copy: "@); acc = acc + "\n  • Zero-Copy: "@; }
    push_str(r, bool_str(c.performance.enable_zero_copy));
    proof { lemma_append_assoc(start, acc, bool_text(c.performance.enable_zero_copy)); acc = acc + bool_text(c.performance.enable_zero_copy); }
    assert(acc =~= report_performance(*c, loaded as nat, burst@));
}

/// The features part of the configuration report.
pub open spec fn report_features(c: StartupConfig, loaded: nat, burst: Seq<char>) -> Seq<char> {
    "\n  \n🔧 FEATURES ENABLED\n  • Priority Queue: "@
        + bool_text(c.features.priority_queue)
        + "\n  • Message Compression: "@
        + bool_text(c.features.message_compression)
        + "\n  • Message Encryption: "@
        + bool_text(c.features.message_encryption)
        + "\n  • Message Signing: "@
        + bool_text(c.features.message_signing)
        + "\n  • Dead Letter Queue: "@
        + bool_text(c.features.dead_letter_queue)
        + "\n  • Message Deduplication: "@
        + bool_text(c.features.message_deduplication)
        + "\n  • Ordered Delivery: "@
        + bool_text(c.features.ordered_delivery)
}

fn push_report_features(r: &mut String, c: &StartupConfig, loaded: usize, burst: &str)
    ensures
        final(r)@ == old(r)@ + report_features(*c, loaded as nat, burst@),
{
    let ghost start = r@;
    let ghost mut acc: Seq<char> = Seq::empty();
    assert(start + acc =~= start);
    push_str(r, "\n  \n🔧 FEATURES ENABLED\n  • Priority Queue: ");
    proof { lemma_append_assoc(start, acc, "\n  \n🔧 FEATURES ENABLED\n  • Priority Queue: "@); acc = acc + "\n  \n🔧 FEATURES ENABLED\n  • Priority Queue: "@; }
    push_str(r, bool_str(c.features.priority_queue));
    proof { lemma_append_assoc(start, acc, bool_text(c.features.priority_queue)); acc = acc + bool_text(c.features.priority_queue); }
    push_str(r, "\n  • Message Compression: ");
    proof { lemma_append_assoc(start, acc, "\n  • Message Compression: "@); acc = acc + "\n  • Message Compression: "@; }
    push_str(r, bool_str(c.features.message_compression));
    proof { lemma_append_assoc(start, acc, bool_text(c.features.message_compression)); acc = acc + bool_text(c.features.message_compression); }
    push_str(r, "\n  • Message Encryption: ");
    proof { lemma_append_assoc(start, acc, "\n  • Message Encryption: "@); acc = acc + "\n  • Message Encryption: "@; }
    push_str(r, bool_str(c.features.message_encryption));
    proof { lemma_append_assoc(start, acc, bool_text(c.features.message_encryption)); acc = acc + bool_text(c.features.message_encryption); }
    push_str(r, "\n  • Message Signing: ");
    proof { lemma_append_assoc(start, acc, "\n  • Message Signing: "@); acc = acc + "\n  • Message Signing: "@; }
    push_str(r, bool_str(c.features.message_signing));
    proof { lemma_append_assoc(start, acc, bool_text(c.features.message_signing)); acc = acc + bool_text(c.features.message_signing); }
    push_str(r, "\n  • Dead Letter Queue: ");
    proof { lemma_append_assoc(start, acc, "\n  • Dead Letter Queue: "@); acc = acc + "\n  • Dead Letter Queue: "@; }
    push_str(r, bool_str(c.features.dead_letter_queue));
    proof { lemma_append_assoc(start, acc, bool_text(c.features.dead_letter_queue)); acc = acc + bool_text(c.features.dead_letter_queue); }
    push_str(r, "\n  • Message Deduplication: ");
    proof { lemma_append_assoc(start, acc, "\n  • Message Deduplication: "@); acc = acc + "\n  • Message Deduplication: "@; }
    push_str(r, bool_str(c.features.message_deduplication));
    proof { lemma_append_assoc(start, acc, bool_text(c.features.message_deduplication)); acc = acc + bool_text(c.features.message_deduplication); }
    push_str(r, "\n  • Ordered Delivery: ");
    proof { lemma_append_assoc(start, acc, "\n  • Ordered Delivery: "@); acc = acc + "\n  • Ordered Delivery: "@; }
    push_str(r, bool_str(c.features.ordered_delivery));
    proof { lemma_append_assoc(start, acc, bool_text(c.features.ordered_delivery)); acc = acc + bool_text(c.features.ordered_delivery); }
    assert(acc =~= report_features(*c, loaded as nat, burst@));
}

/// The deployment part of the configuration report.
pub open spec fn report_deployment(c: StartupConfig, loaded: nat, burst: Seq<char>) -> Seq<char> {
    "\n  \n🚀 DEPLOYMENT\n  • Environment: "@
        + c.deployment.environment@
        + "\n  • Config Watch: "@
        + bool_text(c.deployment.config_watch_enabled)
        + " (interval: "@
        + decimal(c.deployment.config_watch_interval_ms as nat)
        + "ms)\n  • Graceful Shutdown Timeout: "@
        + decimal(c.deployment.graceful_shutdown_timeout_ms as nat)
        + "ms\n\n╚═══════════════════════════════════════════════════════════════════════════╝\n"@
}

fn push_report_deployment(r: &mut String, c: &StartupConfig, loaded: usize, burst: &str)
    ensures
        final(r)@ == old(r)@ + report_deployment(*c, loaded as nat, burst@),
{
    let ghost start = r@;
    let ghost mut acc: Seq<char> = Seq::empty();
    assert(start + acc =~= start);
    push_str(r, "\n  \n🚀 DEPLOYMENT\n  • Environment: ");
    proof { lemma_append_assoc(start, acc, "\n  \n🚀 DEPLOYMENT\n  • Environment: "@); acc = acc + "\n  \n🚀 DEPLOYMENT\n  • Environment: "@; }
    push_str(r, c.deployment.environment.as_str());
    proof { lemma_append_assoc(start, acc, c.deployment.environment@); acc = acc + c.deployment.environment@; }
    push_str(r, "\n  • Config Watch: ");
    proof { lemma_append_assoc(start, acc, "\n  • Config Watch: "@); acc = acc + "\n  • Config Watch: "@; }
    push_str(r, bool_str(c.deployment.config_watch_enabled));
    proof { lemma_append_assoc(start, acc, bool_text(c.deployment.config_watch_enabled)); acc = acc + bool_text(c.deployment.config_watch_enabled); }
    push_str(r, " (interval: ");
    proof { lemma_append_assoc(start, acc, " (interval: "@); acc = acc + " (interval: "@; }
    let t = u64_to_string(c.deployment.config_watch_interval_ms as u64);
    push_str(r, t.as_str());
    proof { lemma_append_assoc(start, acc, t@); acc = acc + t@; }
    push_str(r, "ms)\n  • Graceful Shutdown Timeout: ");
    proof { lemma_append_assoc(start, acc, "ms)\n  • Graceful Shutdown Timeout: "@); acc = acc + "ms)\n  • Graceful Shutdown Timeout: "@; }
    let t = u64_to_string(c.deployment.graceful_shutdown_timeout_ms as u64);
    push_str(r, t.as_str());
    proof { lemma_append_assoc(start, acc, t@); acc = acc + t@; }
    push_str(r, "ms\n\n╚═══════════════════════════════════════════════════════════════════════════╝\n");
    proof { lemma_append_assoc(start, acc, "ms\n\n╚═══════════════════════════════════════════════════════════════════════════╝\n"@); acc = acc + "ms\n\n╚═══════════════════════════════════════════════════════════════════════════╝\n"@; }
    assert(acc =~= report_deployment(*c, loaded as nat, burst@));
}

/// The readable configuration report: each section of the startup
/// configuration with its settings, `loaded` the number of cached tenants and
/// `burst` the burst multiplier as already written out.
pub open spec fn config_report_text(c: StartupConfig, loaded: nat, burst: Seq<char>) -> Seq<char> {
    Seq::<char>::empty()
        + report_server(c, loaded, burst)
        + report_storage(c, loaded, burst)
        + report_tenant_cache(c, loaded, burst)
        + report_metrics(c, loaded, burst)
        + report_authentication(c, loaded, burst)
        + report_rate_limiting(c, loaded, burst)
        + report_logging(c, loaded, burst)
        + report_resilience(c, loaded, burst)
        + report_performance(c, loaded, burst)
        + report_features(c, loaded, burst)
        + report_deployment(c, loaded, burst)
}

/// The configuration report, as `config_report_text` says.
pub fn config_report(c: &StartupConfig, loaded: usize, burst: &str) -> (r: String)
    ensures
        r@ == config_report_text(*c, loaded as nat, burst@),
{
    let mut r = String::new();
    push_report_server(&mut r, c, loaded, burst);
    push_report_storage(&mut r, c, loaded, burst);
    push_report_tenant_cache(&mut r, c, loaded, burst);
    push_report_metrics(&mut r, c, loaded, burst);
    push_report_authentication(&mut r, c, loaded, burst);
    push_report_rate_limiting(&mut r, c, loaded, burst);
    push_report_logging(&mut r, c, loaded, burst);
    push_report_resilience(&mut r, c, loaded, burst);
    push_report_performance(&mut r, c, loaded, burst);
    push_report_features(&mut r, c, loaded, burst);
    push_report_deployment(&mut r, c, loaded, burst);
    r
}

} // verus!
