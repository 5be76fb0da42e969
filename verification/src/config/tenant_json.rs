//! Per-tenant configuration documents: metadata, settings, credentials,
//! recent logins and recent metrics. Reading and writing the files is left
//! to the caller.
use vstd::prelude::*;
use crate::clock;
use crate::string_map::StringMap;
use crate::text::{byte_len, concat, owned, str_eq};

verus! {

/// A tenant's configuration document.
#[derive(Debug, Clone)]
pub struct TenantJsonConfig {
    pub tenant: TenantMetadata,
    pub configuration: TenantSettings,
    pub credentials: Vec<Credential>,
    pub login_history: Vec<LoginHistoryEntry>,
    pub metrics: Vec<MetricsSnapshot>,
}

/// Identity of a tenant.
#[derive(Debug, Clone)]
pub struct TenantMetadata {
    pub id: String,
    pub name: String,
    pub created_at: String,
    pub updated_at: String,
}

/// Per-tenant settings.
#[derive(Debug, Clone)]
pub struct TenantSettings {
    pub rate_limit_rps: u32,
    pub max_connections: u32,
    pub max_queue_size: u64,
    pub compression_enabled: bool,
    pub retention_days: u32,
    pub priority_queue_enabled: bool,
    pub ordered_delivery: bool,
    pub message_deduplication: bool,
    pub dead_letter_queue_enabled: bool,
    pub custom_settings: StringMap,
}

/// The default settings.
pub open spec fn default_settings(s: TenantSettings) -> bool {
    &&& s.rate_limit_rps == 1000
    &&& s.max_connections == 100
    &&& s.max_queue_size == 1_000_000
    &&& s.compression_enabled
    &&& s.retention_days == 30
    &&& s.priority_queue_enabled
    &&& s.ordered_delivery
    &&& s.message_deduplication
    &&& s.dead_letter_queue_enabled
    &&& s.custom_settings.view() == Map::<Seq<char>, Seq<char>>::empty()
}

impl Default for TenantSettings {
    fn default() -> (r: Self)
        ensures
            default_settings(r),
    {
        TenantSettings {
            rate_limit_rps: 1000,
            max_connections: 100,
            max_queue_size: 1_000_000,
            compression_enabled: true,
            retention_days: 30,
            priority_queue_enabled: true,
            ordered_delivery: true,
            message_deduplication: true,
            dead_letter_queue_enabled: true,
            custom_settings: StringMap::new(),
        }
    }
}

/// A credential of a tenant (`psk` is its pre-shared key).
#[derive(Debug, Clone)]
pub struct Credential {
    pub id: String,
    pub username: String,
    pub psk: String,
    pub password_hash: Option<String>,
    pub created_at: String,
    pub last_rotated_at: Option<String>,
    pub enabled: bool,
}

/// One login attempt.
#[derive(Debug, Clone)]
pub struct LoginHistoryEntry {
    pub username: String,
    pub login_timestamp: String,
    pub ip_address: String,
    pub success: bool,
    pub session_id: String,
}

/// A metrics snapshot; the latencies are kept as the bit patterns of their
/// `f32` values.
#[derive(Debug, Clone)]
pub struct MetricsSnapshot {
    pub timestamp: String,
    pub messages_received: u64,
    pub messages_sent: u64,
    pub bytes_in: u64,
    pub bytes_out: u64,
    pub active_connections: u32,
    pub rate_limit_violations: u32,
    pub average_latency_ms_bits: u32,
    pub p99_latency_ms_bits: u32,
    pub errors: u32,
}

/// The first problem of a tenant document, if any: an empty tenant id, a
/// zero rate limit, zero maximum connections, no credential, or a
/// credential whose pre-shared key is shorter than 32 bytes.
pub open spec fn tenant_problem(c: TenantJsonConfig) -> Option<Seq<char>> {
    if c.tenant.id@.len() == 0 {
        Some("Tenant ID cannot be empty"@)
    } else if c.configuration.rate_limit_rps == 0 {
        Some("Rate limit must be greater than 0"@)
    } else if c.configuration.max_connections == 0 {
        Some("Max connections must be greater than 0"@)
    } else if c.credentials@.len() == 0 {
        Some("At least one credential must be configured"@)
    } else {
        match short_psk(c.credentials@) {
            Some(i) => Some("PSK must be at least 32 characters for credential: "@ + c.credentials@[i].id@),
            None => None,
        }
    }
}

/// The first credential whose pre-shared key is shorter than 32 bytes.
pub open spec fn short_psk(cs: Seq<Credential>) -> Option<int> {
    if exists|i: int| 0 <= i < cs.len() && byte_len((#[trigger] cs[i]).psk@) < 32
        && forall|j: int| 0 <= j < i ==> byte_len((#[trigger] cs[j]).psk@) >= 32 {
        Some(choose|i: int| 0 <= i < cs.len() && byte_len((#[trigger] cs[i]).psk@) < 32
            && forall|j: int| 0 <= j < i ==> byte_len((#[trigger] cs[j]).psk@) >= 32)
    } else {
        None
    }
}

proof fn lemma_short_psk_at(cs: Seq<Credential>, i: int)
    requires
        0 <= i < cs.len(),
        byte_len(cs[i].psk@) < 32,
        forall|j: int| 0 <= j < i ==> byte_len((#[trigger] cs[j]).psk@) >= 32,
    ensures
        short_psk(cs) == Some(i),
{
    let c = choose|c: int| 0 <= c < cs.len() && byte_len((#[trigger] cs[c]).psk@) < 32
        && forall|j: int| 0 <= j < c ==> byte_len((#[trigger] cs[j]).psk@) >= 32;
    if c < i {
    } else if c > i {
        assert(byte_len(cs[i].psk@) >= 32);
    }
}

/// The first enabled credential with the given key.
pub open spec fn first_enabled(cs: Seq<Credential>, by_psk: bool, key: Seq<char>) -> Option<int> {
    if exists|i: int| 0 <= i < cs.len() && credential_matches(cs[i], by_psk, key)
        && forall|j: int| 0 <= j < i ==> !credential_matches(cs[j], by_psk, key) {
        Some(choose|i: int| 0 <= i < cs.len() && credential_matches(cs[i], by_psk, key)
            && forall|j: int| 0 <= j < i ==> !credential_matches(cs[j], by_psk, key))
    } else {
        None
    }
}

/// An enabled credential with this pre-shared key (or user name).
pub open spec fn credential_matches(c: Credential, by_psk: bool, key: Seq<char>) -> bool {
    c.enabled && (if by_psk { c.psk@ == key } else { c.username@ == key })
}

/// The last `max` entries of `s` (all of them when there are fewer).
pub open spec fn keep_last<T>(s: Seq<T>, max: nat) -> Seq<T> {
    if s.len() > max { s.skip(s.len() - max) } else { s }
}

/// The sliding window of a tenant's history: after a record is added, at
/// most `max` records are kept, the newest one is the one just added (when
/// `max` is not zero), and what is kept is the newest part of the history,
/// in order.
pub proof fn law_sliding_window<T>(history: Seq<T>, record: T, max: nat)
    ensures
        keep_last(history.push(record), max).len() <= max,
        keep_last(history.push(record), max).len() == if history.len() + 1 > max { max } else { history.len() + 1 },
        max > 0 ==> keep_last(history.push(record), max).last() == record,
        keep_last(history.push(record), max).is_suffix_of(history.push(record)),
{
    let s = history.push(record);
    let k = keep_last(s, max);
    if s.len() > max {
        assert(k =~= s.subrange(s.len() - max, s.len() as int));
    } else {
        assert(k =~= s);
    }
}

/// Keep the last `max` entries of a list.
fn trim_to_last<T>(v: Vec<T>, max: usize) -> (r: Vec<T>)
    ensures
        r@ == keep_last(v@, max as nat),
{
    if v.len() <= max {
        return v;
    }
    let start = v.len() - max;
    let mut out: Vec<T> = Vec::new();
    let mut src = v;
    let ghost s0 = src@;
    let mut rest: Vec<T> = Vec::new();
    while src.len() > start
        invariant
            start <= src@.len() <= s0.len(),
            src@ == s0.take(src@.len() as int),
            rest@.len() == s0.len() - src@.len(),
            forall|k: int| 0 <= k < rest@.len() ==> #[trigger] rest@[k] == s0[s0.len() - 1 - k],
        decreases src@.len(),
    {
        let ghost before = src@;
        let x = src.pop().unwrap();
        assert(before.drop_last() =~= s0.take(src@.len() as int));
        rest.push(x);
    }
    while rest.len() > 0
        invariant
            out@.len() + rest@.len() == s0.len() - start,
            forall|k: int| 0 <= k < rest@.len() ==> #[trigger] rest@[k] == s0[s0.len() - 1 - k],
            forall|k: int| 0 <= k < out@.len() ==> #[trigger] out@[k] == s0[start + k],
            start == s0.len() - max,
        decreases rest@.len(),
    {
        let ghost n = rest@.len();
        let x = rest.pop().unwrap();
        out.push(x);
    }
    assert(out@ =~= s0.skip(start as int));
    out
}

impl TenantJsonConfig {
    /// Check the document, as `tenant_problem` says.
    pub fn validate(&self) -> (r: Result<(), String>)
        ensures
            match tenant_problem(*self) {
                Some(e) => r matches Err(m) && m@ == e,
                None => r is Ok,
            },
    {
        if self.tenant.id.as_str().is_empty() {
            return Err(owned("Tenant ID cannot be empty"));
        }
        if self.configuration.rate_limit_rps == 0 {
            return Err(owned("Rate limit must be greater than 0"));
        }
        if self.configuration.max_connections == 0 {
            return Err(owned("Max connections must be greater than 0"));
        }
        if self.credentials.len() == 0 {
            return Err(owned("At least one credential must be configured"));
        }
        let mut i: usize = 0;
        while i < self.credentials.len()
            invariant
                i <= self.credentials@.len(),
                self.tenant.id@.len() != 0,
                self.configuration.rate_limit_rps != 0,
                self.configuration.max_connections != 0,
                self.credentials@.len() != 0,
                forall|j: int| 0 <= j < i ==> byte_len((#[trigger] self.credentials@[j]).psk@) >= 32,
            decreases self.credentials@.len() - i,
        {
            if self.credentials[i].psk.as_str().len() < 32 {
                proof { lemma_short_psk_at(self.credentials@, i as int); }
                return Err(concat("PSK must be at least 32 characters for credential: ", self.credentials[i].id.as_str()));
            }
            i = i + 1;
        }
        Ok(())
    }

    /// The enabled credentials, in order.
    pub fn get_enabled_credentials(&self) -> (r: Vec<&Credential>)
        ensures
            r@.len() <= self.credentials@.len(),
            forall|i: int| 0 <= i < r@.len() ==> (#[trigger] r@[i]).enabled,
            r@.len() == self.credentials@.filter(|c: Credential| c.enabled).len(),
            forall|i: int| 0 <= i < r@.len() ==> *(#[trigger] r@[i]) == self.credentials@.filter(|c: Credential| c.enabled)[i],
    {
        let mut r: Vec<&Credential> = Vec::new();
        let mut i: usize = 0;
        while i < self.credentials.len()
            invariant
                i <= self.credentials@.len(),
                r@.len() == self.credentials@.take(i as int).filter(|c: Credential| c.enabled).len(),
                forall|k: int| 0 <= k < r@.len() ==> *(#[trigger] r@[k]) == self.credentials@.take(i as int).filter(|c: Credential| c.enabled)[k],
            decreases self.credentials@.len() - i,
        {
            let ghost before = self.credentials@.take(i as int);
            assert(self.credentials@.take(i + 1).drop_last() =~= before);
            reveal(Seq::filter);
            if self.credentials[i].enabled {
                r.push(&self.credentials[i]);
            }
            i = i + 1;
        }
        assert(self.credentials@.take(self.credentials@.len() as int) =~= self.credentials@);
        proof {
            let f = self.credentials@.filter(|c: Credential| c.enabled);
            assert forall|k: int| 0 <= k < r@.len() implies (#[trigger] r@[k]).enabled by {
                assert(f.contains(f[k]));
            }
            self.credentials@.lemma_filter_len(|c: Credential| c.enabled);
        }
        r
    }

    fn find_enabled(&self, by_psk: bool, key: &str) -> (r: Option<&Credential>)
        ensures
            match first_enabled(self.credentials@, by_psk, key@) {
                Some(i) => r == Some(&self.credentials@[i]),
                None => r is None,
            },
    {
        let mut i: usize = 0;
        while i < self.credentials.len()
            invariant
                i <= self.credentials@.len(),
                forall|j: int| 0 <= j < i ==> !credential_matches(#[trigger] self.credentials@[j], by_psk, key@),
            decreases self.credentials@.len() - i,
        {
            let c = &self.credentials[i];
            let hit = c.enabled && (if by_psk { str_eq(c.psk.as_str(), key) } else { str_eq(c.username.as_str(), key) });
            if hit {
                proof {
                    let cs = self.credentials@;
                    let w = choose|w: int| 0 <= w < cs.len() && credential_matches(cs[w], by_psk, key@)
                        && forall|j: int| 0 <= j < w ==> !credential_matches(cs[j], by_psk, key@);
                    if w < i {
                    } else if w > i {
                        assert(!credential_matches(cs[i as int], by_psk, key@));
                    }
                }
                return Some(c);
            }
            i = i + 1;
        }
        None
    }

    /// The first enabled credential with this pre-shared key.
    pub fn find_credential_by_psk(&self, psk: &str) -> (r: Option<&Credential>)
        ensures
            match first_enabled(self.credentials@, true, psk@) {
                Some(i) => r == Some(&self.credentials@[i]),
                None => r is None,
            },
    {
        self.find_enabled(true, psk)
    }

    /// The first enabled credential with this user name.
    pub fn find_credential_by_username(&self, username: &str) -> (r: Option<&Credential>)
        ensures
            match first_enabled(self.credentials@, false, username@) {
                Some(i) => r == Some(&self.credentials@[i]),
                None => r is None,
            },
    {
        self.find_enabled(false, username)
    }

    /// Record a login attempt now, with a fresh session id; see
    /// `add_login_history_entry`.
    pub fn add_login_history(&mut self, username: String, ip_address: String, success: bool, max_entries: usize)
        ensures
            final(self).tenant == old(self).tenant,
            final(self).configuration == old(self).configuration,
            final(self).credentials == old(self).credentials,
            final(self).metrics == old(self).metrics,
            exists|e: LoginHistoryEntry| e.username == username && e.ip_address == ip_address && e.success == success
                && final(self).login_history@ == #[trigger] keep_last(old(self).login_history@.push(e), max_entries as nat),
    {
        let entry = LoginHistoryEntry {
            username,
            login_timestamp: clock::utc_rfc3339(),
            ip_address,
            success,
            session_id: clock::new_uuid_string(),
        };
        self.add_login_history_entry(entry, max_entries);
    }

    /// Record a login attempt, keeping only the last `max_entries`.
    pub fn add_login_history_entry(&mut self, entry: LoginHistoryEntry, max_entries: usize)
        ensures
            final(self).tenant == old(self).tenant,
            final(self).configuration == old(self).configuration,
            final(self).credentials == old(self).credentials,
            final(self).metrics == old(self).metrics,
            final(self).login_history@ == keep_last(old(self).login_history@.push(entry), max_entries as nat),
    {
        let mut h: Vec<LoginHistoryEntry> = Vec::new();
        std::mem::swap(&mut h, &mut self.login_history);
        h.push(entry);
        self.login_history = trim_to_last(h, max_entries);
    }

    /// Record a metrics snapshot, keeping only the last `max_entries`.
    pub fn add_metrics_snapshot(&mut self, metrics: MetricsSnapshot, max_entries: usize)
        ensures
            final(self).tenant == old(self).tenant,
            final(self).configuration == old(self).configuration,
            final(self).credentials == old(self).credentials,
            final(self).login_history == old(self).login_history,
            final(self).metrics@ == keep_last(old(self).metrics@.push(metrics), max_entries as nat),
    {
        let mut m: Vec<MetricsSnapshot> = Vec::new();
        std::mem::swap(&mut m, &mut self.metrics);
        m.push(metrics);
        self.metrics = trim_to_last(m, max_entries);
    }

    /// A new tenant document created now; see `new_at`.
    pub fn new(tenant_id: String, tenant_name: String) -> (r: Self)
        ensures
            r.tenant.id == tenant_id,
            r.tenant.name == tenant_name,
            r.tenant.created_at@ == r.tenant.updated_at@,
            default_settings(r.configuration),
            r.credentials@.len() == 0,
            r.login_history@.len() == 0,
            r.metrics@.len() == 0,
    {
        Self::new_at(tenant_id, tenant_name, clock::utc_rfc3339())
    }

    /// A new tenant document created at `now` (RFC 3339): default settings,
    /// no credential, no history.
    pub fn new_at(tenant_id: String, tenant_name: String, now: String) -> (r: Self)
        ensures
            r.tenant.id == tenant_id,
            r.tenant.name == tenant_name,
            r.tenant.created_at@ == now@,
            r.tenant.updated_at@ == now@,
            default_settings(r.configuration),
            r.credentials@.len() == 0,
            r.login_history@.len() == 0,
            r.metrics@.len() == 0,
    {
        let created = now.clone();
        TenantJsonConfig {
            tenant: TenantMetadata { id: tenant_id, name: tenant_name, created_at: created, updated_at: now },
            configuration: TenantSettings::default(),
            credentials: Vec::new(),
            login_history: Vec::new(),
            metrics: Vec::new(),
        }
    }

    /// Add a credential at the end.
    pub fn add_credential(&mut self, credential: Credential)
        ensures
            final(self).credentials@ == old(self).credentials@.push(credential),
            final(self).tenant == old(self).tenant,
            final(self).configuration == old(self).configuration,
            final(self).login_history == old(self).login_history,
            final(self).metrics == old(self).metrics,
    {
        self.credentials.push(credential);
    }

    /// The sample tenant document, created now; see `example_at`.
    pub fn example() -> (r: Self)
        ensures
            Self::is_example(r),
    {
        Self::example_at(clock::utc_rfc3339())
    }

    /// The sample tenant: "t_acme" ("acme-corp") with default settings and
    /// two enabled credentials.
    pub open spec fn is_example(r: TenantJsonConfig) -> bool {
        &&& r.tenant.id@ == "t_acme"@
        &&& r.tenant.name@ == "acme-corp"@
        &&& r.tenant.created_at@ == r.tenant.updated_at@
        &&& default_settings(r.configuration)
        &&& r.credentials@.len() == 2
        &&& r.credentials@[0].id@ == "c001"@ && r.credentials@[0].username@ == "api_user_1"@
        &&& r.credentials@[0].psk@ == "0123456789abcdef0123456789abcdef01234567"@
        &&& r.credentials@[1].id@ == "c002"@ && r.credentials@[1].username@ == "api_user_2"@
        &&& r.credentials@[1].psk@ == "fedcba9876543210fedcba9876543210fedcba98"@
        &&& forall|i: int| 0 <= i < 2 ==> (#[trigger] r.credentials@[i]).enabled
            && r.credentials@[i].password_hash is Some && r.credentials@[i].password_hash->0@ == "hash"@
            && r.credentials@[i].last_rotated_at is None
            && r.credentials@[i].created_at@ == r.tenant.created_at@
        &&& r.login_history@.len() == 0
        &&& r.metrics@.len() == 0
    }

    /// The sample tenant document created at `now` (RFC 3339).
    pub fn example_at(now: String) -> (r: Self)
        ensures
            Self::is_example(r),
            r.tenant.created_at@ == now@,
    {
        let mut credentials: Vec<Credential> = Vec::new();
        credentials.push(Credential {
            id: owned("c001"),
            username: owned("api_user_1"),
            psk: owned("0123456789abcdef0123456789abcdef01234567"),
            password_hash: Some(owned("hash")),
            created_at: now.clone(),
            last_rotated_at: None,
            enabled: true,
        });
        credentials.push(Credential {
            id: owned("c002"),
            username: owned("api_user_2"),
            psk: owned("fedcba9876543210fedcba9876543210fedcba98"),
            password_hash: Some(owned("hash")),
            created_at: now.clone(),
            last_rotated_at: None,
            enabled: true,
        });
        let created = now.clone();
        TenantJsonConfig {
            tenant: TenantMetadata { id: owned("t_acme"), name: owned("acme-corp"), created_at: created, updated_at: now },
            configuration: TenantSettings::default(),
            credentials,
            login_history: Vec::new(),
            metrics: Vec::new(),
        }
    }
}

} // verus!
