//! In-memory caches: tenant configurations, per-tenant metrics counters, and
//! pre-shared key to tenant lookups.
use vstd::prelude::*;
use vstd::wrapping::u64_specs::wrapping_add as add64;
use vstd::wrapping::u32_specs::{wrapping_add as add32, wrapping_sub as sub32};
use crate::clock;
use crate::text::owned;
use crate::keyed::{key_pos, upserted, Keyed};
use dashmap::DashMap;
use super::concurrent_maps::{
    counter_entries, counter_map_entries, counter_map_get, counter_map_insert, counter_map_new, counter_map_remove,
    no_counter_entries, no_psk_entries, psk_entries, psk_map_clear, psk_map_get, psk_map_insert, psk_map_len, psk_map_new,
    psk_map_remove,
};
use super::tenant_json::{keep_last, MetricsSnapshot, TenantJsonConfig, TenantMetadata};

verus! {

/// The value of key `k` in `s`, if any.
pub open spec fn lookup<V>(s: Seq<(String, V)>, k: Seq<char>) -> Option<V> {
    match key_pos(s, k) {
        Some(i) => Some(s[i].1),
        None => None,
    }
}

/// Tenant configurations by tenant id.
pub struct TenantConfigCache {
    cache: Keyed<TenantJsonConfig>,
}

impl TenantConfigCache {
    /// The cached configurations, by tenant id.
    pub closed spec fn spec_entries(&self) -> Seq<(String, TenantJsonConfig)> {
        self.cache.entries()
    }

    /// An empty cache.
    pub fn new() -> (r: Self)
        ensures
            r.spec_entries().len() == 0,
    {
        TenantConfigCache { cache: Keyed::new() }
    }

    /// Replace the whole cache by `configs` (a later configuration of the
    /// same tenant wins).
    pub fn load_all(&mut self, configs: Vec<(String, TenantJsonConfig)>)
        ensures
            forall|k: Seq<char>| #[trigger] lookup(final(self).spec_entries(), k) == Self::loaded(configs@, k),
    {
        self.cache.clear();
        let mut rest = configs;
        let total = rest.len();
        let ghost all = rest@;
        let mut rev: Vec<(String, TenantJsonConfig)> = Vec::new();
        while rest.len() > 0
            invariant
                all.len() == total,
                rest@ == all.take(rest@.len() as int),
                rest@.len() + rev@.len() == all.len(),
                forall|m: int| 0 <= m < rev@.len() ==> #[trigger] rev@[m] == all[all.len() - 1 - m],
            decreases rest@.len(),
        {
            let ghost before = rest@;
            let x = rest.pop().unwrap();
            assert(before.drop_last() =~= all.take(rest@.len() as int));
            rev.push(x);
        }
        let mut done: usize = 0;
        while rev.len() > 0
            invariant
                done + rev@.len() == all.len(),
                all.len() == total,
                forall|m: int| 0 <= m < rev@.len() ==> #[trigger] rev@[m] == all[all.len() - 1 - m],
                forall|k: Seq<char>| #[trigger] lookup(self.spec_entries(), k) == Self::loaded(all.take(done as int), k),
            decreases rev@.len(),
        {
            let (k, v) = rev.pop().unwrap();
            let ghost e0 = self.spec_entries();
            let ghost kv = k@;
            let ghost vv = v;
            let _ = self.cache.upsert(k, v);
            proof {
                assert(all.take(done + 1).drop_last() =~= all.take(done as int));
                assert(all.take(done + 1).last() == (all[done as int]));
                lemma_lookup_upsert(e0, self.spec_entries(), all[done as int].0, vv);
                assert forall|q: Seq<char>| #[trigger] lookup(self.spec_entries(), q) == Self::loaded(all.take(done + 1), q) by {
                    lemma_lookup_upsert(e0, self.spec_entries(), all[done as int].0, vv);
                }
            }
            done = done + 1;
        }
        assert(all.take(all.len() as int) =~= all);
    }

    /// The configuration `configs` gives tenant `k`: its last one.
    pub open spec fn loaded(configs: Seq<(String, TenantJsonConfig)>, k: Seq<char>) -> Option<TenantJsonConfig>
        decreases configs.len(),
    {
        if configs.len() == 0 {
            None
        } else if configs.last().0@ == k {
            Some(configs.last().1)
        } else {
            Self::loaded(configs.drop_last(), k)
        }
    }

    /// Add a metrics snapshot to the cached configuration of `tenant_id`
    /// (keeping the last `max_entries`) and stamp it updated at `now`;
    /// whether the tenant is cached.
    pub fn add_metrics_snapshot(&mut self, tenant_id: &str, metrics: MetricsSnapshot, max_entries: usize, now: String) -> (r: bool)
        ensures
            r == (key_pos(old(self).spec_entries(), tenant_id@) is Some),
            !r ==> final(self).spec_entries() == old(self).spec_entries(),
            r ==> ({
                let i = key_pos(old(self).spec_entries(), tenant_id@)->0;
                let c = old(self).spec_entries()[i].1;
                let d = final(self).spec_entries()[i].1;
                &&& final(self).spec_entries().len() == old(self).spec_entries().len()
                &&& forall|j: int| 0 <= j < old(self).spec_entries().len() && j != i ==> #[trigger] final(self).spec_entries()[j] == old(self).spec_entries()[j]
                &&& final(self).spec_entries()[i].0 == old(self).spec_entries()[i].0
                &&& d.metrics@ == keep_last(c.metrics@.push(metrics), max_entries as nat)
                &&& d.tenant == (TenantMetadata { updated_at: now, ..c.tenant })
                &&& d.configuration == c.configuration
                &&& d.credentials == c.credentials
                &&& d.login_history == c.login_history
            }),
    {
        let i = match self.cache.find(tenant_id) {
            Some(i) => i,
            None => {
                return false;
            },
        };
        let placeholder = TenantJsonConfig::new_at(String::new(), String::new(), String::new());
        let mut c = self.cache.swap_value(i, placeholder);
        c.add_metrics_snapshot(metrics, max_entries);
        c.tenant.updated_at = now;
        let _ = self.cache.swap_value(i, c);
        true
    }

    /// The configuration of `tenant_id`.
    pub fn get(&self, tenant_id: &str) -> (r: Option<&TenantJsonConfig>)
        ensures
            match lookup(self.spec_entries(), tenant_id@) {
                Some(c) => r == Some(&c),
                None => r is None,
            },
    {
        self.cache.get(tenant_id)
    }

    /// Set the configuration of `tenant_id`.
    pub fn update(&mut self, tenant_id: String, config: TenantJsonConfig)
        ensures
            final(self).spec_entries() == upserted(old(self).spec_entries(), tenant_id, config),
    {
        let _ = self.cache.upsert(tenant_id, config);
    }

    /// The cached tenant ids, in order.
    pub fn get_tenant_ids(&self) -> (r: Vec<String>)
        ensures
            r@.len() == self.spec_entries().len(),
            forall|i: int| 0 <= i < r@.len() ==> (#[trigger] r@[i])@ == self.spec_entries()[i].0@,
    {
        let n = self.cache.len();
        let mut r: Vec<String> = Vec::new();
        let mut i: usize = 0;
        while i < n
            invariant
                i <= n,
                n == self.spec_entries().len(),
                r@.len() == i,
                forall|j: int| 0 <= j < i ==> (#[trigger] r@[j])@ == self.spec_entries()[j].0@,
            decreases n - i,
        {
            r.push(self.cache.at(i).0.clone());
            i = i + 1;
        }
        r
    }

    /// Number of cached tenants.
    pub fn size(&self) -> (r: usize)
        ensures
            r == self.spec_entries().len(),
    {
        self.cache.len()
    }

    /// The rate limit of `tenant_id`.
    pub fn get_rate_limit(&self, tenant_id: &str) -> (r: Option<u32>)
        ensures
            r == match lookup(self.spec_entries(), tenant_id@) {
                Some(c) => Some(c.configuration.rate_limit_rps),
                None => None::<u32>,
            },
    {
        match self.cache.get(tenant_id) {
            Some(c) => Some(c.configuration.rate_limit_rps),
            None => None,
        }
    }

    /// Whether `tenant_id` is cached.
    pub fn is_tenant_enabled(&self, tenant_id: &str) -> (r: bool)
        ensures
            r == (lookup(self.spec_entries(), tenant_id@) is Some),
    {
        self.cache.find(tenant_id).is_some()
    }
}

proof fn lemma_lookup_upsert<V>(e0: Seq<(String, V)>, e1: Seq<(String, V)>, k: String, v: V)
    requires
        e1 == upserted(e0, k, v),
    ensures
        forall|q: Seq<char>| #[trigger] lookup(e1, q) == if q == k@ { Some(v) } else { lookup(e0, q) },
{
    assert forall|q: Seq<char>| #[trigger] lookup(e1, q) == if q == k@ { Some(v) } else { lookup(e0, q) } by {
        match key_pos(e0, k@) {
            Some(i) => {
                crate::keyed::lemma_key_pos_valid(e0, k@);
                if q == k@ {
                    assert forall|j: int| 0 <= j < i implies (#[trigger] e1[j]).0@ != q by {
                        assert(e1[j] == e0[j]);
                    }
                    crate::keyed::lemma_key_pos_at(e1, q, i);
                } else {
                    match key_pos(e0, q) {
                        Some(m) => {
                            crate::keyed::lemma_key_pos_valid(e0, q);
                            assert forall|j: int| 0 <= j < m implies (#[trigger] e1[j]).0@ != q by {
                                if j != i { assert(e1[j] == e0[j]); }
                            }
                            crate::keyed::lemma_key_pos_at(e1, q, m);
                        },
                        None => {
                            if key_pos(e1, q) is Some {
                                crate::keyed::lemma_key_pos_valid(e1, q);
                                let m = key_pos(e1, q)->0;
                                if m != i {
                                    assert(e1[m] == e0[m]);
                                    crate::keyed::lemma_key_pos_some(e0, q, m);
                                }
                            }
                        },
                    }
                }
            },
            None => {
                let n = e0.len() as int;
                if q == k@ {
                    assert forall|j: int| 0 <= j < n implies (#[trigger] e1[j]).0@ != q by {
                        assert(e1[j] == e0[j]);
                        if e0[j].0@ == q {
                            crate::keyed::lemma_key_pos_some(e0, q, j);
                        }
                    }
                    crate::keyed::lemma_key_pos_at(e1, q, n);
                } else {
                    match key_pos(e0, q) {
                        Some(m) => {
                            crate::keyed::lemma_key_pos_valid(e0, q);
                            assert forall|j: int| 0 <= j < m implies (#[trigger] e1[j]).0@ != q by {
                                assert(e1[j] == e0[j]);
                            }
                            crate::keyed::lemma_key_pos_at(e1, q, m);
                        },
                        None => {
                            if key_pos(e1, q) is Some {
                                crate::keyed::lemma_key_pos_valid(e1, q);
                                let m = key_pos(e1, q)->0;
                                if m != n {
                                    assert(e1[m] == e0[m]);
                                    crate::keyed::lemma_key_pos_some(e0, q, m);
                                }
                            }
                        },
                    }
                }
            },
        }
    }
}

/// Per-tenant metrics counters (each wraps around on overflow).
#[derive(Debug, Clone, Copy)]
pub struct TenantMetricsCounter {
    pub messages_received: u64,
    pub messages_sent: u64,
    pub bytes_in: u64,
    pub bytes_out: u64,
    pub active_connections: u32,
    pub rate_limit_violations: u32,
    pub errors: u32,
}

/// All counters at zero.
pub open spec fn zero_counter() -> TenantMetricsCounter {
    TenantMetricsCounter {
        messages_received: 0,
        messages_sent: 0,
        bytes_in: 0,
        bytes_out: 0,
        active_connections: 0,
        rate_limit_violations: 0,
        errors: 0,
    }
}

impl TenantMetricsCounter {
    /// All counters at zero.
    pub fn new() -> (r: Self)
        ensures
            r == zero_counter(),
    {
        TenantMetricsCounter {
            messages_received: 0,
            messages_sent: 0,
            bytes_in: 0,
            bytes_out: 0,
            active_connections: 0,
            rate_limit_violations: 0,
            errors: 0,
        }
    }
}

/// The counters of tenant `k` (zero for a tenant without counters).
pub open spec fn counter_of(m: Map<Seq<char>, TenantMetricsCounter>, k: Seq<char>) -> TenantMetricsCounter {
    if m.contains_key(k) {
        m[k]
    } else {
        zero_counter()
    }
}

/// The snapshot of a tenant's counters taken at `timestamp` (latencies zero).
pub open spec fn snapshot_of(c: TenantMetricsCounter, timestamp: String) -> MetricsSnapshot {
    MetricsSnapshot {
        timestamp,
        messages_received: c.messages_received,
        messages_sent: c.messages_sent,
        bytes_in: c.bytes_in,
        bytes_out: c.bytes_out,
        active_connections: c.active_connections,
        rate_limit_violations: c.rate_limit_violations,
        average_latency_ms_bits: 0,
        p99_latency_ms_bits: 0,
        errors: c.errors,
    }
}

/// `r` holds one snapshot of every tenant of `m`, each tenant once, in some
/// order.
pub open spec fn snapshots_of(m: Map<Seq<char>, TenantMetricsCounter>, r: Seq<(String, MetricsSnapshot)>) -> bool {
    &&& r.len() == m.len()
    &&& forall|i: int| 0 <= i < r.len() ==> m.contains_key(#[trigger] r[i].0@) && r[i].1 == snapshot_of(m[r[i].0@], r[i].1.timestamp)
    &&& forall|i: int, j: int| 0 <= i < j < r.len() ==> (#[trigger] r[i]).0@ != (#[trigger] r[j]).0@
    &&& forall|k: Seq<char>| m.contains_key(k) ==> exists|i: int| 0 <= i < r.len() && (#[trigger] r[i]).0@ == k
}

/// Metrics counters of every tenant, in a concurrent map.
pub struct MetricsCounters {
    metrics: DashMap<String, TenantMetricsCounter>,
}

impl MetricsCounters {
    /// The counters, by tenant id.
    pub closed spec fn spec_map(&self) -> Map<Seq<char>, TenantMetricsCounter> {
        counter_entries(self.metrics)
    }

    /// No counters.
    pub fn new() -> (r: Self)
        ensures
            r.spec_map() == no_counter_entries(),
    {
        MetricsCounters { metrics: counter_map_new() }
    }

    fn current(&self, tenant_id: &str) -> (r: TenantMetricsCounter)
        ensures
            r == counter_of(self.spec_map(), tenant_id@),
    {
        match counter_map_get(&self.metrics, tenant_id) {
            Some(c) => c,
            None => TenantMetricsCounter::new(),
        }
    }

    /// The counters of `tenant_id` became `c`; no other tenant's changed.
    pub open spec fn changed(before: MetricsCounters, after: MetricsCounters, tenant_id: Seq<char>, c: TenantMetricsCounter) -> bool {
        after.spec_map() == before.spec_map().insert(tenant_id, c)
    }

    /// Count a received message of `byte_count` bytes.
    pub fn record_message_received(&mut self, tenant_id: &str, byte_count: u64)
        ensures
            Self::changed(*old(self), *final(self), tenant_id@, ({
                let c = counter_of(old(self).spec_map(), tenant_id@);
                TenantMetricsCounter { messages_received: add64(c.messages_received, 1), bytes_in: add64(c.bytes_in, byte_count), ..c }
            })),
    {
        let mut c = self.current(tenant_id);
        c.messages_received = c.messages_received.wrapping_add(1);
        c.bytes_in = c.bytes_in.wrapping_add(byte_count);
        counter_map_insert(&mut self.metrics, owned(tenant_id), c);
    }

    /// Count a sent message of `byte_count` bytes.
    pub fn record_message_sent(&mut self, tenant_id: &str, byte_count: u64)
        ensures
            Self::changed(*old(self), *final(self), tenant_id@, ({
                let c = counter_of(old(self).spec_map(), tenant_id@);
                TenantMetricsCounter { messages_sent: add64(c.messages_sent, 1), bytes_out: add64(c.bytes_out, byte_count), ..c }
            })),
    {
        let mut c = self.current(tenant_id);
        c.messages_sent = c.messages_sent.wrapping_add(1);
        c.bytes_out = c.bytes_out.wrapping_add(byte_count);
        counter_map_insert(&mut self.metrics, owned(tenant_id), c);
    }

    /// Count a rate limit violation.
    pub fn record_rate_limit_violation(&mut self, tenant_id: &str)
        ensures
            Self::changed(*old(self), *final(self), tenant_id@, ({
                let c = counter_of(old(self).spec_map(), tenant_id@);
                TenantMetricsCounter { rate_limit_violations: add32(c.rate_limit_violations, 1), ..c }
            })),
    {
        let mut c = self.current(tenant_id);
        c.rate_limit_violations = c.rate_limit_violations.wrapping_add(1);
        counter_map_insert(&mut self.metrics, owned(tenant_id), c);
    }

    /// Count an error.
    pub fn record_error(&mut self, tenant_id: &str)
        ensures
            Self::changed(*old(self), *final(self), tenant_id@, ({
                let c = counter_of(old(self).spec_map(), tenant_id@);
                TenantMetricsCounter { errors: add32(c.errors, 1), ..c }
            })),
    {
        let mut c = self.current(tenant_id);
        c.errors = c.errors.wrapping_add(1);
        counter_map_insert(&mut self.metrics, owned(tenant_id), c);
    }

    /// Set the number of active connections.
    pub fn set_active_connections(&mut self, tenant_id: &str, count: u32)
        ensures
            Self::changed(*old(self), *final(self), tenant_id@, ({
                let c = counter_of(old(self).spec_map(), tenant_id@);
                TenantMetricsCounter { active_connections: count, ..c }
            })),
    {
        let mut c = self.current(tenant_id);
        c.active_connections = count;
        counter_map_insert(&mut self.metrics, owned(tenant_id), c);
    }

    /// One more active connection.
    pub fn increment_active_connections(&mut self, tenant_id: &str)
        ensures
            Self::changed(*old(self), *final(self), tenant_id@, ({
                let c = counter_of(old(self).spec_map(), tenant_id@);
                TenantMetricsCounter { active_connections: add32(c.active_connections, 1), ..c }
            })),
    {
        let mut c = self.current(tenant_id);
        c.active_connections = c.active_connections.wrapping_add(1);
        counter_map_insert(&mut self.metrics, owned(tenant_id), c);
    }

    /// One active connection fewer (wrapping below zero).
    pub fn decrement_active_connections(&mut self, tenant_id: &str)
        ensures
            Self::changed(*old(self), *final(self), tenant_id@, ({
                let c = counter_of(old(self).spec_map(), tenant_id@);
                TenantMetricsCounter { active_connections: sub32(c.active_connections, 1), ..c }
            })),
    {
        let mut c = self.current(tenant_id);
        c.active_connections = c.active_connections.wrapping_sub(1);
        counter_map_insert(&mut self.metrics, owned(tenant_id), c);
    }

    /// A snapshot of the counters of `tenant_id` now; none for a tenant
    /// without counters.
    pub fn get_metrics(&self, tenant_id: &str) -> (r: Option<MetricsSnapshot>)
        ensures
            self.spec_map().contains_key(tenant_id@) ==> (r matches Some(s)
                && s == snapshot_of(self.spec_map()[tenant_id@], s.timestamp)),
            !self.spec_map().contains_key(tenant_id@) ==> r is None,
    {
        match counter_map_get(&self.metrics, tenant_id) {
            Some(c) => Some(Self::snapshot(&c, clock::utc_rfc3339())),
            None => None,
        }
    }

    fn snapshot(c: &TenantMetricsCounter, timestamp: String) -> (r: MetricsSnapshot)
        ensures
            r == snapshot_of(*c, timestamp),
    {
        MetricsSnapshot {
            timestamp,
            messages_received: c.messages_received,
            messages_sent: c.messages_sent,
            bytes_in: c.bytes_in,
            bytes_out: c.bytes_out,
            active_connections: c.active_connections,
            rate_limit_violations: c.rate_limit_violations,
            average_latency_ms_bits: 0,
            p99_latency_ms_bits: 0,
            errors: c.errors,
        }
    }

    /// A snapshot of every tenant's counters, taken now, each tenant once
    /// (in the map's own order).
    pub fn get_all_metrics(&self) -> (r: Vec<(String, MetricsSnapshot)>)
        ensures
            snapshots_of(self.spec_map(), r@),
    {
        let all = counter_map_entries(&self.metrics);
        let ghost m = self.spec_map();
        let mut r: Vec<(String, MetricsSnapshot)> = Vec::new();
        let mut i: usize = 0;
        while i < all.len()
            invariant
                i <= all@.len(),
                m == self.spec_map(),
                all@.len() == m.len(),
                forall|j: int| 0 <= j < all@.len() ==> m.contains_key(#[trigger] all@[j].0@) && m[all@[j].0@] == all@[j].1,
                r@.len() == i,
                forall|j: int| 0 <= j < i ==> (#[trigger] r@[j]).0@ == all@[j].0@
                    && r@[j].1 == snapshot_of(all@[j].1, r@[j].1.timestamp),
            decreases all@.len() - i,
        {
            let e = &all[i];
            r.push((e.0.clone(), Self::snapshot(&e.1, clock::utc_rfc3339())));
            i = i + 1;
        }
        proof {
            assert forall|j: int, k: int| 0 <= j < k < r@.len() implies (#[trigger] r@[j]).0@ != (#[trigger] r@[k]).0@ by {
                assert(all@[j].0@ != all@[k].0@);
            }
            assert forall|q: Seq<char>| m.contains_key(q) implies exists|j: int| 0 <= j < r@.len() && (#[trigger] r@[j]).0@ == q by {
                let j = choose|j: int| 0 <= j < all@.len() && (#[trigger] all@[j]).0@ == q;
                assert(r@[j].0@ == q);
            }
            assert forall|j: int| 0 <= j < r@.len() implies m.contains_key(#[trigger] r@[j].0@)
                && r@[j].1 == snapshot_of(m[r@[j].0@], r@[j].1.timestamp) by {
                assert(m.contains_key(all@[j].0@));
            }
        }
        r
    }

    /// Drop the counters of `tenant_id`.
    pub fn reset_metrics(&mut self, tenant_id: &str)
        ensures
            final(self).spec_map() == old(self).spec_map().remove(tenant_id@),
    {
        counter_map_remove(&mut self.metrics, tenant_id);
    }
}

/// Tenant ids by pre-shared key, in a concurrent map.
pub struct PskVerificationCache {
    cache: DashMap<String, String>,
    ttl_seconds: u32,
}

impl PskVerificationCache {
    /// The cached keys and their tenants.
    pub closed spec fn spec_map(&self) -> Map<Seq<char>, Seq<char>> {
        psk_entries(self.cache)
    }

    /// How long an entry is meant to live.
    pub closed spec fn spec_ttl(&self) -> u32 {
        self.ttl_seconds
    }

    /// An empty cache whose entries are meant to live `ttl_seconds`.
    pub fn new(ttl_seconds: u32) -> (r: Self)
        ensures
            r.spec_map() == no_psk_entries(),
            r.spec_ttl() == ttl_seconds,
    {
        PskVerificationCache { cache: psk_map_new(), ttl_seconds }
    }

    /// The tenant of a pre-shared key.
    pub fn get(&self, psk: &str) -> (r: Option<String>)
        ensures
            self.spec_map().contains_key(psk@) ==> (r matches Some(s) && s@ == self.spec_map()[psk@]),
            !self.spec_map().contains_key(psk@) ==> r is None,
    {
        psk_map_get(&self.cache, psk)
    }

    /// Record the tenant of a pre-shared key.
    pub fn insert(&mut self, psk: String, tenant_id: String)
        ensures
            final(self).spec_map() == old(self).spec_map().insert(psk@, tenant_id@),
            final(self).spec_ttl() == old(self).spec_ttl(),
    {
        psk_map_insert(&mut self.cache, psk, tenant_id);
    }

    /// Forget a pre-shared key.
    pub fn remove(&mut self, psk: &str)
        ensures
            final(self).spec_map() == old(self).spec_map().remove(psk@),
            final(self).spec_ttl() == old(self).spec_ttl(),
    {
        psk_map_remove(&mut self.cache, psk);
    }

    /// Forget every key.
    pub fn clear(&mut self)
        ensures
            final(self).spec_map() == no_psk_entries(),
            final(self).spec_ttl() == old(self).spec_ttl(),
    {
        psk_map_clear(&mut self.cache);
    }

    /// Number of cached keys.
    pub fn size(&self) -> (r: usize)
        ensures
            r == self.spec_map().len(),
    {
        psk_map_len(&self.cache)
    }
}

/// Read after write: a cached key finds the tenant last recorded for it,
/// until the key is removed.
pub proof fn law_psk_read_after_write(m: Map<Seq<char>, Seq<char>>, psk: Seq<char>, tenant: Seq<char>)
    ensures
        m.insert(psk, tenant).contains_key(psk),
        m.insert(psk, tenant)[psk] == tenant,
        !m.insert(psk, tenant).remove(psk).contains_key(psk),
{
}

/// The three caches together.
pub struct CacheSystem {
    pub tenant_config: TenantConfigCache,
    pub metrics: MetricsCounters,
    pub psk_verification: PskVerificationCache,
}

impl CacheSystem {
    /// Empty caches; pre-shared key entries are meant to live
    /// `psk_ttl_seconds`.
    pub fn new(psk_ttl_seconds: u32) -> (r: Self)
        ensures
            r.tenant_config.spec_entries().len() == 0,
            r.metrics.spec_map() == no_counter_entries(),
            r.psk_verification.spec_map() == no_psk_entries(),
            r.psk_verification.spec_ttl() == psk_ttl_seconds,
    {
        CacheSystem {
            tenant_config: TenantConfigCache::new(),
            metrics: MetricsCounters::new(),
            psk_verification: PskVerificationCache::new(psk_ttl_seconds),
        }
    }

    /// The rate limit of `tenant_id`.
    pub fn get_rate_limit(&self, tenant_id: &str) -> (r: Option<u32>)
        ensures
            r == match lookup(self.tenant_config.spec_entries(), tenant_id@) {
                Some(c) => Some(c.configuration.rate_limit_rps),
                None => None::<u32>,
            },
    {
        self.tenant_config.get_rate_limit(tenant_id)
    }

    /// A snapshot of every tenant's counters, for flushing.
    pub fn drain_metrics(&self) -> (r: Vec<(String, MetricsSnapshot)>)
        ensures
            snapshots_of(self.metrics.spec_map(), r@),
    {
        self.metrics.get_all_metrics()
    }

    /// Whether `tenant_id` has a cached configuration.
    pub fn is_valid_tenant(&self, tenant_id: &str) -> (r: bool)
        ensures
            r == (lookup(self.tenant_config.spec_entries(), tenant_id@) is Some),
    {
        self.tenant_config.is_tenant_enabled(tenant_id)
    }
}

} // verus!
