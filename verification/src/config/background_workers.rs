//! The decisions of the background workers: which tenant files a metrics
//! flush rewrites, and how long the backup worker waits. Sleeping, file
//! writes and the backup archive itself are left to the caller.
use vstd::prelude::*;
use crate::keyed::key_pos;
use crate::text::{concat, push_str};
use super::in_memory_cache::CacheSystem;
use super::tenant_json::{keep_last, MetricsSnapshot, TenantJsonConfig, TenantMetadata};

verus! {

/// The file of tenant `tenant_id` under `tenants_path`.
pub open spec fn tenant_path(tenants_path: Seq<char>, tenant_id: Seq<char>) -> Seq<char> {
    tenants_path + "/"@ + tenant_id + ".json"@
}

/// The snapshots of `s` that belong to tenant `k`, in order.
pub open spec fn snaps_for(s: Seq<(String, MetricsSnapshot)>, k: Seq<char>) -> Seq<MetricsSnapshot>
    decreases s.len(),
{
    if s.len() == 0 {
        Seq::empty()
    } else if s.last().0@ == k {
        snaps_for(s.drop_last(), k).push(s.last().1)
    } else {
        snaps_for(s.drop_last(), k)
    }
}

/// A metrics history after the snapshots `ms` are added one by one, each
/// time keeping the last `max`.
pub open spec fn kept_after(history: Seq<MetricsSnapshot>, ms: Seq<MetricsSnapshot>, max: nat) -> Seq<MetricsSnapshot>
    decreases ms.len(),
{
    if ms.len() == 0 {
        history
    } else {
        keep_last(kept_after(history, ms.drop_last(), max).push(ms.last()), max)
    }
}

/// Configuration `d` is `c` with the snapshots `ms` added (keeping the last
/// `max`) and, when there was any, stamped updated at `now`.
pub open spec fn metrics_flushed(c: TenantJsonConfig, d: TenantJsonConfig, ms: Seq<MetricsSnapshot>, max: nat, now: String) -> bool {
    &&& d.metrics@ == kept_after(c.metrics@, ms, max)
    &&& d.tenant == if ms.len() > 0 { TenantMetadata { updated_at: now, ..c.tenant } } else { c.tenant }
    &&& d.configuration == c.configuration
    &&& d.credentials == c.credentials
    &&& d.login_history == c.login_history
}

/// The snapshots that reach cached entry `j`: those of its tenant when it
/// is the tenant's first entry, none otherwise.
pub open spec fn snaps_at(before: Seq<(String, TenantJsonConfig)>, j: int, s: Seq<(String, MetricsSnapshot)>) -> Seq<MetricsSnapshot> {
    if key_pos(before, before[j].0@) == Some(j) { snaps_for(s, before[j].0@) } else { Seq::empty() }
}

/// The cached configurations `after` are `before` with the snapshots `s`
/// flushed into them: same tenants in the same places, each with its own
/// snapshots added.
pub open spec fn flushed_entries(
    before: Seq<(String, TenantJsonConfig)>,
    after: Seq<(String, TenantJsonConfig)>,
    s: Seq<(String, MetricsSnapshot)>,
    max: nat,
    now: String,
) -> bool {
    &&& after.len() == before.len()
    &&& forall|j: int| 0 <= j < before.len() ==> {
        &&& (#[trigger] after[j]).0 == before[j].0
        &&& metrics_flushed(before[j].1, after[j].1, snaps_at(before, j, s), max, now)
    }
}

proof fn lemma_flush_step(
    e_start: Seq<(String, TenantJsonConfig)>,
    e0: Seq<(String, TenantJsonConfig)>,
    e1: Seq<(String, TenantJsonConfig)>,
    done: Seq<(String, MetricsSnapshot)>,
    tid: String,
    snap: MetricsSnapshot,
    max: nat,
    now: String,
    hit: bool,
)
    requires
        flushed_entries(e_start, e0, done, max, now),
        hit == (key_pos(e0, tid@) is Some),
        !hit ==> e1 == e0,
        hit ==> ({
            let i = key_pos(e0, tid@)->0;
            let c = e0[i].1;
            let d = e1[i].1;
            &&& e1.len() == e0.len()
            &&& forall|j: int| 0 <= j < e0.len() && j != i ==> #[trigger] e1[j] == e0[j]
            &&& e1[i].0 == e0[i].0
            &&& d.metrics@ == keep_last(c.metrics@.push(snap), max)
            &&& d.tenant == (TenantMetadata { updated_at: now, ..c.tenant })
            &&& d.configuration == c.configuration
            &&& d.credentials == c.credentials
            &&& d.login_history == c.login_history
        }),
    ensures
        flushed_entries(e_start, e1, done.push((tid, snap)), max, now),
{
    let d1 = done.push((tid, snap));
    assert(d1.drop_last() =~= done);
    lemma_same_keys_same_pos(e_start, e0, tid@);
    assert forall|j: int| 0 <= j < e_start.len() implies {
        &&& (#[trigger] e1[j]).0 == e_start[j].0
        &&& metrics_flushed(e_start[j].1, e1[j].1, snaps_at(e_start, j, d1), max, now)
    } by {
        let k = e_start[j].0@;
        assert(e0[j].0 == e_start[j].0);
        if k == tid@ {
            crate::keyed::lemma_key_pos_some(e_start, k, j);
            let i = key_pos(e_start, k)->0;
            crate::keyed::lemma_key_pos_valid(e_start, k);
            if i == j {
                assert(snaps_for(d1, k) == snaps_for(done, k).push(snap));
                assert(snaps_at(e_start, j, d1) == snaps_at(e_start, j, done).push(snap));
                assert(snaps_at(e_start, j, d1).drop_last() =~= snaps_at(e_start, j, done));
            } else {
                assert(e1[j] == e0[j]);
            }
        } else {
            assert(snaps_for(d1, k) == snaps_for(done, k));
            if hit {
                let i = key_pos(e0, tid@)->0;
                crate::keyed::lemma_key_pos_valid(e0, tid@);
                assert(j != i);
                assert(e1[j] == e0[j]);
            }
        }
    }
}

/// Move every tenant's current metrics snapshot into its cached
/// configuration (keeping the last `max_metrics_per_tenant` snapshots and
/// stamping it updated at `now`); returns, for each tenant so updated, in
/// order, its id and the file to rewrite. Tenants without a cached
/// configuration are skipped; the cached configurations change as
/// `flushed_entries` says. The snapshots are taken by the caller, with
/// `CacheSystem::drain_metrics`.
pub fn flush_metrics_into_cache(
    cache_system: &mut CacheSystem,
    snapshots: Vec<(String, MetricsSnapshot)>,
    tenants_path: &str,
    max_metrics_per_tenant: usize,
    now: String,
) -> (r: Vec<(String, String)>)
    ensures
        final(cache_system).metrics.spec_map() == old(cache_system).metrics.spec_map(),
        final(cache_system).psk_verification.spec_map() == old(cache_system).psk_verification.spec_map(),
        final(cache_system).psk_verification.spec_ttl() == old(cache_system).psk_verification.spec_ttl(),
        final(cache_system).tenant_config.spec_entries().len() == old(cache_system).tenant_config.spec_entries().len(),
        flushed_entries(old(cache_system).tenant_config.spec_entries(), final(cache_system).tenant_config.spec_entries(),
            snapshots@, max_metrics_per_tenant as nat, now),
        forall|i: int| 0 <= i < r@.len() ==> (#[trigger] r@[i]).1@ == tenant_path(tenants_path@, r@[i].0@),
        forall|i: int| 0 <= i < r@.len() ==> key_pos(old(cache_system).tenant_config.spec_entries(), (#[trigger] r@[i]).0@) is Some,
        forall|i: int| 0 <= i < snapshots@.len() ==> (key_pos(old(cache_system).tenant_config.spec_entries(), (#[trigger] snapshots@[i]).0@) is Some
            <==> exists|j: int| 0 <= j < r@.len() && (#[trigger] r@[j]).0@ == snapshots@[i].0@),
{
    let mut rest = snapshots;
    let ghost all = rest@;
    let total = rest.len();
    let mut rev: Vec<(String, MetricsSnapshot)> = Vec::new();
    while rest.len() > 0
        invariant
            all.len() == total,
            rest@ == all.take(rest@.len() as int),
            rest@.len() + rev@.len() == all.len(),
            forall|m: int| 0 <= m < rev@.len() ==> #[trigger] rev@[m] == all[all.len() - 1 - m],
        decreases rest@.len(),
    {
        let ghost before = rest@;
        let x = rest.pop().unwrap();
        assert(before.drop_last() =~= all.take(rest@.len() as int));
        rev.push(x);
    }
    let ghost e_start = cache_system.tenant_config.spec_entries();
    let mut written: Vec<(String, String)> = Vec::new();
    let mut done: usize = 0;
    while rev.len() > 0
        invariant
            all.len() == total,
            done + rev@.len() == all.len(),
            forall|m: int| 0 <= m < rev@.len() ==> #[trigger] rev@[m] == all[all.len() - 1 - m],
            cache_system.metrics.spec_map() == old(cache_system).metrics.spec_map(),
            cache_system.psk_verification.spec_map() == old(cache_system).psk_verification.spec_map(),
            cache_system.psk_verification.spec_ttl() == old(cache_system).psk_verification.spec_ttl(),
            e_start == old(cache_system).tenant_config.spec_entries(),
            cache_system.tenant_config.spec_entries().len() == e_start.len(),
            forall|j: int| 0 <= j < e_start.len() ==> (#[trigger] cache_system.tenant_config.spec_entries()[j]).0 == e_start[j].0,
            flushed_entries(e_start, cache_system.tenant_config.spec_entries(), all.take(done as int), max_metrics_per_tenant as nat, now),
            forall|m: int| 0 <= m < written@.len() ==> (#[trigger] written@[m]).1@ == tenant_path(tenants_path@, written@[m].0@),
            forall|m: int| 0 <= m < written@.len() ==> key_pos(e_start, (#[trigger] written@[m]).0@) is Some,
            forall|i: int| 0 <= i < done ==> (key_pos(e_start, (#[trigger] all[i]).0@) is Some
                <==> exists|j: int| 0 <= j < written@.len() && (#[trigger] written@[j]).0@ == all[i].0@),
        decreases rev@.len(),
    {
        let ghost r0 = rev@;
        let (tenant_id, snap) = rev.pop().unwrap();
        assert(r0[r0.len() - 1] == all[done as int]);
        let ghost e0 = cache_system.tenant_config.spec_entries();
        let ghost w0 = written@;
        proof { lemma_same_keys_same_pos(e_start, e0, tenant_id@); }
        let ghost snap_g = snap;
        let ghost tid_s = tenant_id;
        let hit = cache_system.tenant_config.add_metrics_snapshot(tenant_id.as_str(), snap, max_metrics_per_tenant, now.clone());
        let ghost tid = tenant_id@;
        proof {
            lemma_flush_step(e_start, e0, cache_system.tenant_config.spec_entries(), all.take(done as int), tid_s, snap_g,
                max_metrics_per_tenant as nat, now, hit);
            assert(all.take(done + 1) =~= all.take(done as int).push((tid_s, snap_g)));
        }
        if hit {
            let mut path = concat(tenants_path, "/");
            push_str(&mut path, tenant_id.as_str());
            push_str(&mut path, ".json");
            written.push((tenant_id, path));
        }
        proof {
            assert forall|i: int| 0 <= i < done + 1 implies (key_pos(e_start, (#[trigger] all[i]).0@) is Some
                <==> exists|j: int| 0 <= j < written@.len() && (#[trigger] written@[j]).0@ == all[i].0@) by {
                if exists|j: int| 0 <= j < written@.len() && (#[trigger] written@[j]).0@ == all[i].0@ {
                    let j = choose|j: int| 0 <= j < written@.len() && (#[trigger] written@[j]).0@ == all[i].0@;
                    assert(key_pos(e_start, written@[j].0@) is Some);
                }
                if key_pos(e_start, all[i].0@) is Some {
                    if i < done {
                        let j = choose|j: int| 0 <= j < w0.len() && (#[trigger] w0[j]).0@ == all[i].0@;
                        assert(written@[j] == w0[j]);
                    } else {
                        assert(all[i].0@ == tid);
                        assert(hit);
                        assert(written@[w0.len() as int].0@ == tid);
                    }
                }
            }
        }
        done = done + 1;
    }
    assert(all.take(all.len() as int) =~= all);
    written
}

proof fn lemma_same_keys_same_pos<V>(a: Seq<(String, V)>, b: Seq<(String, V)>, k: Seq<char>)
    requires
        a.len() == b.len(),
        forall|j: int| 0 <= j < a.len() ==> (#[trigger] b[j]).0 == a[j].0,
    ensures
        key_pos(a, k) == key_pos(b, k),
{
    if key_pos(a, k) is Some {
        crate::keyed::lemma_key_pos_valid(a, k);
        let i = key_pos(a, k)->0;
        assert forall|j: int| 0 <= j < i implies (#[trigger] b[j]).0@ != k by {
            assert(b[j].0 == a[j].0);
        }
        assert(b[i].0 == a[i].0);
        crate::keyed::lemma_key_pos_at(b, k, i);
    } else if key_pos(b, k) is Some {
        crate::keyed::lemma_key_pos_valid(b, k);
        let i = key_pos(b, k)->0;
        assert(b[i].0 == a[i].0);
        crate::keyed::lemma_key_pos_some(a, k, i);
    }
}

/// Seconds the backup worker waits, at `now_sec_of_day` seconds into the
/// UTC day, before the next backup at `hour:minute` (the same second of the
/// minute): until today's time if it is still ahead, else until tomorrow's;
/// an hour when `hour:minute` is not a time of day.
pub open spec fn backup_delay(now_sec_of_day: nat, hour: nat, minute: nat) -> nat {
    if hour >= 24 || minute >= 60 {
        3600
    } else {
        let target = hour * 3600 + minute * 60 + now_sec_of_day % 60;
        if target > now_sec_of_day { (target - now_sec_of_day) as nat } else { (target + 86400 - now_sec_of_day) as nat }
    }
}

/// The wait before the next backup, as `backup_delay` says.
pub fn backup_delay_secs(now_sec_of_day: u32, hour: u32, minute: u32) -> (r: u64)
    requires
        now_sec_of_day < 86400,
    ensures
        r == backup_delay(now_sec_of_day as nat, hour as nat, minute as nat),
        r <= 86400,
{
    if hour >= 24 || minute >= 60 {
        return 3600;
    }
    let target: u64 = hour as u64 * 3600 + minute as u64 * 60 + (now_sec_of_day % 60) as u64;
    let now = now_sec_of_day as u64;
    if target > now {
        target - now
    } else {
        target + 86400 - now
    }
}

} // verus!
