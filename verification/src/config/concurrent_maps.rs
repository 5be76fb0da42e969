//! The concurrent maps (`dashmap::DashMap`) behind the metrics counters and
//! the pre-shared key cache. What a map holds is named, and each call the
//! caches make is stated over that name.
use vstd::prelude::*;
use dashmap::DashMap;
use super::in_memory_cache::TenantMetricsCounter;

verus! {

/// The outside map type, opaque to verification.
#[verifier::external_type_specification]
#[verifier::external_body]
#[verifier::reject_recursive_types(K)]
#[verifier::reject_recursive_types(V)]
#[verifier::reject_recursive_types(S)]
pub struct ExDashMap<K, V, S>(DashMap<K, V, S>);

/// What a map from pre-shared keys to tenant ids holds, by the keys'
/// characters.
pub uninterp spec fn psk_entries(m: DashMap<String, String>) -> Map<Seq<char>, Seq<char>>;

/// What a map from tenant ids to counters holds, by the ids' characters.
pub uninterp spec fn counter_entries(m: DashMap<String, TenantMetricsCounter>) -> Map<Seq<char>, TenantMetricsCounter>;

/// A map from keys to tenant ids that holds nothing.
pub open spec fn no_psk_entries() -> Map<Seq<char>, Seq<char>> {
    Map::empty()
}

/// A map from tenant ids to counters that holds nothing.
pub open spec fn no_counter_entries() -> Map<Seq<char>, TenantMetricsCounter> {
    Map::empty()
}

/// `DashMap::new`: an empty map.
#[verifier::external_body]
pub(crate) fn psk_map_new() -> (r: DashMap<String, String>)
    ensures
        psk_entries(r) == no_psk_entries(),
{
    DashMap::new()
}

/// `DashMap::get`, with the value copied out of the returned guard: the
/// value held under `k`, if any.
#[verifier::external_body]
pub(crate) fn psk_map_get(m: &DashMap<String, String>, k: &str) -> (r: Option<String>)
    ensures
        match r {
            Some(v) => psk_entries(*m).contains_key(k@) && psk_entries(*m)[k@] == v@,
            None => !psk_entries(*m).contains_key(k@),
        },
{
    m.get(k).map(|e| e.value().clone())
}

/// `DashMap::insert`: `k` holds `v` afterwards (replacing any value), the
/// other keys are untouched.
#[verifier::external_body]
pub(crate) fn psk_map_insert(m: &mut DashMap<String, String>, k: String, v: String)
    ensures
        psk_entries(*final(m)) == psk_entries(*old(m)).insert(k@, v@),
{
    m.insert(k, v);
}

/// `DashMap::remove`: `k` is gone afterwards, the other keys are untouched.
#[verifier::external_body]
pub(crate) fn psk_map_remove(m: &mut DashMap<String, String>, k: &str)
    ensures
        psk_entries(*final(m)) == psk_entries(*old(m)).remove(k@),
{
    m.remove(k);
}

/// `DashMap::clear`: the map is empty afterwards.
#[verifier::external_body]
pub(crate) fn psk_map_clear(m: &mut DashMap<String, String>)
    ensures
        psk_entries(*final(m)) == no_psk_entries(),
{
    m.clear();
}

/// `DashMap::len`: the number of keys held.
#[verifier::external_body]
pub(crate) fn psk_map_len(m: &DashMap<String, String>) -> (r: usize)
    ensures
        r == psk_entries(*m).len(),
{
    m.len()
}

/// `DashMap::new`: an empty map.
#[verifier::external_body]
pub(crate) fn counter_map_new() -> (r: DashMap<String, TenantMetricsCounter>)
    ensures
        counter_entries(r) == no_counter_entries(),
{
    DashMap::new()
}

/// `DashMap::get`, with the counters copied out of the returned guard: the
/// counters held under `k`, if any.
#[verifier::external_body]
pub(crate) fn counter_map_get(m: &DashMap<String, TenantMetricsCounter>, k: &str) -> (r: Option<TenantMetricsCounter>)
    ensures
        match r {
            Some(c) => counter_entries(*m).contains_key(k@) && counter_entries(*m)[k@] == c,
            None => !counter_entries(*m).contains_key(k@),
        },
{
    m.get(k).map(|e| *e.value())
}

/// `DashMap::insert`: `k` holds `c` afterwards (replacing any counters),
/// the other keys are untouched.
#[verifier::external_body]
pub(crate) fn counter_map_insert(m: &mut DashMap<String, TenantMetricsCounter>, k: String, c: TenantMetricsCounter)
    ensures
        counter_entries(*final(m)) == counter_entries(*old(m)).insert(k@, c),
{
    m.insert(k, c);
}

/// `DashMap::remove`: `k` is gone afterwards, the other keys are untouched.
#[verifier::external_body]
pub(crate) fn counter_map_remove(m: &mut DashMap<String, TenantMetricsCounter>, k: &str)
    ensures
        counter_entries(*final(m)) == counter_entries(*old(m)).remove(k@),
{
    m.remove(k);
}

/// `DashMap::iter`, each entry copied out: every key with its counters, each
/// key once. The order is the map's internal one, which depends on its
/// hasher's random seed, and is left unsaid.
#[verifier::external_body]
pub(crate) fn counter_map_entries(m: &DashMap<String, TenantMetricsCounter>) -> (r: Vec<(String, TenantMetricsCounter)>)
    ensures
        r@.len() == counter_entries(*m).len(),
        forall|i: int| 0 <= i < r@.len() ==> counter_entries(*m).contains_key(#[trigger] r@[i].0@)
            && counter_entries(*m)[r@[i].0@] == r@[i].1,
        forall|i: int, j: int| 0 <= i < j < r@.len() ==> (#[trigger] r@[i]).0@ != (#[trigger] r@[j]).0@,
        forall|k: Seq<char>| counter_entries(*m).contains_key(k) ==> exists|i: int| 0 <= i < r@.len() && (#[trigger] r@[i]).0@ == k,
{
    m.iter().map(|e| (e.key().clone(), *e.value())).collect()
}

} // verus!
