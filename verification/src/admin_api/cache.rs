//! The admin API's in-memory cache of JSON documents, held in an
//! `lru::LruCache`: at most a fixed number of documents, the least recently
//! used one giving way to a new key. Documents are kept as their JSON text,
//! with the time they were stored.
use vstd::prelude::*;
use lru::LruCache as LruList;
use std::num::NonZeroUsize;
use crate::clock;

verus! {

/// The outside cache type, opaque to verification.
#[verifier::external_type_specification]
#[verifier::external_body]
#[verifier::reject_recursive_types(K)]
#[verifier::reject_recursive_types(V)]
#[verifier::reject_recursive_types(S)]
pub struct ExLruList<K, V, S>(LruList<K, V, S>);

/// The cache's default hasher type, opaque to verification.
#[verifier::external_type_specification]
#[verifier::external_body]
pub struct ExLruHasher(lru::DefaultHasher);

/// A cached entry: key, JSON text, time stored (milliseconds since the
/// Unix epoch).
pub type CachedEntry = (Seq<char>, Seq<char>, u64);

/// What a cache holds, from the least to the most recently used entry.
pub uninterp spec fn lru_entries(c: LruList<String, (String, u64)>) -> Seq<CachedEntry>;

/// The number of entries a cache was made to hold.
pub uninterp spec fn lru_capacity(c: LruList<String, (String, u64)>) -> nat;

/// No entries.
pub open spec fn no_cached_entries() -> Seq<CachedEntry> {
    Seq::empty()
}

/// The position of the entry with key `k`, or -1.
pub open spec fn entry_pos(s: Seq<CachedEntry>, k: Seq<char>) -> int
    decreases s.len(),
{
    if s.len() == 0 {
        -1
    } else if s[0].0 == k {
        0
    } else if entry_pos(s.drop_first(), k) < 0 {
        -1
    } else {
        entry_pos(s.drop_first(), k) + 1
    }
}

/// No key occurs twice, and there are no more entries than the capacity.
pub open spec fn lru_ok(s: Seq<CachedEntry>, cap: nat) -> bool {
    &&& s.len() <= cap
    &&& forall|i: int, j: int| 0 <= i < j < s.len() ==> (#[trigger] s[i]).0 != (#[trigger] s[j]).0
}

/// What a lookup of `k` finds: the text and time stored under it.
pub open spec fn lookup(s: Seq<CachedEntry>, k: Seq<char>) -> Option<(Seq<char>, u64)> {
    if entry_pos(s, k) >= 0 {
        Some((s[entry_pos(s, k)].1, s[entry_pos(s, k)].2))
    } else {
        None
    }
}

/// The entries after a lookup of `k`: a found entry becomes the most
/// recently used.
pub open spec fn after_lookup(s: Seq<CachedEntry>, k: Seq<char>) -> Seq<CachedEntry> {
    if entry_pos(s, k) >= 0 {
        s.remove(entry_pos(s, k)).push(s[entry_pos(s, k)])
    } else {
        s
    }
}

/// The entries after `k` is stored with text `v` at time `t`: it replaces
/// the entry of the same key, or else (when the cache is full) the least
/// recently used entry gives way; either way it becomes the most recently
/// used.
pub open spec fn after_store(s: Seq<CachedEntry>, cap: nat, k: Seq<char>, v: Seq<char>, t: u64) -> Seq<CachedEntry> {
    if entry_pos(s, k) >= 0 {
        s.remove(entry_pos(s, k)).push((k, v, t))
    } else if s.len() == cap {
        s.drop_first().push((k, v, t))
    } else {
        s.push((k, v, t))
    }
}

/// The entries after the entry of `k` is taken out.
pub open spec fn after_removal(s: Seq<CachedEntry>, k: Seq<char>) -> Seq<CachedEntry> {
    if entry_pos(s, k) >= 0 {
        s.remove(entry_pos(s, k))
    } else {
        s
    }
}

/// `LruCache::new`: an empty cache that holds at most `cap` entries.
#[verifier::external_body]
fn lru_new(cap: usize) -> (r: LruList<String, (String, u64)>)
    requires
        cap > 0,
    ensures
        lru_entries(r) == no_cached_entries(),
        lru_capacity(r) == cap,
{
    LruList::new(NonZeroUsize::new(cap).unwrap())
}

/// `LruCache::get`, the value copied out: what is stored under `k`, which
/// becomes the most recently used entry.
#[verifier::external_body]
fn lru_get(c: &mut LruList<String, (String, u64)>, k: &str) -> (r: Option<(String, u64)>)
    requires
        lru_ok(lru_entries(*old(c)), lru_capacity(*old(c))),
    ensures
        lru_capacity(*final(c)) == lru_capacity(*old(c)),
        lru_entries(*final(c)) == after_lookup(lru_entries(*old(c)), k@),
        match r {
            Some(v) => lookup(lru_entries(*old(c)), k@) == Some((v.0@, v.1)),
            None => lookup(lru_entries(*old(c)), k@) is None,
        },
{
    c.get(k).cloned()
}

/// `LruCache::put`: `k` holds `v` as the most recently used entry; when `k`
/// is new and the cache full, the least recently used entry gives way.
#[verifier::external_body]
fn lru_put(c: &mut LruList<String, (String, u64)>, k: String, v: (String, u64))
    requires
        lru_ok(lru_entries(*old(c)), lru_capacity(*old(c))),
    ensures
        lru_capacity(*final(c)) == lru_capacity(*old(c)),
        lru_entries(*final(c)) == after_store(lru_entries(*old(c)), lru_capacity(*old(c)), k@, v.0@, v.1),
{
    c.put(k, v);
}

/// `LruCache::pop`: the entry of `k` is taken out and returned.
#[verifier::external_body]
fn lru_pop(c: &mut LruList<String, (String, u64)>, k: &str) -> (r: Option<(String, u64)>)
    requires
        lru_ok(lru_entries(*old(c)), lru_capacity(*old(c))),
    ensures
        lru_capacity(*final(c)) == lru_capacity(*old(c)),
        lru_entries(*final(c)) == after_removal(lru_entries(*old(c)), k@),
        match r {
            Some(v) => lookup(lru_entries(*old(c)), k@) == Some((v.0@, v.1)),
            None => lookup(lru_entries(*old(c)), k@) is None,
        },
{
    c.pop(k)
}

/// `LruCache::clear`: no entry is left.
#[verifier::external_body]
fn lru_clear(c: &mut LruList<String, (String, u64)>)
    ensures
        lru_capacity(*final(c)) == lru_capacity(*old(c)),
        lru_entries(*final(c)) == no_cached_entries(),
{
    c.clear();
}

/// `LruCache::len`: the number of entries.
#[verifier::external_body]
fn lru_len(c: &LruList<String, (String, u64)>) -> (r: usize)
    ensures
        r == lru_entries(*c).len(),
{
    c.len()
}

/// `LruCache::cap`: the capacity.
#[verifier::external_body]
fn lru_cap(c: &LruList<String, (String, u64)>) -> (r: usize)
    ensures
        r == lru_capacity(*c),
{
    c.cap().get()
}

/// Where `entry_pos` points, and that no earlier entry has the key.
pub proof fn lemma_entry_pos(s: Seq<CachedEntry>, k: Seq<char>)
    ensures
        -1 <= entry_pos(s, k) < s.len(),
        entry_pos(s, k) >= 0 ==> s[entry_pos(s, k)].0 == k,
        forall|i: int| 0 <= i < s.len() && (entry_pos(s, k) < 0 || i < entry_pos(s, k)) ==> (#[trigger] s[i]).0 != k,
    decreases s.len(),
{
    if s.len() > 0 && s[0].0 != k {
        lemma_entry_pos(s.drop_first(), k);
        assert forall|i: int| 0 <= i < s.len() && (entry_pos(s, k) < 0 || i < entry_pos(s, k)) implies (#[trigger] s[i]).0 != k by {
            if i > 0 {
                assert(s[i] == s.drop_first()[i - 1]);
            }
        }
    }
}

/// Each of the three changes keeps the keys distinct and within capacity.
pub proof fn lemma_changes_keep_ok(s: Seq<CachedEntry>, cap: nat, k: Seq<char>, v: Seq<char>, t: u64)
    requires
        lru_ok(s, cap),
        cap > 0,
    ensures
        lru_ok(after_lookup(s, k), cap),
        lru_ok(after_store(s, cap, k, v, t), cap),
        lru_ok(after_removal(s, k), cap),
        after_lookup(s, k).len() == s.len(),
{
    lemma_entry_pos(s, k);
    let p = entry_pos(s, k);
    if p >= 0 {
        let r = s.remove(p);
        assert forall|i: int, j: int| 0 <= i < j < r.len() implies (#[trigger] r[i]).0 != (#[trigger] r[j]).0 by {
            let a = if i < p { i } else { i + 1 };
            let b = if j < p { j } else { j + 1 };
            assert(r[i] == s[a]);
            assert(r[j] == s[b]);
        }
        let x = s[p];
        let u = r.push(x);
        assert forall|i: int, j: int| 0 <= i < j < u.len() implies (#[trigger] u[i]).0 != (#[trigger] u[j]).0 by {
            if j == r.len() {
                let a = if i < p { i } else { i + 1 };
                assert(u[i] == s[a]);
            }
        }
        let w = r.push((k, v, t));
        assert forall|i: int, j: int| 0 <= i < j < w.len() implies (#[trigger] w[i]).0 != (#[trigger] w[j]).0 by {
            if j == r.len() {
                let a = if i < p { i } else { i + 1 };
                assert(w[i] == s[a]);
            }
        }
    } else {
        let d = s.drop_first();
        let base = if s.len() == cap { d } else { s };
        assert forall|i: int, j: int| 0 <= i < j < base.len() implies (#[trigger] base[i]).0 != (#[trigger] base[j]).0 by {
            if s.len() == cap {
                assert(base[i] == s[i + 1]);
                assert(base[j] == s[j + 1]);
            }
        }
        let w = base.push((k, v, t));
        assert forall|i: int, j: int| 0 <= i < j < w.len() implies (#[trigger] w[i]).0 != (#[trigger] w[j]).0 by {
            if j == base.len() {
                if s.len() == cap {
                    assert(w[i] == s[i + 1]);
                } else {
                    assert(w[i] == s[i]);
                }
            }
        }
        assert(after_store(s, cap, k, v, t) == w);
    }
}

/// Cache law: a lookup right after a store finds what was stored.
pub proof fn law_lookup_after_store(s: Seq<CachedEntry>, cap: nat, k: Seq<char>, v: Seq<char>, t: u64)
    requires
        lru_ok(s, cap),
        cap > 0,
    ensures
        lookup(after_store(s, cap, k, v, t), k) == Some((v, t)),
{
    lemma_changes_keep_ok(s, cap, k, v, t);
    let w = after_store(s, cap, k, v, t);
    lemma_entry_pos(w, k);
    let q = entry_pos(w, k);
    assert(w[w.len() - 1].0 == k);
    if q >= 0 && q != w.len() - 1 {
        assert(w[q].0 != w[w.len() - 1].0);
    }
}

/// Cache law: when the cache is full, storing a new key takes out exactly
/// the least recently used entry; every other entry stays.
pub proof fn law_full_cache_evicts_least_recent(s: Seq<CachedEntry>, cap: nat, k: Seq<char>, v: Seq<char>, t: u64)
    requires
        lru_ok(s, cap),
        cap > 0,
        s.len() == cap,
        lookup(s, k) is None,
    ensures
        lookup(after_store(s, cap, k, v, t), s[0].0) is None,
        forall|i: int| 1 <= i < s.len() ==> lookup(after_store(s, cap, k, v, t), (#[trigger] s[i]).0) == Some((s[i].1, s[i].2)),
        after_store(s, cap, k, v, t).len() == cap,
{
    lemma_entry_pos(s, k);
    lemma_changes_keep_ok(s, cap, k, v, t);
    let w = after_store(s, cap, k, v, t);
    assert(w == s.drop_first().push((k, v, t)));
    lemma_entry_pos(w, s[0].0);
    if entry_pos(w, s[0].0) >= 0 {
        let q = entry_pos(w, s[0].0);
        if q < w.len() - 1 {
            assert(w[q] == s[q + 1]);
        }
    }
    assert forall|i: int| 1 <= i < s.len() implies lookup(w, (#[trigger] s[i]).0) == Some((s[i].1, s[i].2)) by {
        lemma_entry_pos(w, s[i].0);
        assert(w[i - 1] == s[i]);
        let q = entry_pos(w, s[i].0);
        if q >= 0 && q != i - 1 {
            if q < w.len() - 1 {
                assert(w[q] == s[q + 1]);
            }
        }
    }
}

/// Cache law: after a removal the key is not found.
pub proof fn law_lookup_after_removal(s: Seq<CachedEntry>, cap: nat, k: Seq<char>)
    requires
        lru_ok(s, cap),
    ensures
        lookup(after_removal(s, k), k) is None,
{
    lemma_entry_pos(s, k);
    let p = entry_pos(s, k);
    if p >= 0 {
        let r = s.remove(p);
        lemma_entry_pos(r, k);
        if entry_pos(r, k) >= 0 {
            let q = entry_pos(r, k);
            if q < p {
                assert(r[q] == s[q]);
            } else {
                assert(r[q] == s[q + 1]);
            }
        }
    }
}

/// The number of entries and the capacity of a cache.
#[derive(Debug, Clone, Copy)]
pub struct CacheStats {
    pub len: usize,
    pub cap: usize,
}

/// In-memory LRU cache of JSON documents, kept as JSON text.
pub struct JsonCache {
    cache: LruList<String, (String, u64)>,
}

impl JsonCache {
    /// The entries, from the least to the most recently used.
    pub closed spec fn entries(&self) -> Seq<CachedEntry> {
        lru_entries(self.cache)
    }

    /// The most entries the cache holds.
    pub closed spec fn capacity(&self) -> nat {
        lru_capacity(self.cache)
    }

    /// The cache's invariant: a positive capacity, distinct keys, no more
    /// entries than the capacity.
    pub open spec fn wf(&self) -> bool {
        self.capacity() > 0 && lru_ok(self.entries(), self.capacity())
    }

    /// An empty cache for `capacity` documents; a capacity of 0 means 1000.
    pub fn new(capacity: usize) -> (r: Self)
        ensures
            r.wf(),
            r.entries() == no_cached_entries(),
            r.capacity() == if capacity == 0 { 1000 } else { capacity as nat },
    {
        let cap = if capacity == 0 { 1000 } else { capacity };
        JsonCache { cache: lru_new(cap) }
    }

    /// The document stored under `key`, if any; a found entry becomes the
    /// most recently used.
    pub fn get(&mut self, key: &str) -> (r: Option<String>)
        requires
            old(self).wf(),
        ensures
            final(self).wf(),
            final(self).capacity() == old(self).capacity(),
            final(self).entries() == after_lookup(old(self).entries(), key@),
            match r {
                Some(v) => lookup(old(self).entries(), key@) matches Some(x) && x.0 == v@,
                None => lookup(old(self).entries(), key@) is None,
            },
    {
        proof { lemma_changes_keep_ok(self.entries(), self.capacity(), key@, Seq::empty(), 0); }
        match lru_get(&mut self.cache, key) {
            Some(entry) => Some(entry.0),
            None => None,
        }
    }

    /// Store `value` under `key` at time `now_ms`, as `after_store` says.
    pub fn put_at(&mut self, key: String, value: String, now_ms: u64)
        requires
            old(self).wf(),
        ensures
            final(self).wf(),
            final(self).capacity() == old(self).capacity(),
            final(self).entries() == after_store(old(self).entries(), old(self).capacity(), key@, value@, now_ms),
    {
        proof { lemma_changes_keep_ok(self.entries(), self.capacity(), key@, value@, now_ms); }
        lru_put(&mut self.cache, key, (value, now_ms));
    }

    /// Store `value` under `key`, stamped with the present time.
    pub fn put(&mut self, key: String, value: String)
        requires
            old(self).wf(),
        ensures
            final(self).wf(),
            final(self).capacity() == old(self).capacity(),
            exists|t: u64| final(self).entries() == after_store(old(self).entries(), old(self).capacity(), key@, value@, t),
    {
        let now = clock::unix_millis();
        self.put_at(key, value, now);
    }

    /// Take out the document stored under `key`, returning it.
    pub fn remove(&mut self, key: &str) -> (r: Option<String>)
        requires
            old(self).wf(),
        ensures
            final(self).wf(),
            final(self).capacity() == old(self).capacity(),
            final(self).entries() == after_removal(old(self).entries(), key@),
            match r {
                Some(v) => lookup(old(self).entries(), key@) matches Some(x) && x.0 == v@,
                None => lookup(old(self).entries(), key@) is None,
            },
    {
        proof { lemma_changes_keep_ok(self.entries(), self.capacity(), key@, Seq::empty(), 0); }
        match lru_pop(&mut self.cache, key) {
            Some(entry) => Some(entry.0),
            None => None,
        }
    }

    /// Drop every entry.
    pub fn clear(&mut self)
        requires
            old(self).wf(),
        ensures
            final(self).wf(),
            final(self).capacity() == old(self).capacity(),
            final(self).entries() == no_cached_entries(),
    {
        lru_clear(&mut self.cache);
    }

    /// The number of entries and the capacity.
    pub fn stats(&self) -> (r: CacheStats)
        ensures
            r.len == self.entries().len(),
            r.cap == self.capacity(),
    {
        CacheStats { len: lru_len(&self.cache), cap: lru_cap(&self.cache) }
    }
}

} // verus!
