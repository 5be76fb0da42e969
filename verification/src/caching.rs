//! A least-recently-used cache with a time to live, keyed by strings.
//! Times are nanoseconds since the epoch.
use vstd::prelude::*;
use vstd::wrapping::usize_specs::wrapping_add;
use crate::clock;
use crate::keyed::{first_match, key_pos, lemma_key_pos_at, lemma_key_pos_some, Keyed};

verus! {

/// A cached value with its creation time, last access time and access count.
#[derive(Clone, Debug)]
pub struct CacheEntry<V> {
    pub value: V,
    pub created_at: u64,
    pub accessed_at: u64,
    pub access_count: usize,
}

/// An entry created at `created_at` has outlived `ttl_millis` at `now` when
/// more than the time to live has passed since it was created (never when
/// the clock reads before its creation).
pub open spec fn expired(created_at: u64, now: u64, ttl_millis: u64) -> bool {
    now >= created_at && (now - created_at) > ttl_millis * 1_000_000
}

/// How long an entry has gone unused at `now`; none when the clock reads
/// before its last access (which counts as longer than any time).
pub open spec fn idle(accessed_at: u64, now: u64) -> Option<u64> {
    if now >= accessed_at { Some((now - accessed_at) as u64) } else { None }
}

/// `a` has been idle longer than `b`.
pub open spec fn idle_longer(a: Option<u64>, b: Option<u64>) -> bool {
    match (a, b) {
        (None, None) => false,
        (None, Some(_)) => true,
        (Some(_), None) => false,
        (Some(x), Some(y)) => x > y,
    }
}

/// The entry that eviction picks at `now`: the first of those idle longest,
/// provided it has been idle at all.
pub open spec fn victim<V>(s: Seq<(String, CacheEntry<V>)>, now: u64) -> Option<int> {
    if exists|i: int| is_victim(s, now, i) {
        Some(choose|i: int| is_victim(s, now, i))
    } else {
        None
    }
}

/// Entry `i` is the first idle longest, and has been idle.
pub open spec fn is_victim<V>(s: Seq<(String, CacheEntry<V>)>, now: u64, i: int) -> bool {
    &&& 0 <= i < s.len()
    &&& idle_longer(idle(s[i].1.accessed_at, now), Some(0))
    &&& forall|j: int| 0 <= j < i ==> #[trigger] idle_longer(idle(s[i].1.accessed_at, now), idle(s[j].1.accessed_at, now))
    &&& forall|j: int| i < j < s.len() ==> !#[trigger] idle_longer(idle(s[j].1.accessed_at, now), idle(s[i].1.accessed_at, now))
}

/// Cache counters.
#[derive(Debug, Clone, Copy)]
pub struct CacheCounts {
    pub size: usize,
    pub capacity: usize,
    pub hits: usize,
    pub misses: usize,
    pub evictions: usize,
}

/// A least-recently-used cache with a time to live.
pub struct LruCache<V> {
    data: Keyed<CacheEntry<V>>,
    capacity: usize,
    ttl_millis: u64,
    hits: usize,
    misses: usize,
    evictions: usize,
}

impl<V: Clone> LruCache<V> {
    /// The entries, by key.
    pub closed spec fn spec_entries(&self) -> Seq<(String, CacheEntry<V>)> {
        self.data.entries()
    }

    /// The counters.
    pub closed spec fn spec_counts(&self) -> (usize, usize, usize) {
        (self.hits, self.misses, self.evictions)
    }

    /// The capacity.
    pub closed spec fn spec_capacity(&self) -> usize {
        self.capacity
    }

    /// The time to live, in milliseconds.
    pub closed spec fn spec_ttl(&self) -> u64 {
        self.ttl_millis
    }

    /// An empty cache of `capacity` entries whose entries live `ttl_millis`.
    pub fn new(capacity: usize, ttl_millis: u64) -> (r: Self)
        ensures
            r.spec_entries().len() == 0,
            r.spec_counts() == (0usize, 0usize, 0usize),
            r.spec_capacity() == capacity,
            r.spec_ttl() == ttl_millis,
    {
        LruCache { data: Keyed::new(), capacity, ttl_millis, hits: 0, misses: 0, evictions: 0 }
    }

    /// Look `key` up now; see `get_at`.
    pub fn get(&mut self, key: &str) -> (r: Option<V>)
        ensures
            final(self).spec_capacity() == old(self).spec_capacity(),
            final(self).spec_ttl() == old(self).spec_ttl(),
            exists|now: u64| #[trigger] Self::looked_up(*old(self), *final(self), key@, now, r),
    {
        let now = clock::unix_nanos();
        self.get_at(key, now)
    }

    /// What looking `key` up at `now` did: a missing or expired entry is a
    /// miss (an expired one is dropped); otherwise a hit, which refreshes the
    /// entry's access time and count and hands out a copy of its value.
    pub open spec fn looked_up(before: LruCache<V>, after: LruCache<V>, key: Seq<char>, now: u64, r: Option<V>) -> bool {
        let (h, m, e) = before.spec_counts();
        match key_pos(before.spec_entries(), key) {
            None => r is None && after.spec_entries() == before.spec_entries()
                && after.spec_counts() == (h, wrapping_add(m, 1), e),
            Some(i) => {
                let ent = before.spec_entries()[i].1;
                if expired(ent.created_at, now, before.spec_ttl()) {
                    r is None && after.spec_entries() == before.spec_entries().remove(i)
                        && after.spec_counts() == (h, wrapping_add(m, 1), e)
                } else {
                    &&& r matches Some(v) && cloned(ent.value, v)
                    &&& after.spec_counts() == (wrapping_add(h, 1), m, e)
                    &&& after.spec_entries().len() == before.spec_entries().len()
                    &&& forall|j: int| 0 <= j < before.spec_entries().len() && j != i ==> #[trigger] after.spec_entries()[j] == before.spec_entries()[j]
                    &&& after.spec_entries()[i].0 == before.spec_entries()[i].0
                    &&& after.spec_entries()[i].1 == (CacheEntry { accessed_at: now, access_count: wrapping_add(ent.access_count, 1), ..ent })
                }
            },
        }
    }

    /// Look `key` up at `now`, as `looked_up` says.
    pub fn get_at(&mut self, key: &str, now: u64) -> (r: Option<V>)
        ensures
            final(self).spec_capacity() == old(self).spec_capacity(),
            final(self).spec_ttl() == old(self).spec_ttl(),
            Self::looked_up(*old(self), *final(self), key@, now, r),
    {
        let i = match self.data.find(key) {
            Some(i) => i,
            None => {
                self.misses = self.misses.wrapping_add(1);
                return None;
            },
        };
        let ent = &self.data.at(i).1;
        if now >= ent.created_at && (now - ent.created_at) as u128 > self.ttl_millis as u128 * 1_000_000 {
            let _ = self.data.remove(key);
            self.misses = self.misses.wrapping_add(1);
            return None;
        }
        let value = ent.value.clone();
        let placeholder = CacheEntry { value: ent.value.clone(), created_at: 0, accessed_at: 0, access_count: 0 };
        let old_entry = self.data.swap_value(i, placeholder);
        let touched = CacheEntry {
            value: old_entry.value,
            created_at: old_entry.created_at,
            accessed_at: now,
            access_count: old_entry.access_count.wrapping_add(1),
        };
        let _ = self.data.swap_value(i, touched);
        self.hits = self.hits.wrapping_add(1);
        Some(value)
    }

    /// Store `value` under `key` now; see `insert_at`.
    pub fn insert(&mut self, key: String, value: V)
        ensures
            final(self).spec_capacity() == old(self).spec_capacity(),
            final(self).spec_ttl() == old(self).spec_ttl(),
            exists|now: u64| #[trigger] Self::inserted(*old(self), *final(self), key, value, now),
    {
        let now = clock::unix_nanos();
        self.insert_at(key, value, now)
    }

    /// What storing `value` under `key` at `now` did: when the cache is full
    /// and the key is new, the least recently used entry is evicted first;
    /// then the key holds a fresh entry (in the place of its old one, if any).
    pub open spec fn inserted(before: LruCache<V>, after: LruCache<V>, key: String, value: V, now: u64) -> bool {
        let s = before.spec_entries();
        let (h, m, e) = before.spec_counts();
        let full = s.len() >= before.spec_capacity() && key_pos(s, key@) is None;
        let s1 = if full && victim(s, now) is Some { s.remove(victim(s, now)->0) } else { s };
        let e1 = if full && victim(s, now) is Some { wrapping_add(e, 1) } else { e };
        let fresh = CacheEntry { value, created_at: now, accessed_at: now, access_count: 1 };
        &&& after.spec_entries() == match key_pos(s1, key@) {
            Some(i) => s1.update(i, (key, fresh)),
            None => s1.push((key, fresh)),
        }
        &&& after.spec_counts() == (h, m, e1)
    }

    /// Store `value` under `key` at `now`, as `inserted` says.
    pub fn insert_at(&mut self, key: String, value: V, now: u64)
        ensures
            final(self).spec_capacity() == old(self).spec_capacity(),
            final(self).spec_ttl() == old(self).spec_ttl(),
            Self::inserted(*old(self), *final(self), key, value, now),
    {
        if self.data.len() >= self.capacity && self.data.find(key.as_str()).is_none() {
            self.evict_lru(now);
        }
        let _ = self.data.upsert(key, CacheEntry { value, created_at: now, accessed_at: now, access_count: 1 });
    }

    /// Evict the entry that has gone unused longest at `now` (the first such,
    /// and only one unused for some time).
    fn evict_lru(&mut self, now: u64)
        ensures
            final(self).spec_capacity() == old(self).spec_capacity(),
            final(self).spec_ttl() == old(self).spec_ttl(),
            match victim(old(self).spec_entries(), now) {
                Some(i) => final(self).spec_entries() == old(self).spec_entries().remove(i)
                    && final(self).spec_counts() == (old(self).spec_counts().0, old(self).spec_counts().1, wrapping_add(old(self).spec_counts().2, 1)),
                None => final(self).spec_entries() == old(self).spec_entries() && final(self).spec_counts() == old(self).spec_counts(),
            },
    {
        let ghost s = self.spec_entries();
        let n = self.data.len();
        let mut best: Option<usize> = None;
        let mut best_idle: Option<u64> = Some(0);
        let mut i: usize = 0;
        while i < n
            invariant
                i <= n,
                n == s.len(),
                s == self.spec_entries(),
                match best {
                    Some(b) => b < i && best_idle == idle(s[b as int].1.accessed_at, now)
                        && idle_longer(best_idle, Some(0))
                        && (forall|j: int| 0 <= j < b ==> #[trigger] idle_longer(best_idle, idle(s[j].1.accessed_at, now)))
                        && (forall|j: int| b < j < i ==> !#[trigger] idle_longer(idle(s[j].1.accessed_at, now), best_idle)),
                    None => best_idle == Some(0u64)
                        && forall|j: int| 0 <= j < i ==> !#[trigger] idle_longer(idle(s[j].1.accessed_at, now), Some(0u64)),
                },
            decreases n - i,
        {
            let a = self.data.at(i).1.accessed_at;
            let cur: Option<u64> = if now >= a { Some(now - a) } else { None };
            let longer = match (cur, best_idle) {
                (None, None) => false,
                (None, Some(_)) => true,
                (Some(_), None) => false,
                (Some(x), Some(y)) => x > y,
            };
            proof {
                assert(cur == idle(s[i as int].1.accessed_at, now));
                assert(longer == idle_longer(cur, best_idle));
                if longer {
                    assert forall|j: int| 0 <= j < i implies #[trigger] idle_longer(cur, idle(s[j].1.accessed_at, now)) by {
                        let x = idle(s[j].1.accessed_at, now);
                        match best {
                            Some(b) => {
                                if j < b {
                                    lemma_longer_trans(cur, best_idle, x);
                                } else if j == b {
                                } else {
                                    lemma_longer_not(cur, best_idle, x);
                                }
                            },
                            None => {
                                lemma_longer_not(cur, best_idle, x);
                            },
                        }
                    }
                    lemma_longer_trans(cur, best_idle, Some(0u64));
                }
            }
            if longer {
                best = Some(i);
                best_idle = cur;
            }
            i = i + 1;
        }
        match best {
            Some(b) => {
                proof {
                    assert(is_victim(s, now, b as int));
                    lemma_victim_unique(s, now, b as int);
                }
                let _ = self.data.remove_at(b);
                self.evictions = self.evictions.wrapping_add(1);
            },
            None => {
                proof {
                    if exists|v: int| is_victim(s, now, v) {
                        let v = choose|v: int| is_victim(s, now, v);
                        assert(idle_longer(idle(s[v].1.accessed_at, now), Some(0u64)));
                    }
                }
            },
        }
    }

    /// Drop the entry of `key`.
    pub fn invalidate(&mut self, key: &str)
        ensures
            final(self).spec_entries() == match key_pos(old(self).spec_entries(), key@) {
                Some(i) => old(self).spec_entries().remove(i),
                None => old(self).spec_entries(),
            },
            final(self).spec_counts() == old(self).spec_counts(),
            final(self).spec_capacity() == old(self).spec_capacity(),
            final(self).spec_ttl() == old(self).spec_ttl(),
    {
        let _ = self.data.remove(key);
    }

    /// Drop every entry.
    pub fn clear(&mut self)
        ensures
            final(self).spec_entries().len() == 0,
            final(self).spec_counts() == old(self).spec_counts(),
            final(self).spec_capacity() == old(self).spec_capacity(),
            final(self).spec_ttl() == old(self).spec_ttl(),
    {
        self.data.clear();
    }

    /// The cache's counters.
    pub fn stats(&self) -> (r: CacheCounts)
        ensures
            r.size == self.spec_entries().len(),
            r.capacity == self.spec_capacity(),
            (r.hits, r.misses, r.evictions) == self.spec_counts(),
    {
        CacheCounts { size: self.data.len(), capacity: self.capacity, hits: self.hits, misses: self.misses, evictions: self.evictions }
    }

    /// Drop the entries expired now; see `cleanup_expired_at`.
    pub fn cleanup_expired(&mut self) -> (r: usize)
        ensures
            final(self).spec_capacity() == old(self).spec_capacity(),
            final(self).spec_ttl() == old(self).spec_ttl(),
            final(self).spec_counts() == old(self).spec_counts(),
            exists|now: u64| final(self).spec_entries() == #[trigger] unexpired(old(self).spec_entries(), now, old(self).spec_ttl())
                && r == old(self).spec_entries().len() - final(self).spec_entries().len(),
    {
        let now = clock::unix_nanos();
        self.cleanup_expired_at(now)
    }

    /// Drop the entries expired at `now`, keeping the others in order;
    /// returns how many were dropped.
    pub fn cleanup_expired_at(&mut self, now: u64) -> (r: usize)
        ensures
            final(self).spec_capacity() == old(self).spec_capacity(),
            final(self).spec_ttl() == old(self).spec_ttl(),
            final(self).spec_counts() == old(self).spec_counts(),
            final(self).spec_entries() == unexpired(old(self).spec_entries(), now, old(self).spec_ttl()),
            r == old(self).spec_entries().len() - final(self).spec_entries().len(),
    {
        let ghost s = self.spec_entries();
        let ttl = self.ttl_millis;
        let n0 = self.data.len();
        let mut i: usize = n0;
        let mut removed: usize = 0;
        while i > 0
            invariant
                i <= s.len(),
                s.len() == n0,
                ttl == self.spec_ttl(),
                self.spec_ttl() == old(self).spec_ttl(),
                self.spec_capacity() == old(self).spec_capacity(),
                self.spec_counts() == old(self).spec_counts(),
                s == old(self).spec_entries(),
                self.spec_entries() == s.take(i as int) + unexpired(s.skip(i as int), now, ttl),
                removed + self.spec_entries().len() == s.len(),
            decreases i,
        {
            let ghost e0 = self.spec_entries();
            assert(s.skip(i - 1).drop_first() =~= s.skip(i as int));
            assert(s.skip(i - 1)[0] == s[i - 1]);
            let c = self.data.at(i - 1).1.created_at;
            assert(e0[i - 1] == s[i - 1]);
            if now >= c && (now - c) as u128 > ttl as u128 * 1_000_000 {
                let _ = self.data.remove_at(i - 1);
                assert(self.spec_entries() =~= s.take(i - 1) + unexpired(s.skip(i - 1), now, ttl));
                removed = removed + 1;
            } else {
                assert(self.spec_entries() =~= s.take(i - 1) + unexpired(s.skip(i - 1), now, ttl));
            }
            i = i - 1;
        }
        assert(s.skip(0) =~= s);
        assert(s.take(0) + unexpired(s, now, ttl) =~= unexpired(s, now, ttl));
        removed
    }
}

/// The entries of `s` not expired at `now`, in order.
pub open spec fn unexpired<V>(s: Seq<(String, CacheEntry<V>)>, now: u64, ttl_millis: u64) -> Seq<(String, CacheEntry<V>)>
    decreases s.len(),
{
    if s.len() == 0 {
        s
    } else if expired(s[0].1.created_at, now, ttl_millis) {
        unexpired(s.drop_first(), now, ttl_millis)
    } else {
        seq![s[0]] + unexpired(s.drop_first(), now, ttl_millis)
    }
}

/// Read after write: a lookup of a key hands out a copy of the value last
/// stored under it, while that entry has not expired.
pub proof fn law_read_after_write<V: Clone>(
    before: LruCache<V>,
    mid: LruCache<V>,
    after: LruCache<V>,
    key: String,
    value: V,
    stored_at: u64,
    read_at: u64,
    r: Option<V>,
)
    requires
        LruCache::inserted(before, mid, key, value, stored_at),
        LruCache::looked_up(mid, after, key@, read_at, r),
        !expired(stored_at, read_at, mid.spec_ttl()),
    ensures
        r matches Some(v) && cloned(value, v),
{
    let s = before.spec_entries();
    let full = s.len() >= before.spec_capacity() && key_pos(s, key@) is None;
    let s1 = if full && victim(s, stored_at) is Some { s.remove(victim(s, stored_at)->0) } else { s };
    let fresh = CacheEntry { value, created_at: stored_at, accessed_at: stored_at, access_count: 1 };
    let m = mid.spec_entries();
    match key_pos(s1, key@) {
        Some(i) => {
            assert(first_match(s1, key@, i));
            assert(first_match(m, key@, i));
            lemma_key_pos_at(m, key@, i);
        },
        None => {
            assert forall|j: int| 0 <= j < s1.len() implies (#[trigger] s1[j]).0@ != key@ by {
                if s1[j].0@ == key@ {
                    lemma_key_pos_some(s1, key@, j);
                }
            }
            assert(first_match(m, key@, s1.len() as int));
            lemma_key_pos_at(m, key@, s1.len() as int);
        },
    }
}

proof fn lemma_longer_trans(a: Option<u64>, b: Option<u64>, c: Option<u64>)
    ensures
        idle_longer(a, b) && (idle_longer(b, c) || b == c) ==> idle_longer(a, c),
{
}

proof fn lemma_longer_not(a: Option<u64>, b: Option<u64>, c: Option<u64>)
    ensures
        idle_longer(a, b) && !idle_longer(c, b) ==> idle_longer(a, c),
{
}

proof fn lemma_victim_unique<V>(s: Seq<(String, CacheEntry<V>)>, now: u64, b: int)
    requires
        is_victim(s, now, b),
    ensures
        victim(s, now) == Some(b),
{
    let v = choose|v: int| is_victim(s, now, v);
    if v < b {
        assert(idle_longer(idle(s[b].1.accessed_at, now), idle(s[v].1.accessed_at, now)));
    } else if v > b {
        assert(idle_longer(idle(s[v].1.accessed_at, now), idle(s[b].1.accessed_at, now)));
    }
}

} // verus!
