//! A list of values keyed by distinct strings, in insertion order.
use vstd::prelude::*;
use crate::text::str_eq;

verus! {

/// `i` is the first position of `s` whose key is `k`.
pub open spec fn first_match<V>(s: Seq<(String, V)>, k: Seq<char>, i: int) -> bool {
    &&& 0 <= i < s.len()
    &&& s[i].0@ == k
    &&& forall|j: int| 0 <= j < i ==> (#[trigger] s[j]).0@ != k
}

/// The position of key `k` in `s`, if any entry has it.
pub open spec fn key_pos<V>(s: Seq<(String, V)>, k: Seq<char>) -> Option<int> {
    if exists|i: int| first_match(s, k, i) {
        Some(choose|i: int| first_match(s, k, i))
    } else {
        None
    }
}

/// No two entries share a key.
pub open spec fn keys_distinct<V>(s: Seq<(String, V)>) -> bool {
    forall|i: int, j: int| 0 <= i < j < s.len() ==> (#[trigger] s[i]).0@ != (#[trigger] s[j]).0@
}

/// The key of `s` at position `i` is `k` and no earlier one is: then `i` is
/// the key's position.
pub proof fn lemma_key_pos_at<V>(s: Seq<(String, V)>, k: Seq<char>, i: int)
    requires
        first_match(s, k, i),
    ensures
        key_pos(s, k) == Some(i),
{
    let c = choose|c: int| first_match(s, k, c);
    if c < i {
        assert(s[c].0@ != k);
    } else if c > i {
        assert(s[i].0@ != k);
    }
}

/// A key that some entry has has a position.
pub proof fn lemma_key_pos_some<V>(s: Seq<(String, V)>, k: Seq<char>, m: int)
    requires
        0 <= m < s.len(),
        s[m].0@ == k,
    ensures
        key_pos(s, k) is Some,
    decreases m,
{
    if exists|j: int| 0 <= j < m && (#[trigger] s[j]).0@ == k {
        let j = choose|j: int| 0 <= j < m && (#[trigger] s[j]).0@ == k;
        lemma_key_pos_some(s, k, j);
    } else {
        assert(first_match(s, k, m));
    }
}

/// The key's position holds the key.
pub proof fn lemma_key_pos_valid<V>(s: Seq<(String, V)>, k: Seq<char>)
    requires
        key_pos(s, k) is Some,
    ensures
        first_match(s, k, key_pos(s, k)->0),
{
}

/// The entries after `k` is set to `v`: its entry is replaced in place, or
/// one joins the end.
pub open spec fn upserted<V>(s: Seq<(String, V)>, k: String, v: V) -> Seq<(String, V)> {
    match key_pos(s, k@) {
        Some(i) => s.update(i, (k, v)),
        None => s.push((k, v)),
    }
}

/// Write, then read: after `k` is set to `v`, looking `k` up finds `v`, and
/// every other key keeps its value.
pub proof fn law_upsert_then_get<V>(s: Seq<(String, V)>, k: String, v: V, other: Seq<char>)
    requires
        other != k@,
    ensures
        key_pos(upserted(s, k, v), k@) matches Some(j) && upserted(s, k, v)[j].1 == v,
        match key_pos(s, other) {
            Some(i) => key_pos(upserted(s, k, v), other) == Some(i) && upserted(s, k, v)[i].1 == s[i].1,
            None => key_pos(upserted(s, k, v), other) is None,
        },
{
    let after = upserted(s, k, v);
    match key_pos(s, k@) {
        Some(i) => {
            assert(first_match(after, k@, i));
            lemma_key_pos_at(after, k@, i);
        },
        None => {
            assert forall|j: int| 0 <= j < s.len() implies (#[trigger] s[j]).0@ != k@ by {
                if s[j].0@ == k@ {
                    lemma_key_pos_some(s, k@, j);
                }
            }
            assert(first_match(after, k@, s.len() as int));
            lemma_key_pos_at(after, k@, s.len() as int);
        },
    }
    match key_pos(s, other) {
        Some(i) => {
            assert(first_match(after, other, i));
            lemma_key_pos_at(after, other, i);
        },
        None => {
            if key_pos(after, other) is Some {
                let j = key_pos(after, other)->0;
                lemma_key_pos_valid(after, other);
                if j < s.len() {
                    lemma_key_pos_some(s, other, j);
                }
            }
        },
    }
}

/// Remove, then read: with distinct keys, once the entry of `k` is removed,
/// `k` is not found.
pub proof fn law_remove_then_get<V>(s: Seq<(String, V)>, k: Seq<char>)
    requires
        keys_distinct(s),
    ensures
        key_pos(s, k) matches Some(i) ==> key_pos(s.remove(i), k) is None,
{
    if key_pos(s, k) is Some {
        let i = key_pos(s, k)->0;
        lemma_key_pos_valid(s, k);
        let t = s.remove(i);
        if key_pos(t, k) is Some {
            let j = key_pos(t, k)->0;
            lemma_key_pos_valid(t, k);
            if j < i {
                assert(t[j] == s[j]);
            } else {
                assert(t[j] == s[j + 1]);
                assert(s[i].0@ != s[j + 1].0@);
            }
        }
    }
}

/// Values keyed by distinct strings, kept in insertion order.
pub struct Keyed<V> {
    entries: Vec<(String, V)>,
}

impl<V> Keyed<V> {
    /// No two entries share a key.
    #[verifier::type_invariant]
    closed spec fn distinct(&self) -> bool {
        keys_distinct(self.entries@)
    }

    /// The entries, in insertion order.
    pub closed spec fn entries(&self) -> Seq<(String, V)> {
        self.entries@
    }

    /// An empty list.
    pub fn new() -> (r: Self)
        ensures
            r.entries().len() == 0,
    {
        Keyed { entries: Vec::new() }
    }

    /// Number of entries.
    pub fn len(&self) -> (r: usize)
        ensures
            r == self.entries().len(),
    {
        self.entries.len()
    }

    /// The entry at position `i`.
    pub fn at(&self, i: usize) -> (r: &(String, V))
        requires
            i < self.entries().len(),
        ensures
            *r == self.entries()[i as int],
            key_pos(self.entries(), r.0@) == Some(i as int),
    {
        proof {
            use_type_invariant(self);
            let k = self.entries@[i as int].0@;
            assert forall|j: int| 0 <= j < i implies (#[trigger] self.entries@[j]).0@ != k by {
                assert(self.entries@[j].0@ != self.entries@[i as int].0@);
            }
            lemma_key_pos_at(self.entries@, k, i as int);
        }
        &self.entries[i]
    }

    /// Position of key `k`.
    pub fn find(&self, k: &str) -> (r: Option<usize>)
        ensures
            r matches Some(i) ==> key_pos(self.entries(), k@) == Some(i as int),
            r is None ==> key_pos(self.entries(), k@) is None,
            r is None ==> forall|j: int| 0 <= j < self.entries().len() ==> (#[trigger] self.entries()[j]).0@ != k@,
    {
        Self::find_in(&self.entries, k)
    }

    /// The value of key `k`.
    pub fn get(&self, k: &str) -> (r: Option<&V>)
        ensures
            match key_pos(self.entries(), k@) {
                Some(i) => r == Some(&self.entries()[i].1),
                None => r is None,
            },
    {
        match self.find(k) {
            Some(i) => Some(&self.entries[i].1),
            None => None,
        }
    }

    /// Insert `v` under `k`, replacing the value that `k` had.
    pub fn upsert(&mut self, k: String, v: V) -> (replaced: bool)
        ensures
            replaced == (key_pos(old(self).entries(), k@) is Some),
            final(self).entries() == match key_pos(old(self).entries(), k@) {
                Some(i) => old(self).entries().update(i, (k, v)),
                None => old(self).entries().push((k, v)),
            },
            key_pos(final(self).entries(), k@) is Some,
    {
        proof { use_type_invariant(&*self); }
        let ghost e0 = self.entries@;
        let ghost kv = k@;
        let mut e: Vec<(String, V)> = Vec::new();
        std::mem::swap(&mut e, &mut self.entries);
        let pos = Self::find_in(&e, k.as_str());
        match pos {
            Some(i) => {
                let _ = e.remove(i);
                e.insert(i, (k, v));
                assert(e@ =~= e0.update(i as int, e@[i as int]));
                proof {
                    assert forall|a: int, b: int| 0 <= a < b < e@.len() implies (#[trigger] e@[a]).0@ != (#[trigger] e@[b]).0@ by {
                        assert(e0[a].0@ != e0[b].0@);
                    }
                    lemma_key_pos_some(e@, kv, i as int);
                }
                self.entries = e;
                true
            },
            None => {
                e.push((k, v));
                proof {
                    assert forall|a: int, b: int| 0 <= a < b < e@.len() implies (#[trigger] e@[a]).0@ != (#[trigger] e@[b]).0@ by {
                        if b < e0.len() {
                            assert(e0[a].0@ != e0[b].0@);
                        } else {
                            assert(e0[a] == e@[a]);
                        }
                    }
                    lemma_key_pos_some(e@, kv, e0.len() as int);
                }
                self.entries = e;
                false
            },
        }
    }

    fn find_in(e: &Vec<(String, V)>, k: &str) -> (r: Option<usize>)
        ensures
            r matches Some(i) ==> key_pos(e@, k@) == Some(i as int),
            r is None ==> key_pos(e@, k@) is None,
            r is None ==> forall|j: int| 0 <= j < e@.len() ==> (#[trigger] e@[j]).0@ != k@,
    {
        let mut i: usize = 0;
        while i < e.len()
            invariant
                i <= e@.len(),
                forall|j: int| 0 <= j < i ==> (#[trigger] e@[j]).0@ != k@,
            decreases e@.len() - i,
        {
            if str_eq(e[i].0.as_str(), k) {
                proof { lemma_key_pos_at(e@, k@, i as int); }
                return Some(i);
            }
            i = i + 1;
        }
        None
    }

    /// Remove key `k`; returns its value, if it had one. Afterwards no entry
    /// has the key.
    pub fn remove(&mut self, k: &str) -> (r: Option<V>)
        ensures
            match key_pos(old(self).entries(), k@) {
                Some(i) => final(self).entries() == old(self).entries().remove(i) && r == Some(old(self).entries()[i].1),
                None => final(self).entries() == old(self).entries() && r is None,
            },
            key_pos(final(self).entries(), k@) is None,
    {
        proof { use_type_invariant(&*self); }
        let ghost e0 = self.entries@;
        let mut e: Vec<(String, V)> = Vec::new();
        std::mem::swap(&mut e, &mut self.entries);
        match Self::find_in(&e, k) {
            Some(i) => {
                let (_, v) = e.remove(i);
                proof {
                    assert forall|a: int, b: int| 0 <= a < b < e@.len() implies (#[trigger] e@[a]).0@ != (#[trigger] e@[b]).0@ by {
                        if b < i {
                            assert(e0[a].0@ != e0[b].0@);
                        } else if a < i {
                            assert(e0[a].0@ != e0[b + 1].0@);
                        } else {
                            assert(e0[a + 1].0@ != e0[b + 1].0@);
                        }
                    }
                    if key_pos(e@, k@) is Some {
                        let m = key_pos(e@, k@)->0;
                        if m < i {
                            assert(e0[m].0@ != k@);
                        } else {
                            assert(e0[i as int].0@ != e0[m + 1].0@);
                        }
                    }
                }
                self.entries = e;
                Some(v)
            },
            None => {
                self.entries = e;
                None
            },
        }
    }

    /// Replace the value at position `i`, keeping its key.
    pub fn set_value(&mut self, i: usize, v: V)
        requires
            i < old(self).entries().len(),
        ensures
            final(self).entries() == old(self).entries().update(i as int, (old(self).entries()[i as int].0, v)),
    {
        proof { use_type_invariant(&*self); }
        let ghost e0 = self.entries@;
        let mut e: Vec<(String, V)> = Vec::new();
        std::mem::swap(&mut e, &mut self.entries);
        let (key, _) = e.remove(i);
        e.insert(i, (key, v));
        assert(e@ =~= e0.update(i as int, (e0[i as int].0, v)));
        assert forall|a: int, b: int| 0 <= a < b < e@.len() implies (#[trigger] e@[a]).0@ != (#[trigger] e@[b]).0@ by {
            assert(e0[a].0@ != e0[b].0@);
        }
        self.entries = e;
    }

    /// Replace the value at position `i`, keeping its key; returns the
    /// value it had.
    pub fn swap_value(&mut self, i: usize, v: V) -> (r: V)
        requires
            i < old(self).entries().len(),
        ensures
            final(self).entries() == old(self).entries().update(i as int, (old(self).entries()[i as int].0, v)),
            r == old(self).entries()[i as int].1,
    {
        proof { use_type_invariant(&*self); }
        let ghost e0 = self.entries@;
        let mut e: Vec<(String, V)> = Vec::new();
        std::mem::swap(&mut e, &mut self.entries);
        let (key, old_v) = e.remove(i);
        e.insert(i, (key, v));
        assert(e@ =~= e0.update(i as int, (e0[i as int].0, v)));
        assert forall|a: int, b: int| 0 <= a < b < e@.len() implies (#[trigger] e@[a]).0@ != (#[trigger] e@[b]).0@ by {
            assert(e0[a].0@ != e0[b].0@);
        }
        self.entries = e;
        old_v
    }

    /// Remove the entry at position `i`.
    pub fn remove_at(&mut self, i: usize) -> (r: (String, V))
        requires
            i < old(self).entries().len(),
        ensures
            final(self).entries() == old(self).entries().remove(i as int),
            r == old(self).entries()[i as int],
    {
        proof { use_type_invariant(&*self); }
        let ghost e0 = self.entries@;
        let mut e: Vec<(String, V)> = Vec::new();
        std::mem::swap(&mut e, &mut self.entries);
        let r = e.remove(i);
        assert forall|a: int, b: int| 0 <= a < b < e@.len() implies (#[trigger] e@[a]).0@ != (#[trigger] e@[b]).0@ by {
            if b < i {
                assert(e0[a].0@ != e0[b].0@);
            } else if a < i {
                assert(e0[a].0@ != e0[b + 1].0@);
            } else {
                assert(e0[a + 1].0@ != e0[b + 1].0@);
            }
        }
        self.entries = e;
        r
    }

    /// Remove every entry.
    pub fn clear(&mut self)
        ensures
            final(self).entries().len() == 0,
    {
        self.entries = Vec::new();
    }
}

} // verus!
