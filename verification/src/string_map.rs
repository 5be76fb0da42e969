//! A map from strings to strings, kept as a list of distinct keys.
use vstd::prelude::*;
use crate::text::str_eq;

verus! {

/// Map from string keys to string values (metadata, headers, tags).
#[derive(Debug)]
pub struct StringMap {
    entries: Vec<(String, String)>,
}

/// The key views of the entries.
pub open spec fn entry_keys(s: Seq<(String, String)>) -> Seq<Seq<char>> {
    s.map_values(|e: (String, String)| e.0@)
}

/// No two entries share a key.
pub open spec fn distinct_keys(e: Seq<(String, String)>) -> bool {
    forall|i: int, j: int| 0 <= i < j < e.len() ==> (#[trigger] e[i]).0@ != (#[trigger] e[j]).0@
}

/// The map that a list of entries describes.
pub open spec fn map_of(e: Seq<(String, String)>) -> Map<Seq<char>, Seq<char>> {
    Map::new(
        |k: Seq<char>| exists|i: int| 0 <= i < e.len() && (#[trigger] e[i]).0@ == k,
        |k: Seq<char>| e[choose|i: int| 0 <= i < e.len() && (#[trigger] e[i]).0@ == k].1@,
    )
}

proof fn lemma_map_of_at(e: Seq<(String, String)>, i: int)
    requires
        distinct_keys(e),
        0 <= i < e.len(),
    ensures
        map_of(e).contains_key(e[i].0@),
        map_of(e)[e[i].0@] == e[i].1@,
{
    let k = e[i].0@;
    assert(map_of(e).contains_key(k));
    let c = choose|j: int| 0 <= j < e.len() && (#[trigger] e[j]).0@ == k;
    if c != i {
        if c < i {
            assert(e[c].0@ != e[i].0@);
        } else {
            assert(e[i].0@ != e[c].0@);
        }
    }
}

impl StringMap {
    /// No two entries share a key.
    #[verifier::type_invariant]
    closed spec fn keys_distinct(&self) -> bool {
        distinct_keys(self.entries@)
    }

    /// The map that the entries describe.
    pub closed spec fn view(&self) -> Map<Seq<char>, Seq<char>> {
        map_of(self.entries@)
    }

    /// An empty map.
    pub fn new() -> (m: Self)
        ensures
            m.view() == Map::<Seq<char>, Seq<char>>::empty(),
    {
        let m = StringMap { entries: Vec::new() };
        assert(m.view() =~= Map::<Seq<char>, Seq<char>>::empty());
        m
    }

    /// Position of the entry with key `k`.
    fn position(&self, k: &str) -> (r: Option<usize>)
        ensures
            r matches Some(i) ==> i < self.entries@.len() && self.entries@[i as int].0@ == k@,
            r is None ==> forall|i: int| 0 <= i < self.entries@.len() ==> (#[trigger] self.entries@[i]).0@ != k@,
    {
        let mut i: usize = 0;
        while i < self.entries.len()
            invariant
                i <= self.entries@.len(),
                forall|j: int| 0 <= j < i ==> (#[trigger] self.entries@[j]).0@ != k@,
            decreases self.entries@.len() - i,
        {
            if str_eq(self.entries[i].0.as_str(), k) {
                return Some(i);
            }
            i = i + 1;
        }
        None
    }


    /// Whether the map has key `k`.
    pub fn contains_key(&self, k: &str) -> (r: bool)
        ensures
            r == self.view().contains_key(k@),
    {
        let p = self.position(k);
        p.is_some()
    }

    /// The value of key `k`, if any.
    pub fn get(&self, k: &str) -> (r: Option<&String>)
        ensures
            r matches Some(v) ==> self.view().contains_key(k@) && v@ == self.view()[k@],
            r is None ==> !self.view().contains_key(k@),
    {
        match self.position(k) {
            Some(i) => {
                proof { use_type_invariant(self); lemma_map_of_at(self.entries@, i as int); }
                Some(&self.entries[i].1)
            },
            None => None,
        }
    }

    /// Number of keys.
    pub fn len(&self) -> (r: usize)
        ensures
            r == self.view().len(),
    {
        proof { use_type_invariant(self); self.lemma_len(); }
        self.entries.len()
    }

    proof fn lemma_len(&self)
        requires
            distinct_keys(self.entries@),
        ensures
            self.view().dom() == entry_keys(self.entries@).to_set(),
            self.view().len() == self.entries@.len(),
    {
        let ks = entry_keys(self.entries@);
        assert(self.view().dom() =~= ks.to_set()) by {
            assert forall|k: Seq<char>| self.view().dom().contains(k) implies ks.to_set().contains(k) by {
                let i = choose|i: int| 0 <= i < self.entries@.len() && (#[trigger] self.entries@[i]).0@ == k;
                assert(ks[i] == k);
            }
            assert forall|k: Seq<char>| ks.to_set().contains(k) implies self.view().dom().contains(k) by {
                let i = choose|i: int| 0 <= i < ks.len() && ks[i] == k;
                assert(self.entries@[i].0@ == k);
            }
        }
        assert(ks.no_duplicates()) by {
            assert forall|i: int, j: int| 0 <= i < ks.len() && 0 <= j < ks.len() && i != j implies ks[i] != ks[j] by {
                if i < j {
                    assert(self.entries@[i].0@ != self.entries@[j].0@);
                } else {
                    assert(self.entries@[j].0@ != self.entries@[i].0@);
                }
            }
        }
        ks.unique_seq_to_set();
    }

    /// The entries as key-value pairs, each key once.
    pub fn to_pairs(&self) -> (r: Vec<(String, String)>)
        ensures
            r@.len() == self.view().len(),
            forall|i: int| 0 <= i < r@.len() ==> self.view().contains_key(#[trigger] r@[i].0@)
                && self.view()[r@[i].0@] == r@[i].1@,
            forall|k: Seq<char>| self.view().contains_key(k) ==> exists|i: int| 0 <= i < r@.len() && (#[trigger] r@[i]).0@ == k,
    {
        proof { use_type_invariant(self); self.lemma_len(); }
        let mut out: Vec<(String, String)> = Vec::new();
        let mut i: usize = 0;
        while i < self.entries.len()
            invariant
                i <= self.entries@.len(),
                distinct_keys(self.entries@),
                out@.len() == i,
                forall|j: int| 0 <= j < i ==> (#[trigger] out@[j]).0@ == self.entries@[j].0@ && out@[j].1@ == self.entries@[j].1@,
            decreases self.entries@.len() - i,
        {
            let k = self.entries[i].0.clone();
            let v = self.entries[i].1.clone();
            out.push((k, v));
            i = i + 1;
        }
        proof {
            assert forall|j: int| 0 <= j < out@.len() implies self.view().contains_key(#[trigger] out@[j].0@)
                && self.view()[out@[j].0@] == out@[j].1@ by {
                lemma_map_of_at(self.entries@, j);
            }
            assert forall|k: Seq<char>| self.view().contains_key(k) implies exists|j: int| 0 <= j < out@.len() && (#[trigger] out@[j]).0@ == k by {
                let j = choose|j: int| 0 <= j < self.entries@.len() && (#[trigger] self.entries@[j]).0@ == k;
                assert(out@[j].0@ == k);
            }
        }
        out
    }

    /// Insert or replace the value of key `k`; returns the value it replaced.
    pub fn insert(&mut self, k: String, v: String) -> (r: Option<String>)
        ensures
            final(self).view() == old(self).view().insert(k@, v@),
            r matches Some(o) ==> old(self).view().contains_key(k@) && o@ == old(self).view()[k@],
            r is None ==> !old(self).view().contains_key(k@),
    {
        proof { use_type_invariant(&*self); }
        let ghost e0 = self.entries@;
        match self.position(k.as_str()) {
            Some(i) => {
                proof { lemma_map_of_at(e0, i as int); }
                let ghost e1 = e0.update(i as int, (e0[i as int].0, v));
                proof { lemma_update_keys(e0, i as int, v, k@); }
                let mut e: Vec<(String, String)> = Vec::new();
                std::mem::swap(&mut e, &mut self.entries);
                let (ok, ov) = e.remove(i);
                e.insert(i, (ok, v));
                assert(e@ =~= e1);
                self.entries = e;
                Some(ov)
            },
            None => {
                proof { lemma_push_keys(e0, k, v); }
                let mut e: Vec<(String, String)> = Vec::new();
                std::mem::swap(&mut e, &mut self.entries);
                e.push((k, v));
                self.entries = e;
                None
            },
        }
    }
}

impl Clone for StringMap {
    fn clone(&self) -> (r: Self)
        ensures
            r.view() == self.view(),
    {
        proof { use_type_invariant(self); }
        let mut e: Vec<(String, String)> = Vec::new();
        let mut i: usize = 0;
        while i < self.entries.len()
            invariant
                i <= self.entries@.len(),
                distinct_keys(self.entries@),
                e@.len() == i,
                forall|j: int| 0 <= j < i ==> (#[trigger] e@[j]).0@ == self.entries@[j].0@ && e@[j].1@ == self.entries@[j].1@,
            decreases self.entries@.len() - i,
        {
            let k = self.entries[i].0.clone();
            let v = self.entries[i].1.clone();
            e.push((k, v));
            i = i + 1;
        }
        proof {
            assert(distinct_keys(e@)) by {
                assert forall|a: int, b: int| 0 <= a < b < e@.len() implies (#[trigger] e@[a]).0@ != (#[trigger] e@[b]).0@ by {
                    assert(self.entries@[a].0@ != self.entries@[b].0@);
                }
            }
            assert forall|key: Seq<char>| map_of(e@).contains_key(key) implies map_of(self.entries@).contains_key(key) && map_of(e@)[key] == map_of(self.entries@)[key] by {
                let j = choose|j: int| 0 <= j < e@.len() && (#[trigger] e@[j]).0@ == key;
                lemma_map_of_at(e@, j);
                lemma_map_of_at(self.entries@, j);
            }
            assert forall|key: Seq<char>| map_of(self.entries@).contains_key(key) implies map_of(e@).contains_key(key) by {
                let j = choose|j: int| 0 <= j < self.entries@.len() && (#[trigger] self.entries@[j]).0@ == key;
                assert(e@[j].0@ == key);
            }
            assert(map_of(e@) =~= map_of(self.entries@));
        }
        StringMap { entries: e }
    }
}

proof fn lemma_update_keys(e0: Seq<(String, String)>, i: int, v: String, k: Seq<char>)
    requires
        distinct_keys(e0),
        0 <= i < e0.len(),
        e0[i].0@ == k,
    ensures
        distinct_keys(e0.update(i, (e0[i].0, v))),
        map_of(e0.update(i, (e0[i].0, v))) == map_of(e0).insert(k, v@),
{
    let e1 = e0.update(i, (e0[i].0, v));
    assert(distinct_keys(e1)) by {
        assert forall|a: int, b: int| 0 <= a < b < e1.len() implies (#[trigger] e1[a]).0@ != (#[trigger] e1[b]).0@ by {
            assert(e0[a].0@ != e0[b].0@);
        }
    }
    assert forall|key: Seq<char>| map_of(e1).contains_key(key) implies map_of(e1)[key] == map_of(e0).insert(k, v@)[key] by {
        let j = choose|j: int| 0 <= j < e1.len() && (#[trigger] e1[j]).0@ == key;
        lemma_map_of_at(e1, j);
        if j != i {
            lemma_map_of_at(e0, j);
        }
    }
    assert forall|key: Seq<char>| map_of(e0).insert(k, v@).contains_key(key) implies map_of(e1).contains_key(key) by {
        if key != k {
            let j = choose|j: int| 0 <= j < e0.len() && (#[trigger] e0[j]).0@ == key;
            assert(e1[j].0@ == key);
        } else {
            assert(e1[i].0@ == key);
        }
    }
    assert(map_of(e1) =~= map_of(e0).insert(k, v@));
}

proof fn lemma_push_keys(e0: Seq<(String, String)>, k: String, v: String)
    requires
        distinct_keys(e0),
        forall|i: int| 0 <= i < e0.len() ==> (#[trigger] e0[i]).0@ != k@,
    ensures
        distinct_keys(e0.push((k, v))),
        map_of(e0.push((k, v))) == map_of(e0).insert(k@, v@),
{
    let e1 = e0.push((k, v));
    let n = e0.len() as int;
    assert(distinct_keys(e1)) by {
        assert forall|a: int, b: int| 0 <= a < b < e1.len() implies (#[trigger] e1[a]).0@ != (#[trigger] e1[b]).0@ by {
            if b < n {
                assert(e0[a].0@ != e0[b].0@);
            } else {
                assert(e0[a].0@ != k@);
            }
        }
    }
    assert forall|key: Seq<char>| map_of(e1).contains_key(key) implies map_of(e1)[key] == map_of(e0).insert(k@, v@)[key] by {
        let j = choose|j: int| 0 <= j < e1.len() && (#[trigger] e1[j]).0@ == key;
        lemma_map_of_at(e1, j);
        if j != n {
            assert(e1[j] == e0[j]);
            lemma_map_of_at(e0, j);
        }
    }
    assert forall|key: Seq<char>| map_of(e0).insert(k@, v@).contains_key(key) implies map_of(e1).contains_key(key) by {
        if key != k@ {
            let j = choose|j: int| 0 <= j < e0.len() && (#[trigger] e0[j]).0@ == key;
            assert(e1[j].0@ == key);
        } else {
            assert(e1[n].0@ == key);
        }
    }
    assert(map_of(e1) =~= map_of(e0).insert(k@, v@));
}

} // verus!
