//! The partition leader table: (stream, partition) -> leader broker.
use vstd::prelude::*;
use crate::text::str_eq;

verus! {

/// No two entries share a (stream, partition) key.
pub open spec fn leader_keys_distinct(e: Seq<(String, u32, u32)>) -> bool {
    forall|i: int, j: int| 0 <= i < j < e.len() ==> !((#[trigger] e[i]).0@ == (#[trigger] e[j]).0@ && e[i].1 == e[j].1)
}

/// Entry `i` has key `k`.
pub open spec fn leader_key_at(e: Seq<(String, u32, u32)>, i: int, k: (Seq<char>, u32)) -> bool {
    0 <= i < e.len() && e[i].0@ == k.0 && e[i].1 == k.1
}

/// The map that a list of entries describes.
pub open spec fn leader_map(e: Seq<(String, u32, u32)>) -> Map<(Seq<char>, u32), u32> {
    Map::new(
        |k: (Seq<char>, u32)| exists|i: int| #[trigger] leader_key_at(e, i, k),
        |k: (Seq<char>, u32)| e[choose|i: int| #[trigger] leader_key_at(e, i, k)].2,
    )
}

proof fn lemma_leader_map_at(e: Seq<(String, u32, u32)>, i: int)
    requires
        leader_keys_distinct(e),
        0 <= i < e.len(),
    ensures
        leader_map(e).contains_key((e[i].0@, e[i].1)),
        leader_map(e)[(e[i].0@, e[i].1)] == e[i].2,
{
    let k = (e[i].0@, e[i].1);
    assert(leader_key_at(e, i, k));
    let c = choose|j: int| #[trigger] leader_key_at(e, j, k);
    if c < i {
        assert(e[c].0@ == e[i].0@ && e[c].1 == e[i].1);
    } else if c > i {
        assert(e[i].0@ == e[c].0@ && e[i].1 == e[c].1);
    }
}

proof fn lemma_leader_update(e0: Seq<(String, u32, u32)>, i: int, v: u32)
    requires
        leader_keys_distinct(e0),
        0 <= i < e0.len(),
    ensures
        leader_keys_distinct(e0.update(i, (e0[i].0, e0[i].1, v))),
        leader_map(e0.update(i, (e0[i].0, e0[i].1, v))) == leader_map(e0).insert((e0[i].0@, e0[i].1), v),
{
    let k = (e0[i].0@, e0[i].1);
    let e1 = e0.update(i, (e0[i].0, e0[i].1, v));
    assert forall|a: int, b: int| 0 <= a < b < e1.len() implies !((#[trigger] e1[a]).0@ == (#[trigger] e1[b]).0@ && e1[a].1 == e1[b].1) by {
        assert(!(e0[a].0@ == e0[b].0@ && e0[a].1 == e0[b].1));
    }
    assert forall|key: (Seq<char>, u32)| leader_map(e1).contains_key(key) implies leader_map(e1)[key] == leader_map(e0).insert(k, v)[key] by {
        let j = choose|j: int| #[trigger] leader_key_at(e1, j, key);
        lemma_leader_map_at(e1, j);
        if j != i {
            lemma_leader_map_at(e0, j);
        }
    }
    assert forall|key: (Seq<char>, u32)| leader_map(e1).contains_key(key) implies leader_map(e0).insert(k, v).contains_key(key) by {
        let j = choose|j: int| #[trigger] leader_key_at(e1, j, key);
        if j != i {
            assert(leader_key_at(e0, j, key));
        }
    }
    assert forall|key: (Seq<char>, u32)| leader_map(e0).insert(k, v).contains_key(key) implies leader_map(e1).contains_key(key) by {
        if key != k {
            let j = choose|j: int| #[trigger] leader_key_at(e0, j, key);
            assert(leader_key_at(e1, j, key));
        } else {
            assert(leader_key_at(e1, i, key));
        }
    }
    assert(leader_map(e1) =~= leader_map(e0).insert(k, v));
}

proof fn lemma_leader_push(e0: Seq<(String, u32, u32)>, s: String, p: u32, v: u32)
    requires
        leader_keys_distinct(e0),
        !leader_map(e0).contains_key((s@, p)),
    ensures
        leader_keys_distinct(e0.push((s, p, v))),
        leader_map(e0.push((s, p, v))) == leader_map(e0).insert((s@, p), v),
{
    let k = (s@, p);
    let e1 = e0.push((s, p, v));
    let n = e0.len() as int;
    assert forall|a: int, b: int| 0 <= a < b < e1.len() implies !((#[trigger] e1[a]).0@ == (#[trigger] e1[b]).0@ && e1[a].1 == e1[b].1) by {
        if b < n {
            assert(!(e0[a].0@ == e0[b].0@ && e0[a].1 == e0[b].1));
        } else if e0[a].0@ == s@ && e0[a].1 == p {
            assert(leader_key_at(e0, a, k));
        }
    }
    assert forall|key: (Seq<char>, u32)| leader_map(e1).contains_key(key) implies leader_map(e1)[key] == leader_map(e0).insert(k, v)[key] by {
        let j = choose|j: int| #[trigger] leader_key_at(e1, j, key);
        lemma_leader_map_at(e1, j);
        if j != n {
            assert(e1[j] == e0[j]);
            lemma_leader_map_at(e0, j);
        }
    }
    assert forall|key: (Seq<char>, u32)| leader_map(e1).contains_key(key) implies leader_map(e0).insert(k, v).contains_key(key) by {
        let j = choose|j: int| #[trigger] leader_key_at(e1, j, key);
        if j != n {
            assert(leader_key_at(e0, j, key));
        }
    }
    assert forall|key: (Seq<char>, u32)| leader_map(e0).insert(k, v).contains_key(key) implies leader_map(e1).contains_key(key) by {
        if key != k {
            let j = choose|j: int| #[trigger] leader_key_at(e0, j, key);
            assert(leader_key_at(e1, j, key));
        } else {
            assert(leader_key_at(e1, n, key));
        }
    }
    assert(leader_map(e1) =~= leader_map(e0).insert(k, v));
}

/// Partition leaders, keyed by (stream, partition).
pub struct LeaderTable {
    entries: Vec<(String, u32, u32)>,
}

impl LeaderTable {
    #[verifier::type_invariant]
    closed spec fn distinct(&self) -> bool {
        leader_keys_distinct(self.entries@)
    }

    /// The leader of each (stream, partition).
    pub closed spec fn view(&self) -> Map<(Seq<char>, u32), u32> {
        leader_map(self.entries@)
    }

    /// An empty table.
    pub fn new() -> (r: Self)
        ensures
            r.view() == Map::<(Seq<char>, u32), u32>::empty(),
    {
        let r = LeaderTable { entries: Vec::new() };
        assert(r.view() =~= Map::<(Seq<char>, u32), u32>::empty());
        r
    }

    fn position(e: &Vec<(String, u32, u32)>, stream: &str, partition: u32) -> (r: Option<usize>)
        ensures
            r matches Some(i) ==> i < e@.len() && e@[i as int].0@ == stream@ && e@[i as int].1 == partition,
            r is None ==> forall|i: int| !(#[trigger] leader_key_at(e@, i, (stream@, partition))),
    {
        let mut i: usize = 0;
        while i < e.len()
            invariant
                i <= e@.len(),
                forall|j: int| 0 <= j < i ==> !(#[trigger] leader_key_at(e@, j, (stream@, partition))),
            decreases e@.len() - i,
        {
            if e[i].1 == partition && str_eq(e[i].0.as_str(), stream) {
                return Some(i);
            }
            i = i + 1;
        }
        None
    }

    /// The leader of `partition` of `stream`.
    pub fn get(&self, stream: &str, partition: u32) -> (r: Option<u32>)
        ensures
            r == self.view().get((stream@, partition)),
    {
        proof { use_type_invariant(self); }
        match Self::position(&self.entries, stream, partition) {
            Some(i) => {
                proof { lemma_leader_map_at(self.entries@, i as int); }
                Some(self.entries[i].2)
            },
            None => None,
        }
    }

    /// Set the leader of `partition` of `stream`.
    pub fn set(&mut self, stream: String, partition: u32, leader: u32)
        ensures
            final(self).view() == old(self).view().insert((stream@, partition), leader),
    {
        proof { use_type_invariant(&*self); }
        let ghost e0 = self.entries@;
        let mut e: Vec<(String, u32, u32)> = Vec::new();
        std::mem::swap(&mut e, &mut self.entries);
        match Self::position(&e, stream.as_str(), partition) {
            Some(i) => {
                proof { lemma_leader_update(e0, i as int, leader); }
                let (s, p, _) = e.remove(i);
                e.insert(i, (s, p, leader));
                assert(e@ =~= e0.update(i as int, (e0[i as int].0, e0[i as int].1, leader)));
            },
            None => {
                proof { lemma_leader_push(e0, stream, partition, leader); }
                e.push((stream, partition, leader));
            },
        }
        self.entries = e;
    }
}

} // verus!
