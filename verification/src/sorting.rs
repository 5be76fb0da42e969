//! Stable insertion sort of keyed values.
use vstd::prelude::*;

verus! {

/// Position at which `k` is inserted into `s`: just after the last entry
/// whose key is at most `k`, which is the first entry with a greater key
/// when `s` is sorted.
pub open spec fn insert_position<T>(s: Seq<(u32, T)>, k: u32) -> int
    decreases s.len(),
{
    if s.len() == 0 {
        0
    } else if s[0].0 > k {
        0
    } else {
        1 + insert_position(s.drop_first(), k)
    }
}

/// `s` sorted by key, entries with equal keys keeping their order.
pub open spec fn stable_sorted<T>(s: Seq<(u32, T)>) -> Seq<(u32, T)>
    decreases s.len(),
{
    if s.len() == 0 {
        s
    } else {
        let r = stable_sorted(s.drop_last());
        r.insert(insert_position(r, s.last().0), s.last())
    }
}

/// Keys never decrease along `s`.
pub open spec fn keys_sorted<T>(s: Seq<(u32, T)>) -> bool {
    forall|i: int, j: int| 0 <= i <= j < s.len() ==> s[i].0 <= s[j].0
}

proof fn lemma_insert_position<T>(s: Seq<(u32, T)>, k: u32)
    ensures
        0 <= insert_position(s, k) <= s.len(),
        forall|i: int| 0 <= i < insert_position(s, k) ==> s[i].0 <= k,
        insert_position(s, k) < s.len() ==> s[insert_position(s, k)].0 > k,
    decreases s.len(),
{
    if s.len() > 0 && s[0].0 <= k {
        lemma_insert_position(s.drop_first(), k);
        assert forall|i: int| 0 <= i < insert_position(s, k) implies s[i].0 <= k by {
            if i > 0 {
                assert(s[i] == s.drop_first()[i - 1]);
            }
        }
    }
}

/// Sorting law: the stable sort orders the keys, keeps the length and holds
/// the same entries.
pub proof fn law_stable_sorted_is_sorted_permutation<T>(s: Seq<(u32, T)>)
    ensures
        keys_sorted(stable_sorted(s)),
        stable_sorted(s).len() == s.len(),
        stable_sorted(s).to_multiset() == s.to_multiset(),
    decreases s.len(),
{
    broadcast use vstd::seq_lib::group_to_multiset_ensures;
    if s.len() > 0 {
        let r = stable_sorted(s.drop_last());
        law_stable_sorted_is_sorted_permutation(s.drop_last());
        let k = s.last().0;
        lemma_insert_position(r, k);
        let p = insert_position(r, k);
        let t = r.insert(p, s.last());
        assert forall|i: int, j: int| 0 <= i <= j < t.len() implies t[i].0 <= t[j].0 by {
            if i < p && j < p {
            } else if i < p && j == p {
            } else if i < p {
                assert(t[j] == r[j - 1]);
            } else if i == p && j == p {
            } else if i == p {
                assert(t[j] == r[j - 1]);
                assert(r[p].0 > k);
                assert(r[p].0 <= r[j - 1].0);
            } else {
                assert(t[i] == r[i - 1]);
                assert(t[j] == r[j - 1]);
            }
        }
        assert(s =~= s.drop_last().push(s.last()));
        r.to_multiset_ensures();
        vstd::seq_lib::lemma_multiset_commutative(r.subrange(0, p), seq![s.last()] + r.subrange(p, r.len() as int));
        assert(t =~= r.subrange(0, p) + (seq![s.last()] + r.subrange(p, r.len() as int)));
        assert(r =~= r.subrange(0, p) + r.subrange(p, r.len() as int));
        vstd::seq_lib::lemma_multiset_commutative(r.subrange(0, p), r.subrange(p, r.len() as int));
        vstd::seq_lib::lemma_multiset_commutative(seq![s.last()], r.subrange(p, r.len() as int));
        vstd::seq_lib::lemma_multiset_commutative(s.drop_last(), seq![s.last()]);
    }
}

/// Stable sort by key.
pub fn sort_by_key_stable<T>(v: Vec<(u32, T)>) -> (r: Vec<(u32, T)>)
    ensures
        r@ == stable_sorted(v@),
{
    let ghost s0 = v@;
    let mut rest = v;
    let mut rev: Vec<(u32, T)> = Vec::new();
    while rest.len() > 0
        invariant
            rest@ == s0.take(rest@.len() as int),
            rest@.len() + rev@.len() == s0.len(),
            forall|k: int| 0 <= k < rev@.len() ==> #[trigger] rev@[k] == s0[s0.len() - 1 - k],
        decreases rest@.len(),
    {
        let ghost before = rest@;
        let x = rest.pop().unwrap();
        assert(before.subrange(0, before.len() - 1) =~= s0.take(rest@.len() as int));
        rev.push(x);
    }
    let n = rev.len();
    let mut out: Vec<(u32, T)> = Vec::new();
    let mut i: usize = 0;
    while rev.len() > 0
        invariant
            rev@.len() + i == s0.len() == n,
            forall|k: int| 0 <= k < rev@.len() ==> #[trigger] rev@[k] == s0[s0.len() - 1 - k],
            out@ == stable_sorted(s0.take(i as int)),
        decreases rev@.len(),
    {
        let x = rev.pop().unwrap();
        assert(x == s0[i as int]);
        assert(s0.take(i + 1).drop_last() =~= s0.take(i as int));
        let mut p: usize = 0;
        assert(out@.skip(0) =~= out@);
        while p < out.len() && out[p].0 <= x.0
            invariant
                p <= out@.len(),
                insert_position(out@, x.0) == p + insert_position(out@.skip(p as int), x.0),
            decreases out@.len() - p,
        {
            assert(out@.skip(p as int).drop_first() =~= out@.skip(p + 1));
            p = p + 1;
        }
        assert(insert_position(out@.skip(p as int), x.0) == 0);
        out.insert(p, x);
        i = i + 1;
    }
    assert(s0.take(n as int) =~= s0);
    out
}

} // verus!
