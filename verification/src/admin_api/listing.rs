//! The order in which stored tenants are listed: newest first, by the text
//! of their creation time.
use vstd::prelude::*;
use crate::text::chars_of;
use super::store::TenantData;

verus! {

/// Whether text `a` comes strictly before text `b` in lexicographic order
/// of characters (a proper prefix comes first).
pub open spec fn text_before(a: Seq<char>, b: Seq<char>) -> bool
    decreases a.len(),
{
    if a.len() == 0 {
        b.len() > 0
    } else if b.len() == 0 {
        false
    } else if a[0] != b[0] {
        (a[0] as u32) < (b[0] as u32)
    } else {
        text_before(a.drop_first(), b.drop_first())
    }
}

/// The order is transitive.
pub proof fn lemma_text_before_transitive(a: Seq<char>, b: Seq<char>, c: Seq<char>)
    requires
        text_before(a, b),
        text_before(b, c),
    ensures
        text_before(a, c),
    decreases a.len(),
{
    if a.len() > 0 && b.len() > 0 && c.len() > 0 && a[0] == b[0] && b[0] == c[0] {
        lemma_text_before_transitive(a.drop_first(), b.drop_first(), c.drop_first());
    }
}

/// No text comes before itself.
pub proof fn lemma_text_before_irreflexive(a: Seq<char>)
    ensures
        !text_before(a, a),
    decreases a.len(),
{
    if a.len() > 0 {
        lemma_text_before_irreflexive(a.drop_first());
    }
}

/// Whether `a` comes before `b`, by their characters.
pub fn chars_before(a: &Vec<char>, b: &Vec<char>) -> (r: bool)
    ensures
        r == text_before(a@, b@),
{
    let mut i: usize = 0;
    assert(a@.skip(0) =~= a@);
    assert(b@.skip(0) =~= b@);
    while i < a.len() && i < b.len()
        invariant
            i <= a@.len(),
            i <= b@.len(),
            text_before(a@, b@) == text_before(a@.skip(i as int), b@.skip(i as int)),
        decreases a@.len() - i,
    {
        if a[i] != b[i] {
            return (a[i] as u32) < (b[i] as u32);
        }
        assert(a@.skip(i as int).drop_first() =~= a@.skip(i + 1));
        assert(b@.skip(i as int).drop_first() =~= b@.skip(i + 1));
        i = i + 1;
    }
    i < b.len()
}

/// The position at which a tenant created at `k` joins a list kept newest
/// first: after every entry not older than it.
pub open spec fn newest_position(s: Seq<TenantData>, k: Seq<char>) -> int
    decreases s.len(),
{
    if s.len() == 0 {
        0
    } else if text_before(s[0].created_at@, k) {
        0
    } else {
        1 + newest_position(s.drop_first(), k)
    }
}

/// The tenants newest first, by creation time; tenants created at the same
/// time keep their order.
pub open spec fn newest_first(s: Seq<TenantData>) -> Seq<TenantData>
    decreases s.len(),
{
    if s.len() == 0 {
        s
    } else {
        let r = newest_first(s.drop_last());
        r.insert(newest_position(r, s.last().created_at@), s.last())
    }
}

/// No entry of `s` is older than a later one.
pub open spec fn is_newest_first(s: Seq<TenantData>) -> bool {
    forall|i: int, j: int| 0 <= i <= j < s.len() ==> !text_before(#[trigger] s[i].created_at@, #[trigger] s[j].created_at@)
}

proof fn lemma_newest_position(s: Seq<TenantData>, k: Seq<char>)
    ensures
        0 <= newest_position(s, k) <= s.len(),
        forall|i: int| 0 <= i < newest_position(s, k) ==> !text_before(#[trigger] s[i].created_at@, k),
        newest_position(s, k) < s.len() ==> text_before(s[newest_position(s, k)].created_at@, k),
    decreases s.len(),
{
    if s.len() > 0 && !text_before(s[0].created_at@, k) {
        lemma_newest_position(s.drop_first(), k);
        assert forall|i: int| 0 <= i < newest_position(s, k) implies !text_before(#[trigger] s[i].created_at@, k) by {
            if i > 0 {
                assert(s[i] == s.drop_first()[i - 1]);
            }
        }
    }
}

/// Listing law: the listing holds the same tenants, newest first.
pub proof fn law_newest_first_is_ordered_permutation(s: Seq<TenantData>)
    ensures
        is_newest_first(newest_first(s)),
        newest_first(s).len() == s.len(),
        newest_first(s).to_multiset() == s.to_multiset(),
    decreases s.len(),
{
    broadcast use vstd::seq_lib::group_to_multiset_ensures;
    if s.len() > 0 {
        let r = newest_first(s.drop_last());
        law_newest_first_is_ordered_permutation(s.drop_last());
        let x = s.last();
        let k = x.created_at@;
        lemma_newest_position(r, k);
        let p = newest_position(r, k);
        let t = r.insert(p, x);
        assert forall|i: int, j: int| 0 <= i <= j < t.len() implies !text_before(#[trigger] t[i].created_at@, #[trigger] t[j].created_at@) by {
            if i < p && j < p {
            } else if i < p && j == p {
            } else if i < p {
                assert(t[j] == r[j - 1]);
            } else if i == p && j == p {
                lemma_text_before_irreflexive(k);
            } else if i == p {
                assert(t[j] == r[j - 1]);
                assert(text_before(r[p].created_at@, k));
                assert(!text_before(r[p].created_at@, r[j - 1].created_at@));
                if text_before(k, r[j - 1].created_at@) {
                    lemma_text_before_transitive(r[p].created_at@, k, r[j - 1].created_at@);
                }
            } else {
                assert(t[i] == r[i - 1]);
                assert(t[j] == r[j - 1]);
            }
        }
        assert(s =~= s.drop_last().push(x));
        r.to_multiset_ensures();
        vstd::seq_lib::lemma_multiset_commutative(r.subrange(0, p), seq![x] + r.subrange(p, r.len() as int));
        assert(t =~= r.subrange(0, p) + (seq![x] + r.subrange(p, r.len() as int)));
        assert(r =~= r.subrange(0, p) + r.subrange(p, r.len() as int));
        vstd::seq_lib::lemma_multiset_commutative(r.subrange(0, p), r.subrange(p, r.len() as int));
        vstd::seq_lib::lemma_multiset_commutative(seq![x], r.subrange(p, r.len() as int));
        vstd::seq_lib::lemma_multiset_commutative(s.drop_last(), seq![x]);
    }
}

/// Order tenants newest first by creation time, as `newest_first` says (a
/// stable sort).
pub fn sort_newest_first(v: Vec<TenantData>) -> (r: Vec<TenantData>)
    ensures
        r@ == newest_first(v@),
{
    let ghost s0 = v@;
    let mut rest = v;
    let mut rev: Vec<TenantData> = Vec::new();
    while rest.len() > 0
        invariant
            rest@ == s0.take(rest@.len() as int),
            rest@.len() + rev@.len() == s0.len(),
            forall|k: int| 0 <= k < rev@.len() ==> #[trigger] rev@[k] == s0[s0.len() - 1 - k],
        decreases rest@.len(),
    {
        let ghost before = rest@;
        let x = rest.pop().unwrap();
        assert(before.subrange(0, before.len() - 1) =~= s0.take(rest@.len() as int));
        rev.push(x);
    }
    let n = rev.len();
    let mut out: Vec<TenantData> = Vec::new();
    let mut i: usize = 0;
    while rev.len() > 0
        invariant
            rev@.len() + i == s0.len() == n,
            forall|k: int| 0 <= k < rev@.len() ==> #[trigger] rev@[k] == s0[s0.len() - 1 - k],
            out@ == newest_first(s0.take(i as int)),
        decreases rev@.len(),
    {
        let x = rev.pop().unwrap();
        assert(x == s0[i as int]);
        assert(s0.take(i + 1).drop_last() =~= s0.take(i as int));
        let key = chars_of(x.created_at.as_str());
        let mut p: usize = 0;
        assert(out@.skip(0) =~= out@);
        while p < out.len()
            invariant
                p <= out@.len(),
                key@ == x.created_at@,
                newest_position(out@, x.created_at@) == p + newest_position(out@.skip(p as int), x.created_at@),
            ensures
                p <= out@.len(),
                newest_position(out@, x.created_at@) == p + newest_position(out@.skip(p as int), x.created_at@),
                p < out@.len() ==> text_before(out@[p as int].created_at@, x.created_at@),
            decreases out@.len() - p,
        {
            let other = chars_of(out[p].created_at.as_str());
            if chars_before(&other, &key) {
                break;
            }
            assert(out@.skip(p as int).drop_first() =~= out@.skip(p + 1));
            p = p + 1;
        }
        assert(newest_position(out@.skip(p as int), x.created_at@) == 0) by {
            if p < out@.len() {
                assert(out@.skip(p as int)[0] == out@[p as int]);
            }
        }
        out.insert(p, x);
        i = i + 1;
    }
    assert(s0.take(n as int) =~= s0);
    out
}

} // verus!
