//! Separated fields of a text, and whitespace trimming.
use vstd::prelude::*;
use crate::text::{chars_of, string_of_chars, string_views};

verus! {

/// Whether `c` has the Unicode `White_Space` property: the controls
/// U+0009 to U+000D, the space, U+0085, U+00A0, U+1680, U+2000 to U+200A,
/// U+2028, U+2029, U+202F, U+205F and U+3000.
pub open spec fn whitespace(c: char) -> bool {
    let v = c as u32;
    ||| 0x09 <= v <= 0x0D
    ||| v == 0x20
    ||| v == 0x85
    ||| v == 0xA0
    ||| v == 0x1680
    ||| 0x2000 <= v <= 0x200A
    ||| v == 0x2028
    ||| v == 0x2029
    ||| v == 0x202F
    ||| v == 0x205F
    ||| v == 0x3000
}

/// Whether `c` is white space, as `char::is_whitespace` decides: the
/// Unicode `White_Space` set that `whitespace` lists.
pub fn char_is_whitespace(c: char) -> (r: bool)
    ensures
        r == whitespace(c),
{
    let v = c as u32;
    (0x09 <= v && v <= 0x0D) || v == 0x20 || v == 0x85 || v == 0xA0 || v == 0x1680 || (0x2000 <= v && v <= 0x200A)
        || v == 0x2028 || v == 0x2029 || v == 0x202F || v == 0x205F || v == 0x3000
}

/// `s` without its leading whitespace.
pub open spec fn trim_start_ws(s: Seq<char>) -> Seq<char>
    decreases s.len(),
{
    if s.len() > 0 && whitespace(s[0]) {
        trim_start_ws(s.drop_first())
    } else {
        s
    }
}

/// `s` without its trailing whitespace.
pub open spec fn trim_end_ws(s: Seq<char>) -> Seq<char>
    decreases s.len(),
{
    if s.len() > 0 && whitespace(s.last()) {
        trim_end_ws(s.drop_last())
    } else {
        s
    }
}

/// `s` without leading and trailing whitespace, as `str::trim` leaves it.
pub open spec fn trim_ws(s: Seq<char>) -> Seq<char> {
    trim_end_ws(trim_start_ws(s))
}

/// The fields of `s` between the separators `sep`, as `str::split` gives
/// them: one more field than there are separators, empty fields included.
pub open spec fn split_fields(s: Seq<char>, sep: char) -> Seq<Seq<char>>
    decreases s.len(),
{
    if s.len() == 0 {
        seq![Seq::empty()]
    } else {
        let r = split_fields(s.drop_last(), sep);
        if s.last() == sep {
            r.push(Seq::empty())
        } else {
            r.update(r.len() - 1, r.last().push(s.last()))
        }
    }
}

/// Each field of `s`, trimmed.
pub open spec fn trimmed_fields(s: Seq<char>, sep: char) -> Seq<Seq<char>> {
    split_fields(s, sep).map_values(|f: Seq<char>| trim_ws(f))
}

/// The number of occurrences of `c` in `s`.
pub open spec fn char_count(s: Seq<char>, c: char) -> nat
    decreases s.len(),
{
    if s.len() == 0 {
        0
    } else {
        char_count(s.drop_last(), c) + if s.last() == c { 1nat } else { 0nat }
    }
}

/// Splitting law: there is one more field than there are separators, so
/// never fewer than one.
pub proof fn law_one_more_field_than_separators(s: Seq<char>, sep: char)
    ensures
        split_fields(s, sep).len() == char_count(s, sep) + 1,
    decreases s.len(),
{
    if s.len() > 0 {
        law_one_more_field_than_separators(s.drop_last(), sep);
    }
}

/// The characters of `v` without leading and trailing whitespace.
pub fn trim_chars(v: &Vec<char>) -> (r: Vec<char>)
    ensures
        r@ == trim_ws(v@),
{
    let n = v.len();
    let mut i: usize = 0;
    assert(v@.skip(0) =~= v@);
    while i < n && char_is_whitespace(v[i])
        invariant
            n == v@.len(),
            i <= n,
            trim_start_ws(v@) == trim_start_ws(v@.skip(i as int)),
        decreases n - i,
    {
        assert(v@.skip(i as int).drop_first() =~= v@.skip(i + 1));
        i = i + 1;
    }
    proof {
        if i < n {
            assert(v@.skip(i as int)[0] == v@[i as int]);
        }
    }
    assert(trim_start_ws(v@) == v@.subrange(i as int, n as int)) by {
        assert(v@.skip(i as int) =~= v@.subrange(i as int, n as int));
    }
    let mut j: usize = n;
    while j > i && char_is_whitespace(v[j - 1])
        invariant
            n == v@.len(),
            i <= j <= n,
            trim_end_ws(v@.subrange(i as int, n as int)) == trim_end_ws(v@.subrange(i as int, j as int)),
        decreases j,
    {
        assert(v@.subrange(i as int, j as int).drop_last() =~= v@.subrange(i as int, j - 1));
        j = j - 1;
    }
    let mut r: Vec<char> = Vec::new();
    let mut k: usize = i;
    while k < j
        invariant
            i <= k <= j <= n,
            n == v@.len(),
            r@ == v@.subrange(i as int, k as int),
        decreases j - k,
    {
        r.push(v[k]);
        k = k + 1;
        assert(r@ =~= v@.subrange(i as int, k as int));
    }
    r
}

/// The fields of `list` between the separators `sep`, each trimmed of
/// whitespace, as `list.split(sep).map(str::trim)` gives them.
pub fn split_trimmed(list: &str, sep: char) -> (r: Vec<String>)
    ensures
        string_views(r@) == trimmed_fields(list@, sep),
{
    let cs = chars_of(list);
    let n = cs.len();
    let mut done: Vec<String> = Vec::new();
    let mut cur: Vec<char> = Vec::new();
    let ghost mut parts: Seq<Seq<char>> = Seq::empty();
    let mut i: usize = 0;
    assert(cs@.take(0) =~= Seq::<char>::empty());
    assert(split_fields(Seq::<char>::empty(), sep) =~= parts.push(cur@));
    while i < n
        invariant
            n == cs@.len(),
            cs@ == list@,
            i <= n,
            split_fields(cs@.take(i as int), sep) =~= parts.push(cur@),
            string_views(done@) =~= parts.map_values(|f: Seq<char>| trim_ws(f)),
        decreases n - i,
    {
        let c = cs[i];
        assert(cs@.take(i + 1).drop_last() =~= cs@.take(i as int));
        assert(cs@.take(i + 1).last() == c);
        if c == sep {
            let t = trim_chars(&cur);
            let ghost before = done@;
            done.push(string_of_chars(&t));
            proof {
                assert(string_views(done@) =~= string_views(before).push(trim_ws(cur@)));
                assert(parts.push(cur@).map_values(|f: Seq<char>| trim_ws(f))
                    =~= parts.map_values(|f: Seq<char>| trim_ws(f)).push(trim_ws(cur@)));
                parts = parts.push(cur@);
            }
            cur = Vec::new();
            assert(split_fields(cs@.take(i + 1), sep) =~= parts.push(cur@));
        } else {
            cur.push(c);
            assert(split_fields(cs@.take(i + 1), sep) =~= parts.push(cur@));
        }
        i = i + 1;
    }
    let t = trim_chars(&cur);
    let ghost before = done@;
    done.push(string_of_chars(&t));
    proof {
        assert(cs@.take(n as int) =~= list@);
        assert(string_views(done@) =~= string_views(before).push(trim_ws(cur@)));
        assert(parts.push(cur@).map_values(|f: Seq<char>| trim_ws(f))
            =~= parts.map_values(|f: Seq<char>| trim_ws(f)).push(trim_ws(cur@)));
        assert(string_views(done@) =~= parts.push(cur@).map_values(|f: Seq<char>| trim_ws(f)));
    }
    done
}

} // verus!
