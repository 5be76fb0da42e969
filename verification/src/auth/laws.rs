//! Properties of logging in, checking tokens and disabling accounts.
use vstd::prelude::*;
use crate::text::{decimal, digit_char, signed_decimal};
use super::{
    colon_count, first_colon, hex_digit, hex_of, main_role, password_hash, token_text, user_pos, AuthToken,
    Authorization, User,
};

verus! {

proof fn lemma_colon_free(s: Seq<char>)
    requires
        forall|i: int| 0 <= i < s.len() ==> s[i] != ':',
    ensures
        colon_count(s) == 0,
        first_colon(s) == s.len(),
    decreases s.len(),
{
    if s.len() > 0 {
        lemma_colon_free(s.drop_last());
    }
}

proof fn lemma_colon_append(a: Seq<char>, b: Seq<char>)
    ensures
        colon_count(a + b) == colon_count(a) + colon_count(b),
        first_colon(a + b) == if first_colon(a) < a.len() { first_colon(a) } else { a.len() + first_colon(b) },
    decreases b.len(),
{
    if b.len() == 0 {
        assert(a + b =~= a);
        lemma_first_colon_le(a);
    } else {
        lemma_colon_append(a, b.drop_last());
        assert((a + b).drop_last() =~= a + b.drop_last());
        lemma_first_colon_le(a);
        lemma_first_colon_le(b.drop_last());
    }
}

proof fn lemma_first_colon_le(s: Seq<char>)
    ensures
        0 <= first_colon(s) <= s.len(),
        first_colon(s) < s.len() ==> s[first_colon(s)] == ':',
    decreases s.len(),
{
    if s.len() > 0 {
        lemma_first_colon_le(s.drop_last());
    }
}

proof fn lemma_decimal_colon_free(n: nat)
    ensures
        forall|i: int| 0 <= i < decimal(n).len() ==> decimal(n)[i] != ':',
    decreases n,
{
    if n >= 10 {
        lemma_decimal_colon_free(n / 10);
        let d = decimal(n);
        assert forall|i: int| 0 <= i < d.len() implies d[i] != ':' by {
            if i < d.len() - 1 {
                assert(d[i] == decimal(n / 10)[i]);
            }
        }
    }
}

proof fn lemma_hex_colon_free(b: Seq<u8>)
    ensures
        forall|i: int| 0 <= i < hex_of(b).len() ==> hex_of(b)[i] != ':',
    decreases b.len(),
{
    if b.len() > 0 {
        lemma_hex_colon_free(b.drop_last());
        let h = hex_of(b);
        let h0 = hex_of(b.drop_last());
        assert forall|i: int| 0 <= i < h.len() implies h[i] != ':' by {
            if i < h0.len() {
                assert(h[i] == h0[i]);
            }
        }
    }
}

proof fn lemma_token_shape(username: Seq<char>, now: i64, secret: Seq<char>)
    requires
        forall|i: int| 0 <= i < username.len() ==> username[i] != ':',
        password_hash(username + signed_decimal(now as int) + secret + "secret"@).len() == 64,
    ensures
        colon_count(token_text(username, now, secret)) == 2,
        token_text(username, now, secret).take(first_colon(token_text(username, now, secret))) == username,
{
    let ts = signed_decimal(now as int);
    let hash = password_hash(username + ts + secret + "secret"@);
    let tail = hash.take(32);
    reveal_strlit(":");
    let colon = ":"@;
    assert(colon =~= seq![':']);
    assert(colon.drop_last() =~= Seq::<char>::empty());
    assert(colon_count(Seq::<char>::empty()) == 0);
    assert(colon_count(colon) == 1);
    lemma_colon_free(username);
    if now < 0 {
        lemma_decimal_colon_free((-(now as int)) as nat);
        assert forall|i: int| 0 <= i < ts.len() implies ts[i] != ':' by {
            if i > 0 {
                assert(ts[i] == decimal((-(now as int)) as nat)[i - 1]);
            }
        }
    } else {
        lemma_decimal_colon_free(now as nat);
    }
    lemma_colon_free(ts);
    lemma_hex_colon_free(super::sha256_digest(vstd::utf8::encode_utf8(username + ts + secret + "secret"@)));
    assert forall|i: int| 0 <= i < tail.len() implies tail[i] != ':' by {
        assert(tail[i] == hash[i]);
    }
    lemma_colon_free(tail);
    lemma_first_colon_le(colon);
    let p1 = username + colon;
    lemma_colon_append(username, colon);
    let p2 = p1 + ts;
    lemma_colon_append(p1, ts);
    let p3 = p2 + colon;
    lemma_colon_append(p2, colon);
    let p4 = p3 + tail;
    lemma_colon_append(p3, tail);
    assert(p4 =~= token_text(username, now, secret));
    assert(p4.take(username.len() as int) =~= username);
}

proof fn lemma_same_names_same_pos(a: Seq<User>, b: Seq<User>, name: Seq<char>)
    requires
        a.len() == b.len(),
        forall|j: int| 0 <= j < a.len() ==> (#[trigger] a[j]).username@ == b[j].username@,
    ensures
        user_pos(a, name) == user_pos(b, name),
{
    if user_pos(a, name) is Some {
        let i = user_pos(a, name)->0;
        assert(b[i].username@ == name);
        assert forall|j: int| 0 <= j < i implies (#[trigger] b[j]).username@ != name by {
            assert(a[j].username@ == b[j].username@);
        }
        let c = choose|c: int| 0 <= c < b.len() && (#[trigger] b[c]).username@ == name
            && forall|j: int| 0 <= j < c ==> (#[trigger] b[j]).username@ != name;
        if c < i {
            assert(a[c].username@ == b[c].username@);
        } else if c > i {
            assert(b[i].username@ != name);
        }
    } else if user_pos(b, name) is Some {
        let i = user_pos(b, name)->0;
        assert(a[i].username@ == name);
        assert forall|j: int| 0 <= j < i implies (#[trigger] a[j]).username@ != name by {
            assert(a[j].username@ == b[j].username@);
        }
    }
}

/// A token issued by a successful login checks, for the account that
/// logged in and in its main role, as long as the user name holds no colon.
pub proof fn law_login_token_validates(
    before: Authorization,
    after: Authorization,
    username: Seq<char>,
    password: Seq<char>,
    now: i64,
    t: AuthToken,
)
    requires
        Authorization::authenticated(before, after, username, password, now, Ok(t)),
        forall|i: int| 0 <= i < username.len() ==> username[i] != ':',
    ensures
        Authorization::token_check(after.users@, t.token@)
            == Ok::<(Seq<char>, Seq<char>), Seq<char>>((username, main_role(before.users@[user_pos(before.users@, username)->0]@))),
{
    let i = user_pos(before.users@, username)->0;
    let u = before.users@[i]@;
    lemma_token_shape(username, now, before.jwt_secret@);
    assert forall|j: int| 0 <= j < before.users@.len() implies (#[trigger] before.users@[j]).username@ == after.users@[j].username@ by {
        if j != i {
            assert(after.users@[j] == before.users@[j]);
        } else {
            assert(after.users@[i]@.username == u.username);
        }
    }
    lemma_same_names_same_pos(before.users@, after.users@, username);
    let tok = token_text(username, now, before.jwt_secret@);
    assert(after.users@[i]@.active_tokens.last() == tok);
    assert(after.users@[i]@.active_tokens.contains(tok));
}

/// Once an account is disabled, no token naming it checks.
pub proof fn law_disabled_account_tokens_fail(before: Authorization, after: Authorization, username: Seq<char>, token: Seq<char>)
    requires
        user_pos(before.users@, username) is Some,
        after.users@.len() == before.users@.len(),
        forall|j: int| 0 <= j < before.users@.len() && j != user_pos(before.users@, username)->0 ==> #[trigger] after.users@[j] == before.users@[j],
        after.users@[user_pos(before.users@, username)->0]@ == (super::UserView {
            enabled: false,
            active_tokens: Seq::empty(),
            ..before.users@[user_pos(before.users@, username)->0]@
        }),
        colon_count(token) == 2,
        token.take(first_colon(token)) == username,
    ensures
        Authorization::token_check(after.users@, token) is Err,
{
    let i = user_pos(before.users@, username)->0;
    assert forall|j: int| 0 <= j < before.users@.len() implies (#[trigger] before.users@[j]).username@ == after.users@[j].username@ by {
        if j != i {
            assert(after.users@[j] == before.users@[j]);
        }
    }
    lemma_same_names_same_pos(before.users@, after.users@, username);
}

} // verus!
