//! Token-based authentication: users, password hashes and session tokens.
pub mod handlers;
pub mod laws;
pub mod middleware;

pub use handlers::{AuthHandlers, AuthReply};
pub use middleware::{extract_token, validate_token_helper, AuthMiddleware};

use vstd::prelude::*;
use sha2::Digest;
use crate::clock;
use crate::text::{bytes_of, concat, i64_to_string, owned, push_str, signed_decimal, str_eq, string_of_chars, string_views};

verus! {

/// The SHA-256 digest of `data`.
pub uninterp spec fn sha256_digest(data: Seq<u8>) -> Seq<u8>;

/// SHA-256 of `data`, by `sha2::Sha256::digest`; the digest is 32 bytes
/// long. What the bytes are is left to the name `sha256_digest`.
#[verifier::external_body]
pub(crate) fn sha256(data: &[u8]) -> (r: Vec<u8>)
    ensures
        r@ == sha256_digest(data@),
        r@.len() == 32,
{
    sha2::Sha256::digest(data).to_vec()
}

/// The lowercase hexadecimal digit of a number below sixteen.
pub open spec fn hex_digit(d: nat) -> char {
    if d == 0 { '0' } else if d == 1 { '1' } else if d == 2 { '2' } else if d == 3 { '3' }
    else if d == 4 { '4' } else if d == 5 { '5' } else if d == 6 { '6' } else if d == 7 { '7' }
    else if d == 8 { '8' } else if d == 9 { '9' } else if d == 10 { 'a' } else if d == 11 { 'b' }
    else if d == 12 { 'c' } else if d == 13 { 'd' } else if d == 14 { 'e' } else { 'f' }
}

/// The lowercase hexadecimal text of a byte string, two digits per byte.
pub open spec fn hex_of(bytes: Seq<u8>) -> Seq<char>
    decreases bytes.len(),
{
    if bytes.len() == 0 {
        Seq::empty()
    } else {
        hex_of(bytes.drop_last()).push(hex_digit(bytes.last() as nat / 16)).push(hex_digit(bytes.last() as nat % 16))
    }
}

pub proof fn lemma_hex_len(bytes: Seq<u8>)
    ensures
        hex_of(bytes).len() == 2 * bytes.len(),
    decreases bytes.len(),
{
    if bytes.len() > 0 {
        lemma_hex_len(bytes.drop_last());
    }
}

fn hex_char(d: u8) -> (c: char)
    requires
        d < 16,
    ensures
        c == hex_digit(d as nat),
{
    if d == 0 { '0' } else if d == 1 { '1' } else if d == 2 { '2' } else if d == 3 { '3' }
    else if d == 4 { '4' } else if d == 5 { '5' } else if d == 6 { '6' } else if d == 7 { '7' }
    else if d == 8 { '8' } else if d == 9 { '9' } else if d == 10 { 'a' } else if d == 11 { 'b' }
    else if d == 12 { 'c' } else if d == 13 { 'd' } else if d == 14 { 'e' } else { 'f' }
}

/// The lowercase hexadecimal characters of `bytes`.
pub fn hex_chars(bytes: &Vec<u8>) -> (r: Vec<char>)
    ensures
        r@ == hex_of(bytes@),
{
    let mut r: Vec<char> = Vec::new();
    let mut i: usize = 0;
    while i < bytes.len()
        invariant
            i <= bytes@.len(),
            r@ == hex_of(bytes@.take(i as int)),
        decreases bytes@.len() - i,
    {
        assert(bytes@.take(i + 1).drop_last() =~= bytes@.take(i as int));
        let b = bytes[i];
        r.push(hex_char(b / 16));
        r.push(hex_char(b % 16));
        i = i + 1;
    }
    assert(bytes@.take(bytes@.len() as int) =~= bytes@);
    r
}

/// The stored form of a password: the lowercase hex of the SHA-256 of its
/// UTF-8 bytes.
pub open spec fn password_hash(password: Seq<char>) -> Seq<char> {
    hex_of(sha256_digest(vstd::utf8::encode_utf8(password)))
}

/// The token issued to `username` at time `now` (seconds): user, time, and
/// the first 32 hex digits of the hash of user, time, secret and "secret",
/// separated by colons.
pub open spec fn token_text(username: Seq<char>, now: i64, secret: Seq<char>) -> Seq<char> {
    let ts = signed_decimal(now as int);
    username + ":"@ + ts + ":"@ + password_hash(username + ts + secret + "secret"@).take(32)
}

/// The number of colons in `s`.
pub open spec fn colon_count(s: Seq<char>) -> nat
    decreases s.len(),
{
    if s.len() == 0 { 0 } else { colon_count(s.drop_last()) + if s.last() == ':' { 1nat } else { 0nat } }
}

/// The position of the first colon of `s` (its length when there is none).
pub open spec fn first_colon(s: Seq<char>) -> int
    decreases s.len(),
{
    if s.len() == 0 {
        0
    } else if first_colon(s.drop_last()) < s.len() - 1 {
        first_colon(s.drop_last())
    } else if s.last() == ':' {
        s.len() - 1
    } else {
        s.len() as int
    }
}

proof fn lemma_first_colon_bound(s: Seq<char>)
    ensures
        0 <= first_colon(s) <= s.len(),
    decreases s.len(),
{
    if s.len() > 0 {
        lemma_first_colon_bound(s.drop_last());
    }
}

/// A user account (times in seconds since the epoch).
#[derive(Debug)]
pub struct User {
    pub username: String,
    pub email: String,
    pub password_hash: String,
    pub roles: Vec<String>,
    pub enabled: bool,
    pub created_at: i64,
    pub last_login: Option<i64>,
    pub active_tokens: Vec<String>,
}

/// Abstract value of a user account.
pub struct UserView {
    pub username: Seq<char>,
    pub email: Seq<char>,
    pub password_hash: Seq<char>,
    pub roles: Seq<Seq<char>>,
    pub enabled: bool,
    pub created_at: i64,
    pub last_login: Option<i64>,
    pub active_tokens: Seq<Seq<char>>,
}

impl View for User {
    type V = UserView;

    open spec fn view(&self) -> UserView {
        UserView {
            username: self.username@,
            email: self.email@,
            password_hash: self.password_hash@,
            roles: string_views(self.roles@),
            enabled: self.enabled,
            created_at: self.created_at,
            last_login: self.last_login,
            active_tokens: string_views(self.active_tokens@),
        }
    }
}

/// A copy of a list of strings.
pub fn clone_strings(v: &Vec<String>) -> (r: Vec<String>)
    ensures
        string_views(r@) == string_views(v@),
{
    let mut r: Vec<String> = Vec::new();
    let mut i: usize = 0;
    while i < v.len()
        invariant
            i <= v@.len(),
            r@.len() == i,
            forall|j: int| 0 <= j < i ==> (#[trigger] r@[j])@ == v@[j]@,
        decreases v@.len() - i,
    {
        r.push(v[i].clone());
        i = i + 1;
    }
    assert(string_views(r@) =~= string_views(v@));
    r
}

impl Clone for User {
    fn clone(&self) -> (r: Self)
        ensures
            r@ == self@,
    {
        User {
            username: self.username.clone(),
            email: self.email.clone(),
            password_hash: self.password_hash.clone(),
            roles: clone_strings(&self.roles),
            enabled: self.enabled,
            created_at: self.created_at,
            last_login: self.last_login,
            active_tokens: clone_strings(&self.active_tokens),
        }
    }
}

/// An issued session token (times in seconds since the epoch).
#[derive(Debug, Clone)]
pub struct AuthToken {
    pub token: String,
    pub user: String,
    pub role: String,
    pub expires_at: i64,
    pub created_at: i64,
}

/// A login request.
#[derive(Debug, Clone)]
pub struct LoginRequest {
    pub username: String,
    pub password: String,
}

/// A login response.
#[derive(Debug, Clone)]
pub struct LoginResponse {
    pub success: bool,
    pub token: Option<String>,
    pub user: Option<String>,
    pub expires_in_seconds: i64,
    pub error: Option<String>,
}

/// A request to create a user.
#[derive(Debug, Clone)]
pub struct CreateUserRequest {
    pub username: String,
    pub email: String,
    pub password: String,
    pub roles: Vec<String>,
}

/// What is shown of a user (no password hash, no tokens).
#[derive(Debug)]
pub struct UserInfo {
    pub username: String,
    pub email: String,
    pub roles: Vec<String>,
    pub enabled: bool,
    pub created_at: i64,
    pub last_login: Option<i64>,
}

/// The information shown of a user account.
pub open spec fn shows(i: UserInfo, u: UserView) -> bool {
    i.username@ == u.username && i.email@ == u.email && string_views(i.roles@) == u.roles && i.enabled == u.enabled
        && i.created_at == u.created_at && i.last_login == u.last_login
}

/// The authentication configuration.
#[derive(Debug, Clone)]
pub struct AuthConfig {
    pub users: Vec<User>,
    pub token_expiry_hours: u32,
    pub jwt_secret: String,
}

/// The latest second chrono's `DateTime<Utc>` can hold.
pub const MAX_UTC_SECONDS: i64 = 8210298412799;

/// The position of the first user called `name`.
pub open spec fn user_pos(users: Seq<User>, name: Seq<char>) -> Option<int> {
    if exists|i: int| 0 <= i < users.len() && (#[trigger] users[i]).username@ == name
        && forall|j: int| 0 <= j < i ==> (#[trigger] users[j]).username@ != name {
        Some(choose|i: int| 0 <= i < users.len() && (#[trigger] users[i]).username@ == name
            && forall|j: int| 0 <= j < i ==> (#[trigger] users[j]).username@ != name)
    } else {
        None
    }
}

/// The role a user acts in: its first role, "viewer" when it has none.
pub open spec fn main_role(u: UserView) -> Seq<char> {
    if u.roles.len() == 0 { "viewer"@ } else { u.roles[0] }
}

/// The roles of a new account: those asked for, "viewer" when none.
pub open spec fn new_roles(roles: Seq<Seq<char>>) -> Seq<Seq<char>> {
    if roles.len() == 0 { seq!["viewer"@] } else { roles }
}

/// Token-based authorization over a list of user accounts.
pub struct Authorization {
    pub users: Vec<User>,
    pub token_expiry_hours: u32,
    pub jwt_secret: String,
}

impl Authorization {
    /// The accounts of a configuration.
    pub fn new(config: AuthConfig) -> (r: Self)
        ensures
            r.users@ == config.users@,
            r.token_expiry_hours == config.token_expiry_hours,
            r.jwt_secret@ == config.jwt_secret@,
    {
        Authorization { users: config.users, token_expiry_hours: config.token_expiry_hours, jwt_secret: config.jwt_secret }
    }

    /// The stored form of a password.
    pub fn hash_password(password: &str) -> (r: String)
        ensures
            r@ == password_hash(password@),
            r@.len() == 64,
    {
        let bytes = bytes_of(password);
        let digest = sha256(bytes.as_slice());
        proof { lemma_hex_len(digest@); }
        let hex = hex_chars(&digest);
        string_of_chars(&hex)
    }

    /// Whether `password` hashes to `hash`.
    pub fn verify_password(password: &str, hash: &str) -> (r: bool)
        ensures
            r == (password_hash(password@) == hash@),
    {
        let h = Self::hash_password(password);
        str_eq(h.as_str(), hash)
    }

    /// The position of the first user called `username`.
    pub fn find_user_index(&self, username: &str) -> (r: Option<usize>)
        ensures
            r matches Some(i) ==> user_pos(self.users@, username@) == Some(i as int),
            r is None ==> user_pos(self.users@, username@) is None,
    {
        let mut i: usize = 0;
        while i < self.users.len()
            invariant
                i <= self.users@.len(),
                forall|j: int| 0 <= j < i ==> (#[trigger] self.users@[j]).username@ != username@,
            decreases self.users@.len() - i,
        {
            if str_eq(self.users[i].username.as_str(), username) {
                proof {
                    let us = self.users@;
                    let c = choose|c: int| 0 <= c < us.len() && (#[trigger] us[c]).username@ == username@
                        && forall|j: int| 0 <= j < c ==> (#[trigger] us[j]).username@ != username@;
                    if c < i {
                    } else if c > i {
                        assert(us[i as int].username@ != username@);
                    }
                }
                return Some(i);
            }
            i = i + 1;
        }
        None
    }

    /// The first user called `username`.
    pub fn find_user(&self, username: &str) -> (r: Option<&User>)
        ensures
            match user_pos(self.users@, username@) {
                Some(i) => r == Some(&self.users@[i]),
                None => r is None,
            },
    {
        match self.find_user_index(username) {
            Some(i) => Some(&self.users[i]),
            None => None,
        }
    }

    /// Log `username` in with `password` now; see `authenticate_at`. An
    /// expiry beyond what a UTC time can hold is refused with "Token expiry
    /// out of range".
    pub fn authenticate(&mut self, username: &str, password: &str) -> (r: Result<AuthToken, String>)
        ensures
            (r matches Err(e) && e@ == "Token expiry out of range"@ && final(self).users@ == old(self).users@)
                || exists|now: i64| #[trigger] Self::authenticated(*old(self), *final(self), username@, password@, now, r),
            final(self).token_expiry_hours == old(self).token_expiry_hours,
            final(self).jwt_secret == old(self).jwt_secret,
    {
        let now = clock::utc_timestamp();
        if now > MAX_UTC_SECONDS - (self.token_expiry_hours as i64) * 3600 {
            return Err(owned("Token expiry out of range"));
        }
        self.authenticate_at(username, password, now)
    }

    /// What logging in at time `now` did: an unknown user, a disabled one
    /// and a wrong password are refused; otherwise a token is issued and
    /// recorded as active, and the login time noted.
    pub open spec fn authenticated(
        before: Authorization,
        after: Authorization,
        username: Seq<char>,
        password: Seq<char>,
        now: i64,
        r: Result<AuthToken, String>,
    ) -> bool {
        match user_pos(before.users@, username) {
            None => r matches Err(e) && e@ == "User not found"@ && after.users@ == before.users@,
            Some(i) => {
                let u = before.users@[i]@;
                if !u.enabled {
                    r matches Err(e) && e@ == "User is disabled"@ && after.users@ == before.users@
                } else if password_hash(password) != u.password_hash {
                    r matches Err(e) && e@ == "Invalid password"@ && after.users@ == before.users@
                } else {
                    &&& r matches Ok(t) && Self::issued(t, username, u, before.token_expiry_hours, before.jwt_secret@, now)
                    &&& after.users@.len() == before.users@.len()
                    &&& forall|j: int| 0 <= j < before.users@.len() && j != i ==> #[trigger] after.users@[j] == before.users@[j]
                    &&& after.users@[i]@ == (UserView {
                        last_login: Some(now),
                        active_tokens: u.active_tokens.push(token_text(username, now, before.jwt_secret@)),
                        ..u
                    })
                }
            },
        }
    }

    /// `t` is the token issued at time `now` to user `u` called `username`.
    pub open spec fn issued(t: AuthToken, username: Seq<char>, u: UserView, hours: u32, secret: Seq<char>, now: i64) -> bool {
        &&& t.token@ == token_text(username, now, secret)
        &&& password_hash(username + signed_decimal(now as int) + secret + "secret"@).len() == 64
        &&& t.user@ == username
        &&& t.role@ == main_role(u)
        &&& t.expires_at == now + hours * 3600
        &&& t.created_at == now
    }

    /// Log `username` in with `password` at time `now` (seconds), as
    /// `authenticated` says.
    pub fn authenticate_at(&mut self, username: &str, password: &str, now: i64) -> (r: Result<AuthToken, String>)
        requires
            now + old(self).token_expiry_hours * 3600 <= MAX_UTC_SECONDS,
        ensures
            Self::authenticated(*old(self), *final(self), username@, password@, now, r),
            final(self).token_expiry_hours == old(self).token_expiry_hours,
            final(self).jwt_secret == old(self).jwt_secret,
    {
        let i = match self.find_user_index(username) {
            Some(i) => i,
            None => {
                return Err(owned("User not found"));
            },
        };
        if !self.users[i].enabled {
            return Err(owned("User is disabled"));
        }
        if !Self::verify_password(password, self.users[i].password_hash.as_str()) {
            return Err(owned("Invalid password"));
        }
        let token = self.generate_token_at(username, now)?;
        let ghost u0 = self.users@;
        let mut u = self.users[i].clone();
        u.last_login = Some(now);
        u.active_tokens.push(token.token.clone());
        proof {
            assert(string_views(u.active_tokens@) =~= string_views(u0[i as int].active_tokens@).push(token.token@));
        }
        self.users.set(i, u);
        Ok(token)
    }

    /// Issue a token for `username` now; see `generate_token_at`.
    pub fn generate_token(&self, username: &str) -> (r: Result<AuthToken, String>)
        ensures
            match user_pos(self.users@, username@) {
                None => r matches Err(e) && e@ == "User not found"@,
                Some(i) => r is Ok || (r matches Err(e) && e@ == "Token expiry out of range"@),
            },
            r matches Ok(t) ==> exists|now: i64| #[trigger] Self::issued(t, username@, self.users@[user_pos(self.users@, username@)->0]@,
                self.token_expiry_hours, self.jwt_secret@, now),
    {
        let now = clock::utc_timestamp();
        if now > MAX_UTC_SECONDS - (self.token_expiry_hours as i64) * 3600 {
            if self.find_user_index(username).is_none() {
                return Err(owned("User not found"));
            }
            return Err(owned("Token expiry out of range"));
        }
        self.generate_token_at(username, now)
    }

    /// Issue a token for `username` at time `now`: "User not found" for an
    /// unknown user; otherwise the token of `token_text`, in the user's main
    /// role, expiring after the configured hours.
    pub fn generate_token_at(&self, username: &str, now: i64) -> (r: Result<AuthToken, String>)
        requires
            now + self.token_expiry_hours * 3600 <= MAX_UTC_SECONDS,
        ensures
            match user_pos(self.users@, username@) {
                None => r matches Err(e) && e@ == "User not found"@,
                Some(i) => r matches Ok(t) && Self::issued(t, username@, self.users@[i]@, self.token_expiry_hours, self.jwt_secret@, now),
            },
    {
        let i = match self.find_user_index(username) {
            Some(i) => i,
            None => {
                return Err(owned("User not found"));
            },
        };
        let user = &self.users[i];
        let role = if user.roles.len() == 0 { owned("viewer") } else { user.roles[0].clone() };
        let expires_at = now + (self.token_expiry_hours as i64) * 3600;
        let ts = i64_to_string(now);
        let mut seed = concat(username, ts.as_str());
        push_str(&mut seed, self.jwt_secret.as_str());
        push_str(&mut seed, "secret");
        let hash = Self::hash_password(seed.as_str());
        let hc = crate::text::chars_of(hash.as_str());
        let mut short: Vec<char> = Vec::new();
        let mut k: usize = 0;
        while k < 32
            invariant
                k <= 32,
                hc@.len() == 64,
                short@ == hc@.take(k as int),
            decreases 32 - k,
        {
            short.push(hc[k]);
            k = k + 1;
        }
        let mut token = concat(username, ":");
        push_str(&mut token, ts.as_str());
        push_str(&mut token, ":");
        let tail = string_of_chars(&short);
        push_str(&mut token, tail.as_str());
        Ok(AuthToken { token, user: owned(username), role, expires_at, created_at: now })
    }

    /// What checking a token gives: its user and role when it has three
    /// colon-separated parts, names an enabled user, and is among the
    /// user's active tokens.
    pub open spec fn token_check(users: Seq<User>, token: Seq<char>) -> Result<(Seq<char>, Seq<char>), Seq<char>> {
        if colon_count(token) != 2 {
            Err("Invalid token format"@)
        } else {
            let name = token.take(first_colon(token));
            match user_pos(users, name) {
                None => Err("User not found"@),
                Some(i) => {
                    let u = users[i]@;
                    if !u.enabled {
                        Err("User is disabled"@)
                    } else if !u.active_tokens.contains(token) {
                        Err("Token not active"@)
                    } else {
                        Ok((name, main_role(u)))
                    }
                },
            }
        }
    }

    /// Check a token, as `token_check` says.
    pub fn validate_token(&self, token: &str) -> (r: Result<(String, String), String>)
        ensures
            match Self::token_check(self.users@, token@) {
                Ok((name, role)) => r matches Ok((n, ro)) && n@ == name && ro@ == role,
                Err(e) => r matches Err(m) && m@ == e,
            },
    {
        let cs = crate::text::chars_of(token);
        let mut colons: usize = 0;
        let mut first: usize = 0;
        let mut i: usize = 0;
        while i < cs.len()
            invariant
                i <= cs@.len(),
                cs@ == token@,
                colons == colon_count(cs@.take(i as int)),
                colons <= i,
                first == first_colon(cs@.take(i as int)),
                first <= i,
                colons == 0 ==> first == i,
                colons > 0 ==> first < i,
            decreases cs@.len() - i,
        {
            assert(cs@.take(i + 1).drop_last() =~= cs@.take(i as int));
            proof { lemma_first_colon_bound(cs@.take(i as int)); }
            if cs[i] == ':' {
                if colons == 0 {
                    first = i;
                }
                colons = colons + 1;
            } else if colons == 0 {
                first = i + 1;
            }
            proof {
                if colons > 0 && first < i {
                    lemma_first_colon_bound(cs@.take(i as int));
                }
            }
            i = i + 1;
        }
        assert(cs@.take(cs@.len() as int) =~= cs@);
        if colons != 2 {
            return Err(owned("Invalid token format"));
        }
        proof { lemma_first_colon_bound(cs@); }
        let mut nv: Vec<char> = Vec::new();
        let mut k: usize = 0;
        while k < first
            invariant
                k <= first <= cs@.len(),
                nv@ == cs@.take(k as int),
            decreases first - k,
        {
            nv.push(cs[k]);
            k = k + 1;
        }
        let name = string_of_chars(&nv);
        let idx = match self.find_user_index(name.as_str()) {
            Some(i) => i,
            None => {
                return Err(owned("User not found"));
            },
        };
        let user = &self.users[idx];
        if !user.enabled {
            return Err(owned("User is disabled"));
        }
        let mut found = false;
        let mut t: usize = 0;
        while t < user.active_tokens.len()
            invariant
                t <= user.active_tokens@.len(),
                found == exists|m: int| 0 <= m < t && (#[trigger] user.active_tokens@[m])@ == token@,
            decreases user.active_tokens@.len() - t,
        {
            if str_eq(user.active_tokens[t].as_str(), token) {
                found = true;
            }
            t = t + 1;
        }
        proof {
            let tv = string_views(user.active_tokens@);
            if found {
                let m = choose|m: int| 0 <= m < user.active_tokens@.len() && (#[trigger] user.active_tokens@[m])@ == token@;
                assert(tv[m] == token@);
            } else {
                assert forall|m: int| 0 <= m < tv.len() implies tv[m] != token@ by {
                    assert(tv[m] == user.active_tokens@[m]@);
                }
            }
        }
        if !found {
            return Err(owned("Token not active"));
        }
        let role = if user.roles.len() == 0 { owned("viewer") } else { user.roles[0].clone() };
        Ok((name, role))
    }

    /// Create a user now; see `create_user_at`.
    pub fn create_user(&mut self, req: CreateUserRequest) -> (r: Result<String, String>)
        ensures
            exists|now: i64| #[trigger] Self::created(*old(self), *final(self), req, now, r),
            final(self).token_expiry_hours == old(self).token_expiry_hours,
            final(self).jwt_secret == old(self).jwt_secret,
    {
        let now = clock::utc_timestamp();
        self.create_user_at(req, now)
    }

    /// What creating a user at time `now` did: an existing name is refused
    /// with "User already exists"; otherwise an enabled account with the
    /// password's hash joins the end of the list.
    pub open spec fn created(before: Authorization, after: Authorization, req: CreateUserRequest, now: i64, r: Result<String, String>) -> bool {
        if user_pos(before.users@, req.username@) is Some {
            r matches Err(e) && e@ == "User already exists"@ && after.users@ == before.users@
        } else {
            &&& r matches Ok(m) && m@ == "User '"@ + req.username@ + "' created successfully"@
            &&& after.users@.len() == before.users@.len() + 1
            &&& after.users@.drop_last() == before.users@
            &&& after.users@.last()@ == (UserView {
                username: req.username@,
                email: req.email@,
                password_hash: password_hash(req.password@),
                roles: new_roles(string_views(req.roles@)),
                enabled: true,
                created_at: now,
                last_login: None,
                active_tokens: Seq::empty(),
            })
        }
    }

    /// Create a user at time `now`, as `created` says.
    pub fn create_user_at(&mut self, req: CreateUserRequest, now: i64) -> (r: Result<String, String>)
        ensures
            Self::created(*old(self), *final(self), req, now, r),
            final(self).token_expiry_hours == old(self).token_expiry_hours,
            final(self).jwt_secret == old(self).jwt_secret,
    {
        if self.find_user_index(req.username.as_str()).is_some() {
            return Err(owned("User already exists"));
        }
        let ghost rv = string_views(req.roles@);
        let roles = if req.roles.len() == 0 {
            let mut v: Vec<String> = Vec::new();
            v.push(owned("viewer"));
            assert(string_views(v@) =~= seq!["viewer"@]);
            v
        } else {
            clone_strings(&req.roles)
        };
        let mut msg = concat("User '", req.username.as_str());
        push_str(&mut msg, "' created successfully");
        let user = User {
            username: req.username.clone(),
            email: req.email.clone(),
            password_hash: Self::hash_password(req.password.as_str()),
            roles,
            enabled: true,
            created_at: now,
            last_login: None,
            active_tokens: Vec::new(),
        };
        assert(string_views(user.active_tokens@) =~= Seq::<Seq<char>>::empty());
        self.users.push(user);
        assert(self.users@.drop_last() =~= old(self).users@);
        Ok(msg)
    }

    /// The shown information of every user, in order.
    pub fn list_users(&self) -> (r: Vec<UserInfo>)
        ensures
            r@.len() == self.users@.len(),
            forall|i: int| 0 <= i < r@.len() ==> shows(#[trigger] r@[i], self.users@[i]@),
    {
        let mut r: Vec<UserInfo> = Vec::new();
        let mut i: usize = 0;
        while i < self.users.len()
            invariant
                i <= self.users@.len(),
                r@.len() == i,
                forall|j: int| 0 <= j < i ==> shows(#[trigger] r@[j], self.users@[j]@),
            decreases self.users@.len() - i,
        {
            r.push(Self::info_of(&self.users[i]));
            i = i + 1;
        }
        r
    }

    fn info_of(u: &User) -> (r: UserInfo)
        ensures
            shows(r, u@),
    {
        UserInfo {
            username: u.username.clone(),
            email: u.email.clone(),
            roles: clone_strings(&u.roles),
            enabled: u.enabled,
            created_at: u.created_at,
            last_login: u.last_login,
        }
    }

    /// The shown information of the first user called `username`.
    pub fn get_user(&self, username: &str) -> (r: Option<UserInfo>)
        ensures
            match user_pos(self.users@, username@) {
                Some(i) => r matches Some(info) && shows(info, self.users@[i]@),
                None => r is None,
            },
    {
        match self.find_user(username) {
            Some(u) => Some(Self::info_of(u)),
            None => None,
        }
    }

    /// Disable the first user called `username` and drop its tokens:
    /// "User '<name>' disabled", or "User not found".
    pub fn disable_user(&mut self, username: &str) -> (r: Result<String, String>)
        ensures
            final(self).token_expiry_hours == old(self).token_expiry_hours,
            final(self).jwt_secret == old(self).jwt_secret,
            match user_pos(old(self).users@, username@) {
                None => r matches Err(e) && e@ == "User not found"@ && final(self).users@ == old(self).users@,
                Some(i) => r matches Ok(m) && m@ == "User '"@ + username@ + "' disabled"@
                    && final(self).users@.len() == old(self).users@.len()
                    && (forall|j: int| 0 <= j < old(self).users@.len() && j != i ==> #[trigger] final(self).users@[j] == old(self).users@[j])
                    && final(self).users@[i]@ == (UserView { enabled: false, active_tokens: Seq::empty(), ..old(self).users@[i]@ }),
            },
    {
        match self.find_user_index(username) {
            Some(i) => {
                let mut u = self.users[i].clone();
                u.enabled = false;
                u.active_tokens = Vec::new();
                assert(string_views(u.active_tokens@) =~= Seq::<Seq<char>>::empty());
                self.users.set(i, u);
                let mut msg = concat("User '", username);
                push_str(&mut msg, "' disabled");
                Ok(msg)
            },
            None => Err(owned("User not found")),
        }
    }

    /// Enable the first user called `username`: "User '<name>' enabled", or
    /// "User not found".
    pub fn enable_user(&mut self, username: &str) -> (r: Result<String, String>)
        ensures
            final(self).token_expiry_hours == old(self).token_expiry_hours,
            final(self).jwt_secret == old(self).jwt_secret,
            match user_pos(old(self).users@, username@) {
                None => r matches Err(e) && e@ == "User not found"@ && final(self).users@ == old(self).users@,
                Some(i) => r matches Ok(m) && m@ == "User '"@ + username@ + "' enabled"@
                    && final(self).users@.len() == old(self).users@.len()
                    && (forall|j: int| 0 <= j < old(self).users@.len() && j != i ==> #[trigger] final(self).users@[j] == old(self).users@[j])
                    && final(self).users@[i]@ == (UserView { enabled: true, ..old(self).users@[i]@ }),
            },
    {
        match self.find_user_index(username) {
            Some(i) => {
                let mut u = self.users[i].clone();
                u.enabled = true;
                self.users.set(i, u);
                let mut msg = concat("User '", username);
                push_str(&mut msg, "' enabled");
                Ok(msg)
            },
            None => Err(owned("User not found")),
        }
    }

    /// Change the password of the first user called `username`, given its
    /// old password; its tokens are dropped.
    pub fn change_password(&mut self, username: &str, old_password: &str, new_password: &str) -> (r: Result<String, String>)
        ensures
            final(self).token_expiry_hours == old(self).token_expiry_hours,
            final(self).jwt_secret == old(self).jwt_secret,
            match user_pos(old(self).users@, username@) {
                None => r matches Err(e) && e@ == "User not found"@ && final(self).users@ == old(self).users@,
                Some(i) => if password_hash(old_password@) != old(self).users@[i]@.password_hash {
                    r matches Err(e) && e@ == "Old password incorrect"@ && final(self).users@ == old(self).users@
                } else {
                    r matches Ok(m) && m@ == "Password changed successfully"@
                    && final(self).users@.len() == old(self).users@.len()
                    && (forall|j: int| 0 <= j < old(self).users@.len() && j != i ==> #[trigger] final(self).users@[j] == old(self).users@[j])
                    && final(self).users@[i]@ == (UserView {
                        password_hash: password_hash(new_password@),
                        active_tokens: Seq::empty(),
                        ..old(self).users@[i]@
                    })
                },
            },
    {
        let i = match self.find_user_index(username) {
            Some(i) => i,
            None => {
                return Err(owned("User not found"));
            },
        };
        if !Self::verify_password(old_password, self.users[i].password_hash.as_str()) {
            return Err(owned("Old password incorrect"));
        }
        let mut u = self.users[i].clone();
        u.password_hash = Self::hash_password(new_password);
        u.active_tokens = Vec::new();
        assert(string_views(u.active_tokens@) =~= Seq::<Seq<char>>::empty());
        self.users.set(i, u);
        Ok(owned("Password changed successfully"))
    }

    /// Revoke a token: it is removed from the first user (in order) that
    /// holds it, at its first position; "Token not found" when no user does.
    pub fn revoke_token(&mut self, token: &str) -> (r: Result<String, String>)
        ensures
            final(self).token_expiry_hours == old(self).token_expiry_hours,
            final(self).jwt_secret == old(self).jwt_secret,
            match Self::token_holder(old(self).users@, token@) {
                None => r matches Err(e) && e@ == "Token not found"@ && final(self).users@ == old(self).users@,
                Some((i, k)) => r matches Ok(m) && m@ == "Token revoked successfully"@
                    && final(self).users@.len() == old(self).users@.len()
                    && (forall|j: int| 0 <= j < old(self).users@.len() && j != i ==> #[trigger] final(self).users@[j] == old(self).users@[j])
                    && final(self).users@[i]@ == (UserView {
                        active_tokens: old(self).users@[i]@.active_tokens.remove(k),
                        ..old(self).users@[i]@
                    }),
            },
    {
        let mut i: usize = 0;
        while i < self.users.len()
            invariant
                i <= self.users@.len(),
                self.users@ == old(self).users@,
                self.token_expiry_hours == old(self).token_expiry_hours,
                self.jwt_secret == old(self).jwt_secret,
                forall|j: int| 0 <= j < i ==> !(#[trigger] self.users@[j]@).active_tokens.contains(token@),
            decreases self.users@.len() - i,
        {
            let mut k: usize = 0;
            let n = self.users[i].active_tokens.len();
            while k < n
                invariant
                    k <= n,
                    i < self.users@.len(),
                    self.users@ == old(self).users@,
                    self.token_expiry_hours == old(self).token_expiry_hours,
                    self.jwt_secret == old(self).jwt_secret,
                    forall|j: int| 0 <= j < i ==> !(#[trigger] self.users@[j]@).active_tokens.contains(token@),
                    n == self.users@[i as int].active_tokens@.len(),
                    forall|m: int| 0 <= m < k ==> (#[trigger] self.users@[i as int].active_tokens@[m])@ != token@,
                decreases n - k,
            {
                if str_eq(self.users[i].active_tokens[k].as_str(), token) {
                    let ghost us = self.users@;
                    let mut u = self.users[i].clone();
                    assert(string_views(u.active_tokens@).len() == u.active_tokens@.len());
                    assert(string_views(us[i as int].active_tokens@).len() == us[i as int].active_tokens@.len());
                    let _ = u.active_tokens.remove(k);
                    proof {
                        assert(string_views(u.active_tokens@) =~= string_views(us[i as int].active_tokens@).remove(k as int));
                        let tv = string_views(us[i as int].active_tokens@);
                        assert(tv[k as int] == token@);
                        assert forall|m: int| 0 <= m < k implies tv[m] != token@ by {
                            assert(tv[m] == us[i as int].active_tokens@[m]@);
                        }
                        Self::lemma_holder(us, token@, i as int, k as int);
                    }
                    self.users.set(i, u);
                    return Ok(owned("Token revoked successfully"));
                }
                k = k + 1;
            }
            proof {
                let tv = string_views(self.users@[i as int].active_tokens@);
                assert forall|m: int| 0 <= m < tv.len() implies tv[m] != token@ by {
                    assert(tv[m] == self.users@[i as int].active_tokens@[m]@);
                }
            }
            i = i + 1;
        }
        proof {
            if Self::token_holder(self.users@, token@) is Some {
                let (a, b) = Self::token_holder(self.users@, token@)->0;
                assert(!self.users@[a]@.active_tokens.contains(token@));
                assert(self.users@[a]@.active_tokens[b] == token@);
            }
        }
        Err(owned("Token not found"))
    }

    /// The first user (in order) holding `token`, and the token's first
    /// position among that user's tokens.
    pub open spec fn token_holder(users: Seq<User>, token: Seq<char>) -> Option<(int, int)> {
        if exists|i: int, k: int| Self::holds_first(users, token, i, k) {
            Some(choose|i: int, k: int| Self::holds_first(users, token, i, k))
        } else {
            None
        }
    }

    /// User `i` is the first holding `token`, at first position `k`.
    pub open spec fn holds_first(users: Seq<User>, token: Seq<char>, i: int, k: int) -> bool {
        &&& 0 <= i < users.len()
        &&& 0 <= k < users[i]@.active_tokens.len()
        &&& users[i]@.active_tokens[k] == token
        &&& forall|m: int| 0 <= m < k ==> users[i]@.active_tokens[m] != token
        &&& forall|j: int| 0 <= j < i ==> !(#[trigger] users[j]@).active_tokens.contains(token)
    }

    proof fn lemma_holder(users: Seq<User>, token: Seq<char>, i: int, k: int)
        requires
            Self::holds_first(users, token, i, k),
        ensures
            Self::token_holder(users, token) == Some((i, k)),
    {
        let (a, b) = choose|a: int, b: int| Self::holds_first(users, token, a, b);
        if a < i {
            assert(users[a]@.active_tokens[b] == token);
        } else if a > i {
            assert(users[i]@.active_tokens[k] == token);
        } else if b < k {
        } else if b > k {
        }
    }
}

} // verus!
