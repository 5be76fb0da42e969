//! Authentication endpoints: login, logout, the current user and user
//! administration. Each endpoint answers with an `AuthReply`, which the HTTP
//! layer writes out.
use vstd::prelude::*;
use crate::clock;
use crate::text::{owned, str_eq};
use super::middleware::{bearer_token, extract_token};
use super::{shows, user_pos, AuthConfig, AuthToken, Authorization, CreateUserRequest, LoginRequest, UserInfo, MAX_UTC_SECONDS};

verus! {

/// The answer of an authentication endpoint.
#[derive(Debug)]
pub enum AuthReply {
    /// A successful login (200).
    LoggedIn { token: AuthToken, expires_in_seconds: i64 },
    /// The caller's account (200).
    CurrentUser { user: UserInfo, role: String },
    /// All accounts (200).
    Users { users: Vec<UserInfo> },
    /// A completed action, with its HTTP status and message.
    Done { status: u16, message: String },
    /// A refused request, with its HTTP status and error.
    Failed { status: u16, error: String },
}

/// `r` is a refusal with this status and error.
pub open spec fn failed(r: AuthReply, status: u16, error: Seq<char>) -> bool {
    r matches AuthReply::Failed { status: s, error: e } && s == status && e@ == error
}

/// `r` is a completed action with this status and message.
pub open spec fn done(r: AuthReply, status: u16, message: Seq<char>) -> bool {
    r matches AuthReply::Done { status: s, message: m } && s == status && m@ == message
}

/// The header's value as characters.
pub open spec fn header_view(h: Option<&str>) -> Option<Seq<char>> {
    match h {
        Some(s) => Some(s@),
        None => None,
    }
}

/// The refusal owed to a request that needs an administrator, if any:
/// a missing token (401), a token that does not check (401, its error), a
/// role other than "admin" (403).
pub open spec fn admin_refusal(users: Seq<super::User>, header: Option<Seq<char>>) -> Option<(u16, Seq<char>)> {
    match bearer_token(header) {
        None => Some((401, "Missing authorization token"@)),
        Some(t) => match Authorization::token_check(users, t) {
            Err(e) => Some((401, e)),
            Ok((_, role)) => if role != "admin"@ { Some((403, "Admin role required"@)) } else { None },
        },
    }
}

/// Authentication endpoints over one set of accounts.
pub struct AuthHandlers {
    pub auth: Authorization,
}

impl AuthHandlers {
    /// Endpoints over the accounts of a configuration.
    pub fn new(config: AuthConfig) -> (r: Self)
        ensures
            r.auth.users@ == config.users@,
            r.auth.token_expiry_hours == config.token_expiry_hours,
            r.auth.jwt_secret@ == config.jwt_secret@,
    {
        AuthHandlers { auth: Authorization::new(config) }
    }

    /// Refuse a request unless its token is an administrator's.
    fn require_admin(&self, auth_header: Option<&str>) -> (r: Option<AuthReply>)
        ensures
            match admin_refusal(self.auth.users@, header_view(auth_header)) {
                Some((s, e)) => r matches Some(x) && failed(x, s, e),
                None => r is None,
            },
    {
        let token = match extract_token(auth_header) {
            Some(t) => t,
            None => {
                return Some(AuthReply::Failed { status: 401, error: owned("Missing authorization token") });
            },
        };
        match self.auth.validate_token(token.as_str()) {
            Ok((_, role)) => {
                if !str_eq(role.as_str(), "admin") {
                    Some(AuthReply::Failed { status: 403, error: owned("Admin role required") })
                } else {
                    None
                }
            },
            Err(e) => Some(AuthReply::Failed { status: 401, error: e }),
        }
    }

    /// POST /api/auth/login now; see `login_at`.
    pub fn login(&mut self, req: &LoginRequest) -> (r: AuthReply)
        ensures
            final(self).auth.token_expiry_hours == old(self).auth.token_expiry_hours,
            final(self).auth.jwt_secret == old(self).auth.jwt_secret,
            failed(r, 500, "Token expiry out of range"@) || exists|now: i64| #[trigger] Self::logged_in(*old(self), *final(self), *req, now, r),
    {
        let now = clock::utc_timestamp();
        if now > MAX_UTC_SECONDS - (self.auth.token_expiry_hours as i64) * 3600 {
            return AuthReply::Failed { status: 500, error: owned("Token expiry out of range") };
        }
        self.login_at(req, now)
    }

    /// What a login at time `now` answered: the token and its lifetime in
    /// seconds, or 401 with the reason.
    pub open spec fn logged_in(before: AuthHandlers, after: AuthHandlers, req: LoginRequest, now: i64, r: AuthReply) -> bool {
        exists|res: Result<AuthToken, String>| {
            &&& #[trigger] Authorization::authenticated(before.auth, after.auth, req.username@, req.password@, now, res)
            &&& match res {
                Ok(t) => r matches AuthReply::LoggedIn { token, expires_in_seconds } && token == t && expires_in_seconds == t.expires_at - now,
                Err(e) => failed(r, 401, e@),
            }
        }
    }

    /// POST /api/auth/login at time `now` (seconds).
    pub fn login_at(&mut self, req: &LoginRequest, now: i64) -> (r: AuthReply)
        requires
            now + old(self).auth.token_expiry_hours * 3600 <= MAX_UTC_SECONDS,
        ensures
            final(self).auth.token_expiry_hours == old(self).auth.token_expiry_hours,
            final(self).auth.jwt_secret == old(self).auth.jwt_secret,
            Self::logged_in(*old(self), *final(self), *req, now, r),
    {
        let res = self.auth.authenticate_at(req.username.as_str(), req.password.as_str(), now);
        let ghost res_g = res;
        match res {
            Ok(token) => {
                let expires_in = token.expires_at - now;
                let r = AuthReply::LoggedIn { token, expires_in_seconds: expires_in };
                assert(Authorization::authenticated(old(self).auth, self.auth, req.username@, req.password@, now, res_g));
                r
            },
            Err(e) => {
                let r = AuthReply::Failed { status: 401, error: e };
                assert(Authorization::authenticated(old(self).auth, self.auth, req.username@, req.password@, now, res_g));
                r
            },
        }
    }

    /// POST /api/auth/logout: revoke the bearer token; 401 without a token,
    /// 400 when no account holds it.
    pub fn logout(&mut self, auth_header: Option<&str>) -> (r: AuthReply)
        ensures
            final(self).auth.token_expiry_hours == old(self).auth.token_expiry_hours,
            final(self).auth.jwt_secret == old(self).auth.jwt_secret,
            match bearer_token(header_view(auth_header)) {
                None => failed(r, 401, "Missing authorization token"@) && final(self).auth.users@ == old(self).auth.users@,
                Some(t) => match Authorization::token_holder(old(self).auth.users@, t) {
                    None => failed(r, 400, "Token not found"@) && final(self).auth.users@ == old(self).auth.users@,
                    Some((i, k)) => done(r, 200, "Logged out successfully"@)
                        && final(self).auth.users@.len() == old(self).auth.users@.len()
                        && (forall|j: int| 0 <= j < old(self).auth.users@.len() && j != i ==> #[trigger] final(self).auth.users@[j] == old(self).auth.users@[j])
                        && final(self).auth.users@[i]@ == (super::UserView {
                            active_tokens: old(self).auth.users@[i]@.active_tokens.remove(k),
                            ..old(self).auth.users@[i]@
                        }),
                },
            },
    {
        let token = match extract_token(auth_header) {
            Some(t) => t,
            None => {
                return AuthReply::Failed { status: 401, error: owned("Missing authorization token") };
            },
        };
        match self.auth.revoke_token(token.as_str()) {
            Ok(_) => AuthReply::Done { status: 200, message: owned("Logged out successfully") },
            Err(e) => AuthReply::Failed { status: 400, error: e },
        }
    }

    /// GET /api/auth/me: the account of the bearer token and its role; 401
    /// without a valid token, 404 when the account is gone.
    pub fn get_current_user(&self, auth_header: Option<&str>) -> (r: AuthReply)
        ensures
            match bearer_token(header_view(auth_header)) {
                None => failed(r, 401, "Missing authorization token"@),
                Some(t) => match Authorization::token_check(self.auth.users@, t) {
                    Err(e) => failed(r, 401, e),
                    Ok((name, role)) => match user_pos(self.auth.users@, name) {
                        Some(i) => r matches AuthReply::CurrentUser { user, role: ro } && shows(user, self.auth.users@[i]@) && ro@ == role,
                        None => failed(r, 404, "User not found"@),
                    },
                },
            },
    {
        let token = match extract_token(auth_header) {
            Some(t) => t,
            None => {
                return AuthReply::Failed { status: 401, error: owned("Missing authorization token") };
            },
        };
        match self.auth.validate_token(token.as_str()) {
            Ok((username, role)) => match self.auth.get_user(username.as_str()) {
                Some(info) => AuthReply::CurrentUser { user: info, role },
                None => AuthReply::Failed { status: 404, error: owned("User not found") },
            },
            Err(e) => AuthReply::Failed { status: 401, error: e },
        }
    }

    /// GET /api/auth/users (administrators only): every account.
    pub fn list_users(&self, auth_header: Option<&str>) -> (r: AuthReply)
        ensures
            match admin_refusal(self.auth.users@, header_view(auth_header)) {
                Some((s, e)) => failed(r, s, e),
                None => r matches AuthReply::Users { users } && users@.len() == self.auth.users@.len()
                    && forall|i: int| 0 <= i < users@.len() ==> shows(#[trigger] users@[i], self.auth.users@[i]@),
            },
    {
        if let Some(x) = self.require_admin(auth_header) {
            return x;
        }
        AuthReply::Users { users: self.auth.list_users() }
    }

    /// POST /api/auth/users now (administrators only); see `create_user_at`.
    pub fn create_user(&mut self, auth_header: Option<&str>, req: CreateUserRequest) -> (r: AuthReply)
        ensures
            final(self).auth.token_expiry_hours == old(self).auth.token_expiry_hours,
            final(self).auth.jwt_secret == old(self).auth.jwt_secret,
            match admin_refusal(old(self).auth.users@, header_view(auth_header)) {
                Some((s, e)) => failed(r, s, e) && final(self).auth.users@ == old(self).auth.users@,
                None => exists|now: i64| #[trigger] Self::user_created(*old(self), *final(self), req, now, r),
            },
    {
        let now = clock::utc_timestamp();
        self.create_user_at(auth_header, req, now)
    }

    /// What creating a user at time `now` answered: 201 with the message, or
    /// 400 with the reason.
    pub open spec fn user_created(before: AuthHandlers, after: AuthHandlers, req: CreateUserRequest, now: i64, r: AuthReply) -> bool {
        exists|res: Result<String, String>| {
            &&& #[trigger] Authorization::created(before.auth, after.auth, req, now, res)
            &&& match res {
                Ok(m) => done(r, 201, m@),
                Err(e) => failed(r, 400, e@),
            }
        }
    }

    /// POST /api/auth/users at time `now` (administrators only).
    pub fn create_user_at(&mut self, auth_header: Option<&str>, req: CreateUserRequest, now: i64) -> (r: AuthReply)
        ensures
            final(self).auth.token_expiry_hours == old(self).auth.token_expiry_hours,
            final(self).auth.jwt_secret == old(self).auth.jwt_secret,
            match admin_refusal(old(self).auth.users@, header_view(auth_header)) {
                Some((s, e)) => failed(r, s, e) && final(self).auth.users@ == old(self).auth.users@,
                None => Self::user_created(*old(self), *final(self), req, now, r),
            },
    {
        if let Some(x) = self.require_admin(auth_header) {
            return x;
        }
        let ghost req_g = req;
        let res = self.auth.create_user_at(req, now);
        let ghost res_g = res;
        let r = match res {
            Ok(m) => AuthReply::Done { status: 201, message: m },
            Err(e) => AuthReply::Failed { status: 400, error: e },
        };
        assert(Authorization::created(old(self).auth, self.auth, req_g, now, res_g));
        r
    }

    /// PUT /api/auth/users/{username}/disable (administrators only).
    pub fn disable_user(&mut self, auth_header: Option<&str>, username: &str) -> (r: AuthReply)
        ensures
            final(self).auth.token_expiry_hours == old(self).auth.token_expiry_hours,
            final(self).auth.jwt_secret == old(self).auth.jwt_secret,
            match admin_refusal(old(self).auth.users@, header_view(auth_header)) {
                Some((s, e)) => failed(r, s, e) && final(self).auth.users@ == old(self).auth.users@,
                None => match user_pos(old(self).auth.users@, username@) {
                    None => failed(r, 400, "User not found"@) && final(self).auth.users@ == old(self).auth.users@,
                    Some(i) => done(r, 200, "User '"@ + username@ + "' disabled"@)
                        && final(self).auth.users@.len() == old(self).auth.users@.len()
                        && (forall|j: int| 0 <= j < old(self).auth.users@.len() && j != i ==> #[trigger] final(self).auth.users@[j] == old(self).auth.users@[j])
                        && final(self).auth.users@[i]@ == (super::UserView { enabled: false, active_tokens: Seq::empty(), ..old(self).auth.users@[i]@ }),
                },
            },
    {
        if let Some(x) = self.require_admin(auth_header) {
            return x;
        }
        match self.auth.disable_user(username) {
            Ok(m) => AuthReply::Done { status: 200, message: m },
            Err(e) => AuthReply::Failed { status: 400, error: e },
        }
    }

    /// PUT /api/auth/users/{username}/enable (administrators only).
    pub fn enable_user(&mut self, auth_header: Option<&str>, username: &str) -> (r: AuthReply)
        ensures
            final(self).auth.token_expiry_hours == old(self).auth.token_expiry_hours,
            final(self).auth.jwt_secret == old(self).auth.jwt_secret,
            match admin_refusal(old(self).auth.users@, header_view(auth_header)) {
                Some((s, e)) => failed(r, s, e) && final(self).auth.users@ == old(self).auth.users@,
                None => match user_pos(old(self).auth.users@, username@) {
                    None => failed(r, 400, "User not found"@) && final(self).auth.users@ == old(self).auth.users@,
                    Some(i) => done(r, 200, "User '"@ + username@ + "' enabled"@)
                        && final(self).auth.users@.len() == old(self).auth.users@.len()
                        && (forall|j: int| 0 <= j < old(self).auth.users@.len() && j != i ==> #[trigger] final(self).auth.users@[j] == old(self).auth.users@[j])
                        && final(self).auth.users@[i]@ == (super::UserView { enabled: true, ..old(self).auth.users@[i]@ }),
                },
            },
    {
        if let Some(x) = self.require_admin(auth_header) {
            return x;
        }
        match self.auth.enable_user(username) {
            Ok(m) => AuthReply::Done { status: 200, message: m },
            Err(e) => AuthReply::Failed { status: 400, error: e },
        }
    }
}

} // verus!
