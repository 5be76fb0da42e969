//! The authentication gate in front of the HTTP routes.
use vstd::prelude::*;
use crate::text::{contains_seq, contains_str, is_prefix, starts_with, suffix_from};
use super::Authorization;

verus! {

/// The bearer token of an `Authorization` header value: what follows
/// `Bearer `.
pub open spec fn bearer_token(header: Option<Seq<char>>) -> Option<Seq<char>> {
    match header {
        Some(h) => if is_prefix("Bearer "@, h) { Some(h.skip(7)) } else { None },
        None => None,
    }
}

/// The token of an `Authorization` header value `Bearer <token>`.
pub fn extract_token(auth_header: Option<&str>) -> (r: Option<String>)
    ensures
        match auth_header {
            Some(h) => match bearer_token(Some(h@)) {
                Some(t) => r matches Some(s) && s@ == t,
                None => r is None,
            },
            None => r is None,
        },
{
    match auth_header {
        Some(h) => {
            if starts_with(h, "Bearer ") {
                proof { reveal_strlit("Bearer "); }
                Some(suffix_from(h, 7))
            } else {
                None
            }
        },
        None => None,
    }
}

/// Check a token against the accounts; see `Authorization::validate_token`.
pub fn validate_token_helper(token: &str, auth: &Authorization) -> (r: Result<(String, String), String>)
    ensures
        match Authorization::token_check(auth.users@, token@) {
            Ok((name, role)) => r matches Ok((n, ro)) && n@ == name && ro@ == role,
            Err(e) => r matches Err(m) && m@ == e,
        },
{
    auth.validate_token(token)
}

/// A path that needs no token: login, health and public endpoints.
pub open spec fn public_path(path: Seq<char>) -> bool {
    contains_seq(path, "/login"@) || contains_seq(path, "/health"@) || contains_seq(path, "/api/public"@)
}

/// The authentication gate: public paths pass; other requests need a
/// bearer token (checked later by the handlers).
pub struct AuthMiddleware;

impl AuthMiddleware {
    /// Whether a request to `path` with this `Authorization` header may
    /// proceed.
    pub fn admits(&self, path: &str, auth_header: Option<&str>) -> (r: bool)
        ensures
            r == (public_path(path@) || bearer_token(match auth_header { Some(h) => Some(h@), None => None }) is Some),
    {
        if contains_str(path, "/login") || contains_str(path, "/health") || contains_str(path, "/api/public") {
            return true;
        }
        extract_token(auth_header).is_some()
    }
}

} // verus!
