//! API key authentication of the admin API.
use vstd::prelude::*;
use crate::clock;
use crate::text::{owned, str_eq};
use super::error::AdminApiError;

verus! {

/// The request header that carries the API key.
pub const ADMIN_API_KEY_HEADER: &'static str = "X-API-Key";

/// `api_key` is one of the allowed keys.
pub open spec fn key_allowed(api_key: Seq<char>, allowed: Seq<&str>) -> bool {
    exists|i: int| 0 <= i < allowed.len() && (#[trigger] allowed[i])@ == api_key
}

/// The API key a request carries, from the value of its `X-API-Key` header
/// (none when the header is missing or not visible ASCII text); without one,
/// `Unauthorized("Missing API key header")`.
pub fn extract_api_key(header_value: Option<&str>) -> (r: Result<String, AdminApiError>)
    ensures
        header_value matches Some(v) ==> (r matches Ok(k) && k@ == v@),
        header_value is None ==> (r matches Err(AdminApiError::Unauthorized(m)) && m@ == "Missing API key header"@),
{
    match header_value {
        Some(v) => Ok(owned(v)),
        None => Err(AdminApiError::Unauthorized(owned("Missing API key header"))),
    }
}

/// Accept an API key that is one of the allowed keys; otherwise
/// `Unauthorized("Invalid API key")`.
pub fn validate_api_key(api_key: &str, allowed_keys: &[&str]) -> (r: Result<(), AdminApiError>)
    ensures
        key_allowed(api_key@, allowed_keys@) ==> r is Ok,
        !key_allowed(api_key@, allowed_keys@) ==> (r matches Err(AdminApiError::Unauthorized(m)) && m@ == "Invalid API key"@),
{
    let mut i: usize = 0;
    while i < allowed_keys.len()
        invariant
            i <= allowed_keys@.len(),
            forall|j: int| 0 <= j < i ==> (#[trigger] allowed_keys@[j])@ != api_key@,
        decreases allowed_keys@.len() - i,
    {
        if str_eq(allowed_keys[i], api_key) {
            return Ok(());
        }
        i = i + 1;
    }
    Err(AdminApiError::Unauthorized(owned("Invalid API key")))
}

/// The API key gate with its allowed keys.
pub struct ApiKeyMiddleware {
    allowed_keys: Vec<String>,
}

impl ApiKeyMiddleware {
    /// The allowed keys.
    pub closed spec fn spec_allowed(&self) -> Seq<String> {
        self.allowed_keys@
    }

    /// A gate for these keys.
    pub fn new(allowed_keys: Vec<String>) -> (r: Self)
        ensures
            r.spec_allowed() == allowed_keys@,
    {
        ApiKeyMiddleware { allowed_keys }
    }

    /// A copy of the allowed keys.
    pub fn allowed_keys(&self) -> (r: Vec<String>)
        ensures
            crate::text::string_views(r@) == crate::text::string_views(self.spec_allowed()),
    {
        crate::auth::clone_strings(&self.allowed_keys)
    }
}

/// A fresh API key: a random UUID in its 36-character text form.
pub fn generate_api_key() -> (r: String)
    ensures
        r@.len() == 36,
{
    clock::new_uuid_string()
}

} // verus!
