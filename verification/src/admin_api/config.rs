//! Settings of the admin API server.
use vstd::prelude::*;
use crate::text::owned;

verus! {

/// Settings of the admin API server.
#[derive(Debug, Clone)]
pub struct AppConfig {
    pub server_addr: String,
    pub broker_url: String,
    pub db_path: String,
    pub log_level: String,
}

/// A setting's value, or its default when unset.
pub open spec fn or_default(v: Option<String>, d: Seq<char>) -> Seq<char> {
    match v {
        Some(s) => s@,
        None => d,
    }
}

fn value_or(v: Option<String>, d: &str) -> (r: String)
    ensures
        r@ == or_default(v, d@),
{
    match v {
        Some(s) => s,
        None => owned(d),
    }
}

impl AppConfig {
    /// The settings from the values of `ADMIN_API_ADDR`, `BROKER_URL`,
    /// `ADMIN_DB_PATH` and `LOG_LEVEL`, each defaulting when unset.
    pub fn from_values(addr: Option<String>, broker_url: Option<String>, db_path: Option<String>, log_level: Option<String>) -> (r: Self)
        ensures
            r.server_addr@ == or_default(addr, "127.0.0.1:8080"@),
            r.broker_url@ == or_default(broker_url, "http://localhost:6000"@),
            r.db_path@ == or_default(db_path, "admin.db"@),
            r.log_level@ == or_default(log_level, "info"@),
    {
        AppConfig {
            server_addr: value_or(addr, "127.0.0.1:8080"),
            broker_url: value_or(broker_url, "http://localhost:6000"),
            db_path: value_or(db_path, "admin.db"),
            log_level: value_or(log_level, "info"),
        }
    }
}

} // verus!
