//! Errors of the admin API and how they are answered.
use vstd::prelude::*;
use crate::text::{concat, owned};
use super::models::ErrorResponse;

verus! {

/// An admin API failure, with its message.
#[derive(Debug, Clone)]
pub enum AdminApiError {
    NotFound(String),
    BadRequest(String),
    Unauthorized(String),
    Conflict(String),
    InternalError(String),
    BrokerError(String),
    DatabaseError(String),
}

/// The result of an admin API operation.
pub type AdminResult<T> = Result<T, AdminApiError>;

/// The HTTP status of an error.
pub open spec fn error_status(e: AdminApiError) -> u16 {
    match e {
        AdminApiError::NotFound(_) => 404,
        AdminApiError::BadRequest(_) => 400,
        AdminApiError::Unauthorized(_) => 401,
        AdminApiError::Conflict(_) => 409,
        AdminApiError::InternalError(_) => 500,
        AdminApiError::BrokerError(_) => 502,
        AdminApiError::DatabaseError(_) => 500,
    }
}

/// The error code of an error.
pub open spec fn error_code_text(e: AdminApiError) -> Seq<char> {
    match e {
        AdminApiError::NotFound(_) => "NOT_FOUND"@,
        AdminApiError::BadRequest(_) => "BAD_REQUEST"@,
        AdminApiError::Unauthorized(_) => "UNAUTHORIZED"@,
        AdminApiError::Conflict(_) => "CONFLICT"@,
        AdminApiError::InternalError(_) => "INTERNAL_ERROR"@,
        AdminApiError::BrokerError(_) => "BROKER_ERROR"@,
        AdminApiError::DatabaseError(_) => "DATABASE_ERROR"@,
    }
}

/// The message an error carries.
pub open spec fn error_message(e: AdminApiError) -> Seq<char> {
    match e {
        AdminApiError::NotFound(m) => m@,
        AdminApiError::BadRequest(m) => m@,
        AdminApiError::Unauthorized(m) => m@,
        AdminApiError::Conflict(m) => m@,
        AdminApiError::InternalError(m) => m@,
        AdminApiError::BrokerError(m) => m@,
        AdminApiError::DatabaseError(m) => m@,
    }
}

/// The written form of an error: its kind, then its message.
pub open spec fn error_text(e: AdminApiError) -> Seq<char> {
    match e {
        AdminApiError::NotFound(m) => "Not found: "@ + m@,
        AdminApiError::BadRequest(m) => "Bad request: "@ + m@,
        AdminApiError::Unauthorized(m) => "Unauthorized: "@ + m@,
        AdminApiError::Conflict(m) => "Conflict: "@ + m@,
        AdminApiError::InternalError(m) => "Internal error: "@ + m@,
        AdminApiError::BrokerError(m) => "Broker error: "@ + m@,
        AdminApiError::DatabaseError(m) => "Database error: "@ + m@,
    }
}

impl AdminApiError {
    /// The HTTP status of the error.
    pub fn status_code(&self) -> (r: u16)
        ensures
            r == error_status(*self),
    {
        match self {
            AdminApiError::NotFound(_) => 404,
            AdminApiError::BadRequest(_) => 400,
            AdminApiError::Unauthorized(_) => 401,
            AdminApiError::Conflict(_) => 409,
            AdminApiError::InternalError(_) => 500,
            AdminApiError::BrokerError(_) => 502,
            AdminApiError::DatabaseError(_) => 500,
        }
    }

    /// The error code of the error (`NOT_FOUND`, `BAD_REQUEST`, ...).
    pub fn error_code(&self) -> (r: String)
        ensures
            r@ == error_code_text(*self),
    {
        match self {
            AdminApiError::NotFound(_) => owned("NOT_FOUND"),
            AdminApiError::BadRequest(_) => owned("BAD_REQUEST"),
            AdminApiError::Unauthorized(_) => owned("UNAUTHORIZED"),
            AdminApiError::Conflict(_) => owned("CONFLICT"),
            AdminApiError::InternalError(_) => owned("INTERNAL_ERROR"),
            AdminApiError::BrokerError(_) => owned("BROKER_ERROR"),
            AdminApiError::DatabaseError(_) => owned("DATABASE_ERROR"),
        }
    }

    /// The message the error carries.
    pub fn message(&self) -> (r: String)
        ensures
            r@ == error_message(*self),
    {
        match self {
            AdminApiError::NotFound(m) => m.clone(),
            AdminApiError::BadRequest(m) => m.clone(),
            AdminApiError::Unauthorized(m) => m.clone(),
            AdminApiError::Conflict(m) => m.clone(),
            AdminApiError::InternalError(m) => m.clone(),
            AdminApiError::BrokerError(m) => m.clone(),
            AdminApiError::DatabaseError(m) => m.clone(),
        }
    }

    /// The written form of the error, such as `Not found: <message>`.
    pub fn to_string(&self) -> (r: String)
        ensures
            r@ == error_text(*self),
    {
        match self {
            AdminApiError::NotFound(m) => concat("Not found: ", m.as_str()),
            AdminApiError::BadRequest(m) => concat("Bad request: ", m.as_str()),
            AdminApiError::Unauthorized(m) => concat("Unauthorized: ", m.as_str()),
            AdminApiError::Conflict(m) => concat("Conflict: ", m.as_str()),
            AdminApiError::InternalError(m) => concat("Internal error: ", m.as_str()),
            AdminApiError::BrokerError(m) => concat("Broker error: ", m.as_str()),
            AdminApiError::DatabaseError(m) => concat("Database error: ", m.as_str()),
        }
    }

    /// The body of the error's answer, stamped with `timestamp`.
    pub fn error_response_at(&self, timestamp: String) -> (r: ErrorResponse)
        ensures
            r.error@ == error_code_text(*self),
            r.code == error_status(*self),
            r.message@ == error_message(*self),
            r.timestamp == timestamp,
    {
        ErrorResponse { error: self.error_code(), code: self.status_code(), message: self.message(), timestamp }
    }
}

} // verus!
