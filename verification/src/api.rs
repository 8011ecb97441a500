//! The error taxonomy the API surface reports to clients, with the wire
//! name of each variant.

use vstd::prelude::*;

verus! {

/// An error reported to an API client.
#[derive(Debug, Clone, Copy, PartialEq, Eq, Structural)]
pub enum ApiError {
    UserNotFound,
    InvalidCredentials,
    InsufficientPermissions,
    ValidationFailed,
    InternalServerError,
}

/// The wire name of an API error.
pub open spec fn api_error_name(e: ApiError) -> Seq<char> {
    match e {
        ApiError::UserNotFound => "user_not_found"@,
        ApiError::InvalidCredentials => "invalid_credentials"@,
        ApiError::InsufficientPermissions => "insufficient_permissions"@,
        ApiError::ValidationFailed => "validation_failed"@,
        ApiError::InternalServerError => "internal_server_error"@,
    }
}

impl ApiError {
    /// The wire name of this error.
    pub fn as_str(&self) -> (r: &'static str)
        ensures
            r@ == api_error_name(*self),
    {
        match self {
            ApiError::UserNotFound => "user_not_found",
            ApiError::InvalidCredentials => "invalid_credentials",
            ApiError::InsufficientPermissions => "insufficient_permissions",
            ApiError::ValidationFailed => "validation_failed",
            ApiError::InternalServerError => "internal_server_error",
        }
    }
}

} // verus!
