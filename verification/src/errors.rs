//! The error taxonomy, and the pure mapping from each category to the
//! transport status and user-facing message.

use vstd::prelude::*;

verus! {

/// A failure of the user store.
#[derive(PartialEq, Eq, Structural, Clone, Copy, Debug)]
pub enum DatabaseError {
    ServerError,
}

/// What a request can fail with, as surfaced to the caller: only a
/// category and a fixed message, never internal detail.
#[derive(PartialEq, Eq, Structural, Clone, Copy, Debug)]
pub enum ApiError {
    /// The client supplied an invite code with no matching owner.
    InvalidInviteCode,
    /// A store or internal failure.
    ServerError,
    /// The token is missing, invalid or expired, or its subject no longer
    /// resolves; token-service and guard failures are not distinguished.
    AuthenticationError,
}

impl ApiError {
    /// The HTTP status this category maps to.
    pub fn status_code(&self) -> (r: u16)
        ensures
            *self == ApiError::InvalidInviteCode ==> r == 400,
            *self == ApiError::ServerError ==> r == 500,
            *self == ApiError::AuthenticationError ==> r == 401,
    {
        match self {
            ApiError::InvalidInviteCode => 400,
            ApiError::ServerError => 500,
            ApiError::AuthenticationError => 401,
        }
    }

    /// The fixed user-facing message this category maps to.
    pub fn message(&self) -> (r: &'static str)
        ensures
            *self == ApiError::InvalidInviteCode ==> r@ == "Invalid invite code"@,
            *self == ApiError::ServerError ==> r@ == "Something went wrong"@,
            *self == ApiError::AuthenticationError ==> r@ == "Authentication failed"@,
    {
        match self {
            ApiError::InvalidInviteCode => "Invalid invite code",
            ApiError::ServerError => "Something went wrong",
            ApiError::AuthenticationError => "Authentication failed",
        }
    }
}

impl vstd::std_specs::convert::FromSpecImpl<DatabaseError> for ApiError {
    open spec fn obeys_from_spec() -> bool {
        true
    }

    open spec fn from_spec(v: DatabaseError) -> ApiError {
        ApiError::ServerError
    }
}

impl From<DatabaseError> for ApiError {
    fn from(value: DatabaseError) -> (r: Self)
        ensures
            r == ApiError::ServerError,
    {
        match value {
            DatabaseError::ServerError => ApiError::ServerError,
        }
    }
}

/// A failure of the token service.
#[derive(PartialEq, Eq, Structural, Clone, Copy, Debug)]
pub enum JWTError {
    GenerationFailed,
    DecodeFailed,
}

impl vstd::std_specs::convert::FromSpecImpl<JWTError> for ApiError {
    open spec fn obeys_from_spec() -> bool {
        true
    }

    open spec fn from_spec(v: JWTError) -> ApiError {
        ApiError::AuthenticationError
    }
}

impl From<JWTError> for ApiError {
    fn from(value: JWTError) -> (r: Self)
        ensures
            r == ApiError::AuthenticationError,
    {
        match value {
            JWTError::GenerationFailed => ApiError::AuthenticationError,
            JWTError::DecodeFailed => ApiError::AuthenticationError,
        }
    }
}

} // verus!
