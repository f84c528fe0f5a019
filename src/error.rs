//! The error taxonomy of the service and its single mapping to HTTP statuses.

use crate::guard::{ApiKeyError, AuthError, RoleError};
use vstd::prelude::*;

verus! {

/// Every failure a request can end in.
#[derive(PartialEq, Eq, Structural, Clone, Copy, Debug)]
pub enum ApiError {
    /// The input was malformed.
    ValidationFailure,
    /// A user or resource is absent.
    NotFound,
    /// A new code was asked for within the cooldown.
    RateLimited { retry_after_seconds: i64 },
    /// A code was submitted after its lifetime.
    Expired,
    /// Authentication failed.
    Unauthorized,
    /// Authenticated, but not allowed.
    Forbidden,
    /// A provider (email, geolocation, bank) failed.
    UpstreamFailure,
    /// The record store failed.
    StorageFailure,
}

/// The HTTP status of each failure.
pub open spec fn status_of(e: ApiError) -> u16 {
    match e {
        ApiError::ValidationFailure => 400,
        ApiError::NotFound => 404,
        ApiError::RateLimited { .. } => 429,
        ApiError::Expired => 401,
        ApiError::Unauthorized => 401,
        ApiError::Forbidden => 403,
        ApiError::UpstreamFailure => 500,
        ApiError::StorageFailure => 500,
    }
}

impl ApiError {
    /// The HTTP status of this failure.
    pub fn status_code(&self) -> (r: u16)
        ensures
            r == status_of(*self),
    {
        match self {
            ApiError::ValidationFailure => 400,
            ApiError::NotFound => 404,
            ApiError::RateLimited { .. } => 429,
            ApiError::Expired => 401,
            ApiError::Unauthorized => 401,
            ApiError::Forbidden => 403,
            ApiError::UpstreamFailure => 500,
            ApiError::StorageFailure => 500,
            }
    }

    /// The failure a refusal of the request guard stands for.
    pub fn from_auth(e: AuthError) -> (r: ApiError)
        ensures
            r == ApiError::Unauthorized,
    {
        ApiError::Unauthorized
    }

    /// The failure a refusal of the role check stands for.
    pub fn from_role(e: RoleError) -> (r: ApiError)
        ensures
            e == RoleError::Forbidden ==> r == ApiError::Forbidden,
            e == RoleError::Unauthorized ==> r == ApiError::Unauthorized,
    {
        match e {
            RoleError::Forbidden => ApiError::Forbidden,
            RoleError::Unauthorized => ApiError::Unauthorized,
        }
    }

    /// The failure a refusal of the API-key check stands for.
    pub fn from_api_key(e: ApiKeyError) -> (r: ApiError)
        ensures
            r == ApiError::Unauthorized,
    {
        ApiError::Unauthorized
    }
}

} // verus!
