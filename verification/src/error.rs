//! The error taxonomy of the backend: every failure a route can report,
//! with the HTTP-equivalent status code each one carries.

use vstd::prelude::*;

use crate::validate::ValidationError;

verus! {

/// A request failure. Validation and ownership checks short-circuit a
/// request with the first of these found; persistence faults surface as
/// [`ApiError::Internal`] with no internal detail exposed.
#[derive(Clone, Debug, PartialEq)]
pub enum ApiError {
    /// The form or response does not exist, or its id is malformed.
    NotFound,
    /// The caller is not authenticated.
    Unauthorized,
    /// The caller is authenticated but is not the owner of the form.
    Forbidden,
    /// An account already exists for the given email address.
    Conflict,
    /// The email address supplied at registration or login is malformed.
    MalformedEmail,
    /// A submitted response failed answer validation.
    Validation(ValidationError),
    /// A persistence or serialization failure; detail stays server-side.
    Internal,
}

impl ApiError {
    /// The HTTP status equivalent of this failure.
    pub open spec fn status_spec(&self) -> u16 {
        match self {
            ApiError::NotFound => 404,
            ApiError::Unauthorized => 401,
            ApiError::Forbidden => 403,
            ApiError::Conflict => 409,
            ApiError::MalformedEmail => 422,
            ApiError::Validation(_) => 422,
            ApiError::Internal => 500,
        }
    }

    /// The HTTP status code this failure is reported with.
    pub fn status_code(&self) -> (c: u16)
        ensures
            c == self.status_spec(),
    {
        match self {
            ApiError::NotFound => 404,
            ApiError::Unauthorized => 401,
            ApiError::Forbidden => 403,
            ApiError::Conflict => 409,
            ApiError::MalformedEmail => 422,
            ApiError::Validation(_) => 422,
            ApiError::Internal => 500,
        }
    }
}

} // verus!
