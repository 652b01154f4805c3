//! The error taxonomy shared by every component-level operation. The
//! transport layer alone translates these tags into HTTP status codes.

use vstd::prelude::*;

verus! {

/// Why a component-level operation failed.
#[derive(Clone, Copy, Debug, PartialEq, Eq, Structural)]
pub enum ServiceError {
    /// Malformed input (a length constraint was violated).
    Validation,
    /// Missing, invalid or expired token, or bad credentials.
    Unauthenticated,
    /// Missing resource or ownership mismatch — deliberately conflated so
    /// that the existence of another owner's resource never leaks.
    NotFound,
    /// Duplicate username on sign-up.
    Conflict,
    /// Persistence or infrastructure failure.
    Internal,
}

impl ServiceError {
    /// The HTTP status code each error maps to at the transport boundary.
    /// A duplicate username maps to 401 rather than 409; the service keeps
    /// that (unusual) mapping deliberately.
    pub open spec fn status_spec(self) -> u16 {
        match self {
            ServiceError::Validation => 400,
            ServiceError::Unauthenticated => 401,
            ServiceError::NotFound => 404,
            ServiceError::Conflict => 401,
            ServiceError::Internal => 500,
        }
    }

    /// Translates the error tag into its HTTP status code.
    pub fn status(&self) -> (s: u16)
        ensures
            s == self.status_spec(),
    {
        match self {
            ServiceError::Validation => 400,
            ServiceError::Unauthenticated => 401,
            ServiceError::NotFound => 404,
            ServiceError::Conflict => 401,
            ServiceError::Internal => 500,
        }
    }
}

} // verus!
