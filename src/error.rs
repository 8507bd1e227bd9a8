//! The error kinds of the authentication core and their HTTP statuses.

use vstd::prelude::*;

verus! {

/// The outcomes of the authentication core other than success.
#[derive(Clone, Copy, Debug, PartialEq, Eq, Structural)]
pub enum AuthError {
    /// A unique key (the email) is already taken.
    Conflict,
    /// The account does not exist.
    NotFound,
    /// A credential, token or passcode was not accepted.
    Unauthorized,
    /// The credential is valid but the account is not verified yet.
    Forbidden,
    /// The passcode matched but its lifetime is over.
    Expired,
    /// The operation is not legal in the account's verification state.
    InvalidState,
    /// Storage or a downstream dependency failed.
    Internal,
}

/// The HTTP status that each error kind is reported with.
pub open spec fn status_of(e: AuthError) -> u16 {
    match e {
        AuthError::Conflict => 409,
        AuthError::NotFound => 404,
        AuthError::Unauthorized => 401,
        AuthError::Forbidden => 403,
        AuthError::Expired => 410,
        AuthError::InvalidState => 400,
        AuthError::Internal => 500,
    }
}

impl AuthError {
    /// The HTTP status code of this error.
    pub fn status_code(&self) -> (r: u16)
        ensures
            r == status_of(*self),
    {
        match self {
            AuthError::Conflict => 409,
            AuthError::NotFound => 404,
            AuthError::Unauthorized => 401,
            AuthError::Forbidden => 403,
            AuthError::Expired => 410,
            AuthError::InvalidState => 400,
            AuthError::Internal => 500,
        }
    }
}

} // verus!
