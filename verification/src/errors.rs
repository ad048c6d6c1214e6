//! The closed error taxonomy of the account lifecycle, with its one-to-one
//! mapping to transport status codes. The flows themselves stay
//! transport-agnostic: each failure is the taxonomy kind paired with the
//! user-visible message.

use vstd::prelude::*;

verus! {

/// One kind for each way an operation is refused.
#[derive(Clone, Copy, Debug, PartialEq, Eq, Structural)]
pub enum AuthError {
    /// Duplicate email, or an already-verified account.
    Conflict,
    /// Unknown verification code.
    NotFound,
    /// Unknown email or wrong password at login.
    InvalidCredentials,
    /// Login attempted before email verification.
    Unverified,
    /// The request gate rejected the request.
    Unauthenticated,
    /// Store, hash, or token-signing failure.
    Internal,
}

impl AuthError {
    /// The HTTP status code each kind maps to.
    pub fn status_code(&self) -> (s: u16)
        ensures
            s == (match *self {
                AuthError::Conflict => 409u16,
                AuthError::NotFound => 401u16,
                AuthError::InvalidCredentials => 400u16,
                AuthError::Unverified => 400u16,
                AuthError::Unauthenticated => 401u16,
                AuthError::Internal => 500u16,
            }),
    {
        match self {
            AuthError::Conflict => 409,
            AuthError::NotFound => 401,
            AuthError::InvalidCredentials => 400,
            AuthError::Unverified => 400,
            AuthError::Unauthenticated => 401,
            AuthError::Internal => 500,
        }
    }

    /// The `status` word used in failure response bodies: server faults say
    /// "error", everything else "fail".
    pub fn status_word(&self) -> (r: &'static str)
        ensures
            (*self == AuthError::Internal ==> r@ == "error"@),
            (*self != AuthError::Internal ==> r@ == "fail"@),
    {
        match self {
            AuthError::Internal => "error",
            _ => "fail",
        }
    }
}

/// A failure as the flows report it: the taxonomy kind and the message the
/// client may see.
pub type Failure = (AuthError, &'static str);

} // verus!
