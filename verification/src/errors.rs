//! Error taxonomy of the credential core.
//!
//! A structurally malformed request never reaches domain logic and is the
//! only source of `StructuralError`; everything else is a typed domain
//! outcome that the orchestrator maps to one outward class.

use vstd::prelude::*;

verus! {

/// A domain rule failed while parsing a credential: the email shape or the
/// password strength was rejected.
#[derive(Clone, Copy, Debug, PartialEq, Eq, Structural)]
pub struct ValidationError;

/// The request body had the wrong shape (missing field or wrong field type);
/// it is rejected before any domain check executes.
#[derive(Clone, Copy, Debug, PartialEq, Eq, Structural)]
pub struct StructuralError;

/// Failures of the user store.
#[derive(Clone, Copy, Debug, PartialEq, Eq, Structural)]
pub enum UserStoreError {
    /// `add` found the email already registered.
    UserAlreadyExists,
    /// `get` found no user under the email.
    UserNotFound,
    /// `validate` rejected the email/password pair; an absent user and a
    /// mismatching password map to this same value on purpose, so that the
    /// caller cannot enumerate registered emails.
    InvalidCredentials,
}

/// Failure of the two-factor code store: no pending challenge under the email.
#[derive(Clone, Copy, Debug, PartialEq, Eq, Structural)]
pub struct ChallengeNotFound;

/// Failures of token validation.
#[derive(Clone, Copy, Debug, PartialEq, Eq, Structural)]
pub enum TokenError {
    /// The token does not decode under the service secret.
    TokenMalformed,
    /// The token decodes but its expiry instant has passed.
    TokenExpired,
    /// The token decodes and is unexpired, but was revoked by a logout.
    TokenRevoked,
}

impl StructuralError {
    /// Outward status class of a structural rejection.
    pub fn status_code(&self) -> (s: u16)
        ensures
            s == 422,
    {
        422
    }
}

} // verus!
