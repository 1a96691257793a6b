//! The error taxonomy of the authentication core, and its mapping to
//! boundary responses.
//!
//! Internal distinctions (which token check failed, which field was
//! rejected) are kept in the variants; `error_response` collapses them to
//! the small client-visible set of status codes, so that a client can
//! never learn why a token or a login attempt was rejected.

use vstd::prelude::*;

verus! {

/// A field-level registration validation failure.
#[derive(Clone, Copy, Debug, PartialEq, Eq, Structural)]
pub enum ValidationFault {
    /// The username is shorter than 3 or longer than 20 characters.
    UsernameLength,
    /// The email address is not well formed.
    EmailFormat,
    /// The password is shorter than 6 characters.
    PasswordLength,
}

/// Why a bearer token was rejected. The distinction is internal: the
/// boundary response is the same for all three.
#[derive(Clone, Copy, Debug, PartialEq, Eq, Structural)]
pub enum TokenError {
    /// Structurally invalid or undecodable input.
    MalformedToken,
    /// The signature does not match the recomputed value (tamper or wrong
    /// secret).
    BadSignature,
    /// The signature is valid but the embedded expiry is not in the future.
    Expired,
}

/// Every failure the authentication core can surface.
#[derive(Clone, Copy, Debug, PartialEq, Eq, Structural)]
pub enum AppError {
    /// Client input failed a shape constraint at registration.
    Validation(ValidationFault),
    /// A login attempt failed: unknown user and wrong password are merged
    /// on purpose, so the response does not reveal whether the username
    /// exists.
    InvalidCredentials,
    /// Registration conflicts with an existing username.
    DuplicateUser,
    /// A protected route was hit without a valid bearer token.
    Unauthenticated,
    /// A hashing or signing primitive failed, or the store is exhausted.
    Internal,
}

/// The HTTP status code that `error_response` owes for each variant.
pub open spec fn spec_status_of(e: AppError) -> u16 {
    match e {
        AppError::Validation(_) => 400,
        AppError::InvalidCredentials => 401,
        AppError::DuplicateUser => 409,
        AppError::Unauthenticated => 401,
        AppError::Internal => 500,
    }
}

/// The client-visible body text that `error_response` owes for each
/// variant. Deliberately generic: no internal detail reaches the client.
pub open spec fn spec_message_of(e: AppError) -> Seq<char> {
    match e {
        AppError::Validation(ValidationFault::UsernameLength) => "username must be between 3 and 20 characters"@,
        AppError::Validation(ValidationFault::EmailFormat) => "email address is not valid"@,
        AppError::Validation(ValidationFault::PasswordLength) => "password must be at least 6 characters"@,
        AppError::InvalidCredentials => "invalid username or password"@,
        AppError::DuplicateUser => "username already exists"@,
        AppError::Unauthenticated => "unauthorized"@,
        AppError::Internal => "internal server error"@,
    }
}

impl AppError {
    /// Render this error to the boundary: the HTTP status code and the
    /// generic client-visible message.
    pub fn error_response(&self) -> (r: (u16, String))
        ensures
            r.0 == spec_status_of(*self),
            r.1@ == spec_message_of(*self),
    {
        match self {
            AppError::Validation(ValidationFault::UsernameLength) => (
                400,
                "username must be between 3 and 20 characters".to_owned(),
            ),
            AppError::Validation(ValidationFault::EmailFormat) => (
                400,
                "email address is not valid".to_owned(),
            ),
            AppError::Validation(ValidationFault::PasswordLength) => (
                400,
                "password must be at least 6 characters".to_owned(),
            ),
            AppError::InvalidCredentials => (401, "invalid username or password".to_owned()),
            AppError::DuplicateUser => (409, "username already exists".to_owned()),
            AppError::Unauthenticated => (401, "unauthorized".to_owned()),
            AppError::Internal => (500, "internal server error".to_owned()),
        }
    }
}

} // verus!
