//! One-way password hashing and verification.
//!
//! Hashing salts every call from the operating system's randomness, so two
//! hashes of one password differ as strings, yet both verify against that
//! password: the salt and cost travel inside the 60-character hash and
//! verification recomputes the digest from them, comparing in constant
//! time.

use vstd::prelude::*;

use crate::error::AppError;

verus! {

/// A syntactically valid bcrypt hash that belongs to no user. Login
/// verifies absent users against it so that the latency of "no such user"
/// matches the latency of "wrong password".
pub const DUMMY_HASH: &'static str = "$2y$12$L6Bc/AlTQHyd9liGgGEZyOFLPHNgyxeEPfgYfBCVxJ7JIlwxyVU3u";

/// What `bcrypt::verify` returns for a password and a stored hash:
/// `Some(b)` where it returns `Ok(b)`, `None` where the stored hash is
/// malformed and it returns an error. It is a deterministic function of
/// its two arguments.
pub uninterp spec fn bcrypt_check(password: Seq<char>, stored: Seq<char>) -> Option<bool>;

/// Relies on `bcrypt::verify`: splits the stored hash into cost, salt and
/// digest, recomputes the digest from the password, and compares in
/// constant time. It errors only on a malformed stored hash, never on a
/// mismatch, and is deterministic in both arguments.
#[verifier::external_body]
fn bcrypt_verify(password: &str, stored: &str) -> (r: Result<bool, ()>)
    ensures
        r matches Ok(b) ==> bcrypt_check(password@, stored@) == Some(b),
        r is Err ==> bcrypt_check(password@, stored@) is None,
{
    match bcrypt::verify(password, stored) {
        Ok(b) => Ok(b),
        Err(_) => Err(()),
    }
}

/// Relies on `bcrypt::hash` with `DEFAULT_COST`: draws a fresh random
/// salt, so the result is a 60-character well-formed hash against which
/// `bcrypt::verify` returns `Ok(true)` for the same password. It fails
/// only when the operating system's randomness source fails.
#[verifier::external_body]
fn bcrypt_hash(password: &str) -> (r: Result<String, ()>)
    ensures
        r matches Ok(h) ==> bcrypt_check(password@, h@) == Some(true) && h@.len() == 60,
{
    match bcrypt::hash(password, bcrypt::DEFAULT_COST) {
        Ok(h) => Ok(h),
        Err(_) => Err(()),
    }
}

/// Hash a plaintext password with a fresh random salt.
///
/// On success the result is a self-describing 60-character hash, and
/// verifying the same password against it succeeds with `true`. The only
/// failure is `Internal`, when the randomness source fails.
pub fn hash_password(password: &str) -> (r: Result<String, AppError>)
    ensures
        r matches Ok(h) ==> bcrypt_check(password@, h@) == Some(true) && h@.len() == 60,
        r matches Err(e) ==> e == AppError::Internal,
{
    match bcrypt_hash(password) {
        Ok(h) => Ok(h),
        Err(_) => Err(AppError::Internal),
    }
}

/// Verify a plaintext password against a stored hash, in constant time.
///
/// Returns `Ok(false)` on a mismatch, and `Internal` only when the stored
/// hash itself is malformed: exactly when the underlying check can give
/// no verdict.
pub fn verify_password(password: &str, stored: &str) -> (r: Result<bool, AppError>)
    ensures
        r matches Ok(b) ==> bcrypt_check(password@, stored@) == Some(b),
        r matches Err(e) ==> e == AppError::Internal,
        r is Ok <==> bcrypt_check(password@, stored@) is Some,
{
    match bcrypt_verify(password, stored) {
        Ok(b) => Ok(b),
        Err(_) => Err(AppError::Internal),
    }
}

} // verus!
