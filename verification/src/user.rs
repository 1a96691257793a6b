//! The user model: stored records, registration and login payloads, the
//! response shapes that leave the password hash behind, and the shape
//! validation that guards registration.

use vstd::prelude::*;

use validator::ValidateEmail;

use crate::error::{AppError, ValidationFault};

verus! {

/// A stored user record. `password` holds the salted one-way hash, never
/// the plaintext; timestamps are unix seconds.
#[derive(Debug)]
pub struct User {
    pub id: i32,
    pub username: String,
    pub email: String,
    pub password: String,
    pub created_at: i64,
    pub updated_at: i64,
}

impl User {
    /// An owned copy of this record, equal to it field for field.
    pub fn duplicate(&self) -> (r: User)
        ensures
            r == *self,
    {
        User {
            id: self.id,
            username: self.username.clone(),
            email: self.email.clone(),
            password: self.password.clone(),
            created_at: self.created_at,
            updated_at: self.updated_at,
        }
    }
}

/// The registration request body.
#[derive(Debug)]
pub struct CreateUser {
    pub username: String,
    pub email: String,
    pub password: String,
}

/// The login request body.
#[derive(Debug)]
pub struct LoginUser {
    pub username: String,
    pub password: String,
}

/// The client-visible projection of a user: everything but the password
/// hash and the update timestamp.
#[derive(Debug)]
pub struct UserResponse {
    pub id: i32,
    pub username: String,
    pub email: String,
    pub created_at: i64,
}

/// The login response: the freshly issued token beside the user.
#[derive(Debug)]
pub struct LoginResponse {
    pub token: String,
    pub user: UserResponse,
}

/// What a user record projects to at the boundary.
pub open spec fn spec_user_response(u: User) -> UserResponse {
    UserResponse { id: u.id, username: u.username, email: u.email, created_at: u.created_at }
}

impl From<User> for UserResponse {
    fn from(user: User) -> (r: UserResponse) {
        UserResponse {
            id: user.id,
            username: user.username,
            email: user.email,
            created_at: user.created_at,
        }
    }
}

impl vstd::std_specs::convert::FromSpecImpl<User> for UserResponse {
    open spec fn obeys_from_spec() -> bool {
        true
    }

    open spec fn from_spec(u: User) -> UserResponse {
        spec_user_response(u)
    }
}

/// Whether the outside email check accepts `email`: a deterministic
/// function of the characters alone.
pub uninterp spec fn spec_email_valid(email: Seq<char>) -> bool;

/// Relies on `validator::ValidateEmail` for strings: the HTML5-style
/// email shape check, deterministic in its input; an empty string, or one
/// without `'@'`, is always rejected.
#[verifier::external_body]
fn email_valid(email: &str) -> (r: bool)
    ensures
        r == spec_email_valid(email@),
        email@.len() == 0 ==> r == false,
        !email@.contains('@') ==> r == false,
{
    email.validate_email()
}

/// The registration shape constraints, checked in order: username length
/// within 3..=20, a well-formed email, password at least 6 characters.
pub open spec fn spec_validate(
    username: Seq<char>,
    email: Seq<char>,
    password: Seq<char>,
) -> Result<(), AppError> {
    if !(3 <= username.len() <= 20) {
        Err(AppError::Validation(ValidationFault::UsernameLength))
    } else if !spec_email_valid(email) {
        Err(AppError::Validation(ValidationFault::EmailFormat))
    } else if password.len() < 6 {
        Err(AppError::Validation(ValidationFault::PasswordLength))
    } else {
        Ok(())
    }
}

impl CreateUser {
    /// Check the shape constraints of a registration request, reporting
    /// the first violated field.
    pub fn validate(&self) -> (r: Result<(), AppError>)
        ensures
            r == spec_validate(self.username@, self.email@, self.password@),
    {
        let ulen = self.username.as_str().unicode_len();
        if ulen < 3 || ulen > 20 {
            return Err(AppError::Validation(ValidationFault::UsernameLength));
        }
        if !email_valid(self.email.as_str()) {
            return Err(AppError::Validation(ValidationFault::EmailFormat));
        }
        if self.password.as_str().unicode_len() < 6 {
            return Err(AppError::Validation(ValidationFault::PasswordLength));
        }
        Ok(())
    }
}

} // verus!
