//! The compute half of the three endpoints: registration, login, and the
//! protected current-user lookup. The surrounding HTTP layer only parses
//! requests into the plain values these functions take and renders their
//! results; every decision is made and verified here.

use vstd::prelude::*;

use crate::error::AppError;
use crate::jwt::{create_token, spec_token_of, Claims};
use crate::password::bcrypt_check;
use crate::store::UserStore;
use crate::user::{spec_validate, CreateUser, LoginResponse, LoginUser, User, UserResponse};

verus! {

/// A minimal registration request shape: username and password only, for
/// deployments that register without an email address.
#[derive(Debug)]
pub struct RegisterRequest {
    pub username: String,
    pub password: String,
}

/// A minimal login request shape, mirroring `RegisterRequest`.
#[derive(Debug)]
pub struct LoginRequest {
    pub username: String,
    pub password: String,
}

/// A response carrying nothing but a freshly issued token.
#[derive(Debug)]
pub struct TokenResponse {
    pub token: String,
}

/// Register a new user: validate the request shape, hash the password,
/// insert the record. A shape violation answers exactly the field-level
/// validation error — and a validation error comes only from a real
/// shape violation; a taken username answers `DuplicateUser`. On a valid,
/// fresh request the only admitted failure is `Internal`, the randomness
/// source behind the salt. On success the store grows by one record
/// holding a 60-character hash that verifies the given password, and the
/// response mirrors the new record without the hash.
pub fn register(store: &mut UserStore, data: &CreateUser) -> (r: Result<UserResponse, AppError>)
    requires
        old(store).inv(),
    ensures
        final(store).inv(),
        (r is Err ==> final(store)@ == old(store)@),
        (spec_validate(data.username@, data.email@, data.password@) matches Err(e) ==> r == Err::<
            UserResponse,
            AppError,
        >(e)),
        (r matches Err(AppError::Validation(f)) ==> spec_validate(
            data.username@,
            data.email@,
            data.password@,
        ) == Err::<(), AppError>(AppError::Validation(f))),
        (spec_validate(data.username@, data.email@, data.password@) is Ok && (exists|i: int|
            0 <= i < old(store)@.len() && #[trigger] old(store)@[i].username@ == data.username@)
            ==> (r == Err::<UserResponse, AppError>(AppError::DuplicateUser) || r == Err::<
            UserResponse,
            AppError,
        >(AppError::Internal))),
        (spec_validate(data.username@, data.email@, data.password@) is Ok && (forall|i: int|
            0 <= i < old(store)@.len() ==> #[trigger] old(store)@[i].username@ != data.username@)
            ==> (r is Ok || r == Err::<UserResponse, AppError>(AppError::Internal))),
        (r matches Ok(resp) ==> spec_validate(data.username@, data.email@, data.password@) is Ok
            && final(store)@.len() == old(store)@.len() + 1 && (forall|i: int|
            0 <= i < old(store)@.len() ==> final(store)@[i] == old(store)@[i])
            && final(store)@.last().username@ == data.username@ && final(store)@.last().email@
            == data.email@ && bcrypt_check(data.password@, final(store)@.last().password@)
            == Some(true) && final(store)@.last().password@.len() == 60
            && resp.id == final(store)@.last().id && resp.username@ == data.username@
            && resp.email@ == data.email@
            && resp.created_at == final(store)@.last().created_at),
{
    if let Err(e) = data.validate() {
        return Err(e);
    }
    match User::create(store, data.username.as_str(), data.email.as_str(), data.password.as_str()) {
        Ok(u) => Ok(
            UserResponse { id: u.id, username: u.username, email: u.email, created_at: u.created_at },
        ),
        Err(e) => Err(e),
    }
}

/// Log a user in: authenticate the credentials and issue a fresh token
/// for the user's id. An unknown username and a wrong password answer
/// the same `InvalidCredentials`; matching credentials always succeed
/// (issuance cannot fail), and the response carries the matching record
/// without its hash, beside a token encoding that record's id under
/// `secret`.
pub fn login(store: &UserStore, credentials: &LoginUser, secret: &[u8]) -> (r: Result<
    LoginResponse,
    AppError,
>)
    requires
        store.inv(),
    ensures
        ((forall|i: int|
            0 <= i < store@.len() ==> #[trigger] store@[i].username@ != credentials.username@)
            ==> r == Err::<LoginResponse, AppError>(AppError::InvalidCredentials)),
        (forall|i: int|
            (0 <= i < store@.len() && #[trigger] store@[i].username@ == credentials.username@)
                ==> {
                &&& (bcrypt_check(credentials.password@, store@[i].password@) == Some(true) ==> (
                r matches Ok(resp) && resp.user.id == store@[i].id && resp.user.username@
                    == store@[i].username@ && resp.user.email@ == store@[i].email@
                    && resp.user.created_at == store@[i].created_at && (exists|e: int|
                    resp.token@ == spec_token_of(store@[i].id as int, e, secret@))))
                &&& (bcrypt_check(credentials.password@, store@[i].password@) == Some(false) ==> r
                    == Err::<LoginResponse, AppError>(AppError::InvalidCredentials))
                &&& (bcrypt_check(credentials.password@, store@[i].password@) is None ==> r
                    == Err::<LoginResponse, AppError>(AppError::Internal))
            }),
        (r matches Err(e) ==> e == AppError::InvalidCredentials || e == AppError::Internal),
{
    let user = match User::verify(
        store,
        credentials.username.as_str(),
        credentials.password.as_str(),
    ) {
        Ok(u) => u,
        Err(e) => {
            return Err(e);
        },
    };
    let token = match create_token(user.id, secret) {
        Ok(t) => t,
        Err(e) => {
            return Err(e);
        },
    };
    Ok(
        LoginResponse {
            token,
            user: UserResponse {
                id: user.id,
                username: user.username,
                email: user.email,
                created_at: user.created_at,
            },
        },
    )
}

/// The protected current-user endpoint: project the record whose id the
/// verified claims name. AuthGate has already authenticated the request;
/// a record missing for a verified id is an internal fault, not an
/// authentication failure.
pub fn me(store: &UserStore, claims: &Claims) -> (r: Result<UserResponse, AppError>)
    requires
        store.inv(),
    ensures
        ((forall|i: int| 0 <= i < store@.len() ==> #[trigger] store@[i].id != claims.sub) ==> r
            == Err::<UserResponse, AppError>(AppError::Internal)),
        (forall|i: int|
            (0 <= i < store@.len() && #[trigger] store@[i].id == claims.sub) ==> (
            r matches Ok(resp) && resp.id == claims.sub && resp.username@ == store@[i].username@
                && resp.email@ == store@[i].email@ && resp.created_at == store@[i].created_at)),
{
    proof {
        store.lemma_inv_unique();
    }
    match store.find_by_id(claims.sub) {
        None => Err(AppError::Internal),
        Some(u) => Ok(
            UserResponse {
                id: u.id,
                username: u.username.clone(),
                email: u.email.clone(),
                created_at: u.created_at,
            },
        ),
    }
}

} // verus!
