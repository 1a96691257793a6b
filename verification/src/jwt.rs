//! Issuance and verification of signed, self-contained identity tokens.
//!
//! A token is an opaque string binding a subject id and an expiry under a
//! process-wide shared secret with a symmetric MAC. Signature checking is
//! the outside signing library's; the expiry rule — a token is good
//! strictly until its embedded `exp` — is this module's own verified
//! logic, so verification at a given clock reading is pinned exactly.

use vstd::prelude::*;

use crate::clock::now_seconds;
use crate::error::{AppError, TokenError};

verus! {

/// How long an issued token lives, in seconds: a fixed 24 hours.
pub const TOKEN_LIFETIME_SECONDS: i64 = 86400;

/// The identity claims embedded in a token: the subject's user id and the
/// unix timestamp at which the token stops being valid.
#[derive(Clone, Copy, Debug, PartialEq, Eq, Structural)]
pub struct Claims {
    /// The authenticated user's id.
    pub sub: i32,
    /// Expiry as unix seconds; the token is accepted while `exp > now`.
    pub exp: i64,
}

/// The token string that the outside signing library produces for a
/// subject, an expiry and a secret. Encoding is deterministic in the
/// three arguments, so the result has a name and contracts speak of it.
pub uninterp spec fn spec_token_of(sub: int, exp: int, secret: Seq<u8>) -> Seq<char>;

/// What decoding a token under a secret yields, with expiry checking left
/// out: the embedded `(sub, exp)` pair when the token is well formed and
/// its signature matches the secret, and otherwise which check failed.
/// Deterministic in both arguments; never `Expired`, which only the
/// verified expiry rule adds.
pub uninterp spec fn spec_decode(token: Seq<char>, secret: Seq<u8>) -> Result<(int, int), TokenError>;

/// Relies on `jsonwebtoken::encode` with the default HS256 header: the
/// token is a deterministic function of the claims and the secret, and
/// for a symmetric secret under that header the call cannot fail — the
/// key family matches the algorithm, serializing the fixed header and
/// the two-field payload cannot error, and the HMAC signer is
/// infallible. So the result is always present.
#[verifier::external_body]
fn encode_claims(sub: i32, exp: i64, secret: &[u8]) -> (r: Option<String>)
    ensures
        r is Some,
        r matches Some(t) ==> t@ == spec_token_of(sub as int, exp as int, secret@),
{
    let mut payload = serde_json::Map::new();
    payload.insert("sub".to_owned(), serde_json::Value::from(sub));
    payload.insert("exp".to_owned(), serde_json::Value::from(exp));
    jsonwebtoken::encode(
        &jsonwebtoken::Header::default(),
        &serde_json::Value::Object(payload),
        &jsonwebtoken::EncodingKey::from_secret(secret),
    )
    .ok()
}

/// Relies on `jsonwebtoken::decode` with expiry validation switched off:
/// it returns exactly the claims that `jsonwebtoken::encode` embedded
/// when the signature matches this secret, and a structurally invalid
/// token is told apart from a bad signature by the error kind. That a
/// token signed under a *different* secret is rejected is deliberately
/// not stated here: the MAC has equivalent keys (padding), so it is not
/// a fact of the outside code for every pair of byte sequences. The
/// tests exercise it for independent secrets.
#[verifier::external_body]
fn decode_claims(token: &str, secret: &[u8]) -> (r: Result<(i64, i64), TokenError>)
    ensures
        (r matches Ok(p) ==> spec_decode(token@, secret@) == Ok::<(int, int), TokenError>(
            (p.0 as int, p.1 as int),
        )),
        (r matches Err(e) ==> spec_decode(token@, secret@) == Err::<(int, int), TokenError>(e)
            && e != TokenError::Expired),
        (forall|s: int, e: int|
            #![trigger spec_token_of(s, e, secret@)]
            token@ == spec_token_of(s, e, secret@) && i32::MIN <= s <= i32::MAX && i64::MIN <= e
                <= i64::MAX ==> r == Ok::<(i64, i64), TokenError>((s as i64, e as i64))),
{
    let mut validation = jsonwebtoken::Validation::default();
    validation.validate_exp = false;
    validation.required_spec_claims.clear();
    let key = jsonwebtoken::DecodingKey::from_secret(secret);
    match jsonwebtoken::decode::<serde_json::Value>(token, &key, &validation) {
        Ok(d) => match (d.claims["sub"].as_i64(), d.claims["exp"].as_i64()) {
            (Some(s), Some(e)) => Ok((s, e)),
            _ => Err(TokenError::MalformedToken),
        },
        Err(e) if matches!(e.kind(), jsonwebtoken::errors::ErrorKind::InvalidSignature) => Err(TokenError::BadSignature),
        Err(_) => Err(TokenError::MalformedToken),
    }
}

/// The expiry a token issued at `now` carries: `now` plus the fixed
/// lifetime, saturating at the largest representable timestamp.
pub open spec fn spec_expiry(now: int) -> int {
    if now + TOKEN_LIFETIME_SECONDS as int <= i64::MAX as int {
        now + TOKEN_LIFETIME_SECONDS as int
    } else {
        i64::MAX as int
    }
}

impl Claims {
    /// The claims of a token issued at clock reading `now`: expiry is
    /// computed at issuance as `now` plus the fixed lifetime and never
    /// mutated afterwards.
    pub fn issued_at(user_id: i32, now: i64) -> (c: Claims)
        ensures
            c.sub == user_id,
            c.exp == spec_expiry(now as int),
    {
        let exp: i64 = if now <= i64::MAX - TOKEN_LIFETIME_SECONDS {
            now + TOKEN_LIFETIME_SECONDS
        } else {
            i64::MAX
        };
        Claims { sub: user_id, exp }
    }

    /// The claims of a token issued now, reading the process clock.
    pub fn new(user_id: i32) -> (c: Claims)
        ensures
            c.sub == user_id,
    {
        let now = now_seconds();
        Claims::issued_at(user_id, now)
    }
}

/// Issue a token for `user_id` at clock reading `now`, signed with
/// `secret` and carrying the fixed 24-hour expiry. Issuance cannot fail:
/// the result is exactly the encoding of those claims under that secret.
pub fn create_token_at(user_id: i32, secret: &[u8], now: i64) -> (r: Result<String, AppError>)
    ensures
        r is Ok,
        r matches Ok(t) ==> t@ == spec_token_of(
            user_id as int,
            spec_expiry(now as int),
            secret@,
        ),
{
    let claims = Claims::issued_at(user_id, now);
    match encode_claims(claims.sub, claims.exp, secret) {
        Some(t) => Ok(t),
        None => Err(AppError::Internal),
    }
}

/// Issue a token for `user_id` now, reading the process clock. Issuance
/// cannot fail, and whatever the clock said, the result is the encoding
/// of this subject with the expiry of some issuance instant under this
/// secret.
pub fn create_token(user_id: i32, secret: &[u8]) -> (r: Result<String, AppError>)
    ensures
        r is Ok,
        r matches Ok(t) ==> exists|n: int| t@ == spec_token_of(
            user_id as int,
            spec_expiry(n),
            secret@,
        ),
{
    let now = now_seconds();
    let r = create_token_at(user_id, secret, now);
    proof {
        assert(r matches Ok(t) ==> t@ == spec_token_of(
            user_id as int,
            spec_expiry(now as int),
            secret@,
        ));
    }
    r
}

/// What verifying a token at clock reading `now` yields: the decoded
/// claims when the signature matches and `exp > now`; otherwise the first
/// failed check, `Expired` only when the signature was good.
pub open spec fn spec_verify_at(token: Seq<char>, secret: Seq<u8>, now: int) -> Result<
    Claims,
    TokenError,
> {
    match spec_decode(token, secret) {
        Ok((s, e)) => {
            if !(i32::MIN <= s <= i32::MAX) || !(i64::MIN <= e <= i64::MAX) {
                Err(TokenError::MalformedToken)
            } else if e > now {
                Ok(Claims { sub: s as i32, exp: e as i64 })
            } else {
                Err(TokenError::Expired)
            }
        },
        Err(k) => Err(k),
    }
}

/// Verify `token` against `secret` at clock reading `now`.
///
/// The result is pinned exactly by `spec_verify_at`. In particular: a
/// token issued for subject `s` with expiry `e` under this secret
/// verifies to exactly those claims while `e > now` and is `Expired`
/// afterwards — and only a token whose signature was good can be
/// `Expired`.
pub fn verify_token_at(token: &str, secret: &[u8], now: i64) -> (r: Result<Claims, TokenError>)
    ensures
        r == spec_verify_at(token@, secret@, now as int),
        (forall|s: int, e: int|
            #![trigger spec_token_of(s, e, secret@)]
            token@ == spec_token_of(s, e, secret@) && i32::MIN <= s <= i32::MAX && i64::MIN <= e
                <= i64::MAX ==> r == (if e > now {
                Ok::<Claims, TokenError>(Claims { sub: s as i32, exp: e as i64 })
            } else {
                Err::<Claims, TokenError>(TokenError::Expired)
            })),
        r == Err::<Claims, TokenError>(TokenError::Expired) ==> spec_decode(token@, secret@) is Ok,
{
    match decode_claims(token, secret) {
        Ok((s, e)) => {
            if s < i32::MIN as i64 || s > i32::MAX as i64 {
                Err(TokenError::MalformedToken)
            } else if e > now {
                Ok(Claims { sub: s as i32, exp: e })
            } else {
                Err(TokenError::Expired)
            }
        },
        Err(k) => Err(k),
    }
}

/// Verify `token` against `secret` now, reading the process clock. The
/// result is the exact verification verdict at some clock reading, so
/// success is only ever granted to a token whose signature matches this
/// secret, and the returned claims are exactly the ones embedded in it.
pub fn verify_token(token: &str, secret: &[u8]) -> (r: Result<Claims, TokenError>)
    ensures
        exists|n: int| r == spec_verify_at(token@, secret@, n),
        r matches Ok(c) ==> spec_decode(token@, secret@) == Ok::<(int, int), TokenError>(
            (c.sub as int, c.exp as int),
        ),
{
    let now = now_seconds();
    let r = verify_token_at(token, secret, now);
    proof {
        assert(r == spec_verify_at(token@, secret@, now as int));
    }
    r
}

/// An expired token is rejected even though its signature is valid:
/// whenever decoding under the right secret yields claims whose expiry is
/// not after `now`, verification at `now` answers `Expired`, never
/// success.
pub proof fn lemma_expired_token_rejected(token: Seq<char>, secret: Seq<u8>, now: int)
    requires
        spec_decode(token, secret) matches Ok(p) && i64::MIN <= p.1 <= i64::MAX && p.1 <= now
            && i32::MIN <= p.0 <= i32::MAX,
    ensures
        spec_verify_at(token, secret, now) == Err::<Claims, TokenError>(TokenError::Expired),
{
}

} // verus!
