//! The authentication gate: per-request interception of the
//! `Authorization` header.
//!
//! For each request AuthGate inspects the header, extracts the token
//! behind the `Bearer ` scheme prefix, verifies it, and either forwards
//! the verified claims to the downstream handler or rejects the request.
//! It holds nothing but the immutable process-wide secret: no state is
//! shared across requests, and the forwarded claims value is owned by the
//! one request that produced it.

use vstd::prelude::*;

use crate::clock::now_seconds;
use crate::error::TokenError;
use crate::jwt::{spec_decode, spec_verify_at, verify_token_at, Claims};

verus! {

/// Why a request was rejected. Internal detail for logging: the
/// boundary response is the same authentication failure either way.
#[derive(Clone, Copy, Debug, PartialEq, Eq, Structural)]
pub enum RejectReason {
    /// The header was absent or did not carry the `Bearer ` scheme.
    NoBearerHeader,
    /// The token behind the prefix failed verification.
    InvalidToken(TokenError),
}

/// AuthGate's verdict on one request: hand the verified claims to the
/// downstream handler, or short-circuit with an authentication failure.
#[derive(Clone, Copy, Debug, PartialEq, Eq, Structural)]
pub enum GateOutcome {
    /// Invoke the protected handler with these verified claims.
    Forwarded(Claims),
    /// Never invoke the handler; answer with an authentication failure.
    Rejected(RejectReason),
}

/// The scheme prefix a bearer header must start with.
pub open spec fn spec_bearer_prefix() -> Seq<char> {
    seq!['B', 'e', 'a', 'r', 'e', 'r', ' ']
}

/// The token substring behind the `Bearer ` prefix, or nothing when the
/// header does not carry that scheme.
pub open spec fn spec_bearer_token(header: Seq<char>) -> Option<Seq<char>> {
    if header.len() >= 7 && header.subrange(0, 7) == spec_bearer_prefix() {
        Some(header.subrange(7, header.len() as int))
    } else {
        None
    }
}

/// Extract the token behind the `Bearer ` scheme prefix of an
/// `Authorization` header value.
pub fn extract_bearer_token<'a>(header: &'a str) -> (r: Option<&'a str>)
    ensures
        (r matches Some(t) ==> spec_bearer_token(header@) == Some(t@)),
        (r is None ==> spec_bearer_token(header@) is None),
{
    let n = header.unicode_len();
    if n < 7 {
        return None;
    }
    if header.get_char(0) != 'B' || header.get_char(1) != 'e' || header.get_char(2) != 'a'
        || header.get_char(3) != 'r' || header.get_char(4) != 'e' || header.get_char(5) != 'r'
        || header.get_char(6) != ' ' {
        proof {
            assert(header@.subrange(0, 7) != spec_bearer_prefix()) by {
                if header@.subrange(0, 7) == spec_bearer_prefix() {
                    assert(header@[0] == 'B' && header@[1] == 'e' && header@[2] == 'a' && header@[3]
                        == 'r' && header@[4] == 'e' && header@[5] == 'r' && header@[6] == ' ');
                }
            }
        }
        return None;
    }
    let token = header.substring_char(7, n);
    proof {
        assert(header@.subrange(0, 7) =~= spec_bearer_prefix());
    }
    Some(token)
}

/// What the view of an optional header string is.
pub open spec fn spec_header_view(header: Option<&str>) -> Option<Seq<char>> {
    match header {
        Some(h) => Some(h@),
        None => None,
    }
}

/// AuthGate's verdict as a function of the header, the secret and the
/// clock reading: forward exactly the claims that verify out of a
/// `Bearer` header, reject everything else with the reason.
pub open spec fn spec_authorize(header: Option<Seq<char>>, secret: Seq<u8>, now: int) -> GateOutcome {
    match header {
        Some(h) => match spec_bearer_token(h) {
            Some(t) => match spec_verify_at(t, secret, now) {
                Ok(c) => GateOutcome::Forwarded(c),
                Err(e) => GateOutcome::Rejected(RejectReason::InvalidToken(e)),
            },
            None => GateOutcome::Rejected(RejectReason::NoBearerHeader),
        },
        None => GateOutcome::Rejected(RejectReason::NoBearerHeader),
    }
}

/// The authentication gate. It owns nothing but the immutable
/// process-wide secret, fixed at construction.
pub struct Auth {
    secret: Vec<u8>,
}

impl Auth {
    /// The secret this gate verifies against.
    pub closed spec fn spec_secret(&self) -> Seq<u8> {
        self.secret@
    }

    /// A gate that verifies against `secret`.
    pub fn new(secret: Vec<u8>) -> (a: Auth)
        ensures
            a.spec_secret() == secret@,
    {
        Auth { secret }
    }

    /// AuthGate's verdict on one request at clock reading `now`: exactly
    /// `spec_authorize`. The request is forwarded if and only if the
    /// header carries the `Bearer ` scheme and the token behind it
    /// verifies at `now`, and the forwarded claims are exactly the
    /// verified ones; in every other case the handler is never invoked.
    pub fn authorize_at(&self, header: Option<&str>, now: i64) -> (r: GateOutcome)
        ensures
            r == spec_authorize(spec_header_view(header), self.spec_secret(), now as int),
            (r matches GateOutcome::Forwarded(c) ==> (header matches Some(h)
                && spec_bearer_token(h@) matches Some(t) && spec_verify_at(
                t,
                self.spec_secret(),
                now as int,
            ) == Ok::<Claims, TokenError>(c))),
    {
        match header {
            None => GateOutcome::Rejected(RejectReason::NoBearerHeader),
            Some(h) => match extract_bearer_token(h) {
                None => GateOutcome::Rejected(RejectReason::NoBearerHeader),
                Some(t) => match verify_token_at(t, self.secret.as_slice(), now) {
                    Ok(c) => GateOutcome::Forwarded(c),
                    Err(e) => GateOutcome::Rejected(RejectReason::InvalidToken(e)),
                },
            },
        }
    }

    /// AuthGate's verdict on one request, reading the process clock. The
    /// verdict is the exact `spec_authorize` at some clock reading, so
    /// whatever the clock said, claims are forwarded only out of a
    /// `Bearer` header whose token's signature matches this gate's
    /// secret, and they are exactly the claims embedded in that token.
    pub fn authorize(&self, header: Option<&str>) -> (r: GateOutcome)
        ensures
            exists|n: int| r == spec_authorize(spec_header_view(header), self.spec_secret(), n),
            (r matches GateOutcome::Forwarded(c) ==> (header matches Some(h) && spec_bearer_token(
                h@,
            ) matches Some(t) && spec_decode(t, self.spec_secret()) == Ok::<
                (int, int),
                TokenError,
            >((c.sub as int, c.exp as int)))),
            (header is None ==> r == GateOutcome::Rejected(RejectReason::NoBearerHeader)),
    {
        let now = now_seconds();
        let r = self.authorize_at(header, now);
        proof {
            assert(r == spec_authorize(spec_header_view(header), self.spec_secret(), now as int));
        }
        r
    }
}

/// AuthGate forwards exactly when verification succeeds: its verdict is
/// `Forwarded(c)` if and only if the header is present, carries the
/// `Bearer ` scheme, and the token behind the prefix verifies at `now`
/// to exactly the claims `c`. For an absent header, a wrong scheme, or
/// any failing verification the verdict is a rejection, so the
/// downstream handler is never reached.
pub proof fn lemma_gate_forwards_iff(
    header: Option<Seq<char>>,
    secret: Seq<u8>,
    now: int,
    c: Claims,
)
    ensures
        spec_authorize(header, secret, now) == GateOutcome::Forwarded(c) <==> (
        header matches Some(h) && spec_bearer_token(h) matches Some(t) && spec_verify_at(
            t,
            secret,
            now,
        ) == Ok::<Claims, TokenError>(c)),
{
}

} // verus!
