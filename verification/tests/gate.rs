use orbiter_auth::error::TokenError;
use orbiter_auth::gate::{extract_bearer_token, Auth, GateOutcome, RejectReason};
use orbiter_auth::jwt::{create_token_at, TOKEN_LIFETIME_SECONDS};

const SECRET: &[u8] = b"gate-secret";

fn gate() -> Auth {
    Auth::new(SECRET.to_vec())
}

#[test]
fn bearer_extraction() {
    assert_eq!(extract_bearer_token("Bearer abc.def.ghi"), Some("abc.def.ghi"));
    assert_eq!(extract_bearer_token("Bearer "), Some(""));
    assert_eq!(extract_bearer_token("Bearer"), None);
    assert_eq!(extract_bearer_token("bearer abc"), None);
    assert_eq!(extract_bearer_token("Basic abc"), None);
    assert_eq!(extract_bearer_token(""), None);
    assert_eq!(extract_bearer_token("BearerX"), None);
}

#[test]
fn absent_header_is_rejected() {
    assert_eq!(
        gate().authorize_at(None, 1_000),
        GateOutcome::Rejected(RejectReason::NoBearerHeader)
    );
    assert_eq!(
        gate().authorize(None),
        GateOutcome::Rejected(RejectReason::NoBearerHeader)
    );
}

#[test]
fn wrong_scheme_is_rejected() {
    let token = create_token_at(1, SECRET, 1_000).unwrap();
    let header = format!("Basic {token}");
    assert_eq!(
        gate().authorize_at(Some(&header), 1_000),
        GateOutcome::Rejected(RejectReason::NoBearerHeader)
    );
}

#[test]
fn garbage_token_is_rejected_without_reaching_the_handler() {
    let r = gate().authorize_at(Some("Bearer garbage"), 1_000);
    assert_eq!(
        r,
        GateOutcome::Rejected(RejectReason::InvalidToken(TokenError::MalformedToken))
    );
}

#[test]
fn valid_token_is_forwarded_with_its_claims() {
    let token = create_token_at(42, SECRET, 1_000).unwrap();
    let header = format!("Bearer {token}");
    match gate().authorize_at(Some(&header), 1_000) {
        GateOutcome::Forwarded(claims) => {
            assert_eq!(claims.sub, 42);
            assert_eq!(claims.exp, 1_000 + TOKEN_LIFETIME_SECONDS);
        }
        other => panic!("expected Forwarded, got {other:?}"),
    }
}

#[test]
fn expired_token_is_rejected() {
    let token = create_token_at(42, SECRET, 1_000).unwrap();
    let header = format!("Bearer {token}");
    assert_eq!(
        gate().authorize_at(Some(&header), 1_000 + TOKEN_LIFETIME_SECONDS),
        GateOutcome::Rejected(RejectReason::InvalidToken(TokenError::Expired))
    );
}

#[test]
fn wrong_secret_token_is_rejected_as_bad_signature() {
    let token = create_token_at(42, b"some other secret", 1_000).unwrap();
    let header = format!("Bearer {token}");
    assert_eq!(
        gate().authorize_at(Some(&header), 1_000),
        GateOutcome::Rejected(RejectReason::InvalidToken(TokenError::BadSignature))
    );
}
