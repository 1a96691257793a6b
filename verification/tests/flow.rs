//! The end-to-end flow: register, log in, hit the protected endpoint
//! with and without a good token, and register the same name again.

use orbiter_auth::error::{AppError, ValidationFault};
use orbiter_auth::gate::{Auth, GateOutcome, RejectReason};
use orbiter_auth::handlers::{login, me, register};
use orbiter_auth::store::UserStore;
use orbiter_auth::user::{CreateUser, LoginUser};

const SECRET: &[u8] = b"process-wide-secret";

fn alice() -> CreateUser {
    CreateUser {
        username: "alice".to_string(),
        email: "alice@example.com".to_string(),
        password: "secret123".to_string(),
    }
}

#[test]
fn register_login_me_roundtrip() {
    let mut store = UserStore::new();
    let gate = Auth::new(SECRET.to_vec());

    // register -> created
    let created = register(&mut store, &alice()).unwrap();
    assert_eq!(created.username, "alice");
    assert_eq!(created.email, "alice@example.com");

    // login with the same credentials -> token and user
    let session = login(
        &store,
        &LoginUser { username: "alice".to_string(), password: "secret123".to_string() },
        SECRET,
    )
    .unwrap();
    assert_eq!(session.user.id, created.id);
    assert_eq!(session.user.username, "alice");

    // the protected endpoint with that token -> alice
    let header = format!("Bearer {}", session.token);
    let claims = match gate.authorize(Some(&header)) {
        GateOutcome::Forwarded(claims) => claims,
        other => panic!("expected Forwarded, got {other:?}"),
    };
    assert_eq!(claims.sub, created.id);
    let profile = me(&store, &claims).unwrap();
    assert_eq!(profile.username, "alice");
    assert_eq!(profile.email, "alice@example.com");

    // no header -> authentication failure, handler never reached
    let rejected = gate.authorize(None);
    assert_eq!(rejected, GateOutcome::Rejected(RejectReason::NoBearerHeader));

    // a tampered token -> authentication failure
    let mut tampered = session.token.clone();
    let dot = tampered.find('.').unwrap();
    let target = dot + 1;
    let original = tampered.as_bytes()[target];
    let replacement = if original == b'A' { b'B' } else { b'A' };
    // splice one altered payload byte back in
    tampered.replace_range(target..target + 1, std::str::from_utf8(&[replacement]).unwrap());
    let tampered_header = format!("Bearer {tampered}");
    assert!(matches!(
        gate.authorize(Some(&tampered_header)),
        GateOutcome::Rejected(RejectReason::InvalidToken(_))
    ));

    // registering alice again -> conflict
    let again = register(&mut store, &alice());
    assert_eq!(again.err(), Some(AppError::DuplicateUser));
}

#[test]
fn login_failures_are_merged() {
    let mut store = UserStore::new();
    register(&mut store, &alice()).unwrap();

    let wrong_password = login(
        &store,
        &LoginUser { username: "alice".to_string(), password: "secret124".to_string() },
        SECRET,
    );
    assert_eq!(wrong_password.err(), Some(AppError::InvalidCredentials));

    let unknown_user = login(
        &store,
        &LoginUser { username: "bob".to_string(), password: "secret123".to_string() },
        SECRET,
    );
    assert_eq!(unknown_user.err(), Some(AppError::InvalidCredentials));
}

#[test]
fn invalid_registration_is_rejected_with_field_errors() {
    let mut store = UserStore::new();
    let mut bad = alice();
    bad.password = "12345".to_string();
    let r = register(&mut store, &bad);
    assert_eq!(r.unwrap_err().error_response().0, 400);
    assert_eq!(store.len(), 0);
}

#[test]
fn me_with_unknown_subject_is_internal() {
    let store = UserStore::new();
    let claims = orbiter_auth::jwt::Claims { sub: 12, exp: i64::MAX };
    assert_eq!(me(&store, &claims).err(), Some(AppError::Internal));
}

#[test]
fn error_responses_collapse_to_boundary_codes() {
    assert_eq!(AppError::Validation(ValidationFault::EmailFormat).error_response().0, 400);
    assert_eq!(AppError::InvalidCredentials.error_response().0, 401);
    assert_eq!(AppError::DuplicateUser.error_response().0, 409);
    assert_eq!(AppError::Unauthenticated.error_response().0, 401);
    assert_eq!(AppError::Internal.error_response().0, 500);
    assert_eq!(
        AppError::Unauthenticated.error_response().1,
        "unauthorized".to_string()
    );
}
