use orbiter_auth::error::AppError;
use orbiter_auth::password::{hash_password, verify_password, DUMMY_HASH};

#[test]
fn hash_then_verify_succeeds() {
    let h = hash_password("secret123").unwrap();
    assert_eq!(verify_password("secret123", &h), Ok(true));
}

#[test]
fn wrong_password_fails() {
    let h = hash_password("secret123").unwrap();
    assert_eq!(verify_password("secret124", &h), Ok(false));
    assert_eq!(verify_password("", &h), Ok(false));
    assert_eq!(verify_password("Secret123", &h), Ok(false));
}

#[test]
fn two_hashes_differ_but_both_verify() {
    let h1 = hash_password("secret123").unwrap();
    let h2 = hash_password("secret123").unwrap();
    assert_ne!(h1, h2);
    assert_eq!(verify_password("secret123", &h1), Ok(true));
    assert_eq!(verify_password("secret123", &h2), Ok(true));
}

#[test]
fn hash_is_sixty_chars() {
    let h = hash_password("pw").unwrap();
    assert_eq!(h.chars().count(), 60);
}

#[test]
fn malformed_stored_hash_is_internal_error() {
    assert_eq!(verify_password("pw", "not-a-hash"), Err(AppError::Internal));
    assert_eq!(verify_password("pw", ""), Err(AppError::Internal));
}

#[test]
fn dummy_hash_is_well_formed_and_matches_nothing_likely() {
    assert_eq!(verify_password("some password", DUMMY_HASH), Ok(false));
}

#[test]
fn passwords_are_truncated_at_72_bytes() {
    // the underlying primitive only reads the first 72 bytes, so two
    // passwords sharing that prefix verify against each other's hashes
    let p72: String = "x".repeat(72);
    let p73: String = format!("{p72}y");
    let h = hash_password(&p72).unwrap();
    assert_eq!(verify_password(&p73, &h), Ok(true));
    // below the boundary a one-character difference is detected
    let p71: String = "x".repeat(71);
    let h71 = hash_password(&p71).unwrap();
    assert_eq!(verify_password(&format!("{p71}y"), &h71), Ok(false));
}
