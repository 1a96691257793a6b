use orbiter_auth::error::{AppError, ValidationFault};
use orbiter_auth::user::CreateUser;

fn request(username: &str, email: &str, password: &str) -> CreateUser {
    CreateUser {
        username: username.to_string(),
        email: email.to_string(),
        password: password.to_string(),
    }
}

#[test]
fn well_formed_request_passes() {
    assert_eq!(request("alice", "alice@example.com", "secret123").validate(), Ok(()));
}

#[test]
fn username_length_bounds() {
    let e = Err(AppError::Validation(ValidationFault::UsernameLength));
    assert_eq!(request("ab", "a@example.com", "secret123").validate(), e);
    assert_eq!(request("", "a@example.com", "secret123").validate(), e);
    assert_eq!(
        request("abcdefghijklmnopqrstu", "a@example.com", "secret123").validate(),
        e
    );
    assert_eq!(request("abc", "a@example.com", "secret123").validate(), Ok(()));
    assert_eq!(
        request("abcdefghijklmnopqrst", "a@example.com", "secret123").validate(),
        Ok(())
    );
}

#[test]
fn email_shape_is_checked() {
    let e = Err(AppError::Validation(ValidationFault::EmailFormat));
    assert_eq!(request("alice", "", "secret123").validate(), e);
    assert_eq!(request("alice", "no-at-sign", "secret123").validate(), e);
    assert_eq!(request("alice", "a@b@c d", "secret123").validate(), e);
}

#[test]
fn password_minimum_length() {
    let e = Err(AppError::Validation(ValidationFault::PasswordLength));
    assert_eq!(request("alice", "a@example.com", "12345").validate(), e);
    assert_eq!(request("alice", "a@example.com", "").validate(), e);
    assert_eq!(request("alice", "a@example.com", "123456").validate(), Ok(()));
}

#[test]
fn checks_run_in_field_order() {
    // username violation is reported before the email one
    assert_eq!(
        request("", "", "").validate(),
        Err(AppError::Validation(ValidationFault::UsernameLength))
    );
    assert_eq!(
        request("alice", "", "").validate(),
        Err(AppError::Validation(ValidationFault::EmailFormat))
    );
}
