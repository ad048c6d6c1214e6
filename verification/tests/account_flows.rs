use authflow::code::code_string;
use authflow::errors::AuthError;
use authflow::flows::{
    health_message, login, register_finish, register_start, verify_email,
};
use authflow::store::UserStore;

const SECRET: &[u8] = b"test-signing-secret";
const NOW: u64 = 1_700_000_000;

#[test]
fn register_sends_code_to_folded_email() {
    let mut store = UserStore::new();
    let pending = register_start(&mut store, "A", "a@x.com", "p1", NOW)
        .expect("first registration succeeds");
    assert_eq!(pending.email.as_str(), "a@x.com");
    assert!((100_000..999_999).contains(&pending.code));
    let code_text = code_string(pending.code);
    assert!(pending.email_body.as_str().ends_with(code_text.as_str()));

    let message = register_finish(&mut store, pending.email.as_str(), pending.code)
        .expect("recording the code succeeds");
    assert_eq!(
        message.as_str(),
        "We sent an email with a verification code to a@x.com"
    );
}

#[test]
fn register_same_email_again_conflicts() {
    let mut store = UserStore::new();
    register_start(&mut store, "A", "a@x.com", "p1", NOW).expect("first registration succeeds");
    let err = register_start(&mut store, "B", "A@X.COM", "p2", NOW)
        .expect_err("same email, differently cased, is a duplicate");
    assert_eq!(err.0, AuthError::Conflict);
    assert_eq!(err.0.status_code(), 409);
    assert_eq!(err.0.status_word(), "fail");
    assert_eq!(err.1, "User with that email already exists");
}

#[test]
fn register_finish_without_a_row_is_internal() {
    let mut store = UserStore::new();
    let err = register_finish(&mut store, "ghost@x.com", 123456)
        .expect_err("no row carries that email");
    assert_eq!(err.0, AuthError::Internal);
    assert_eq!(err.0.status_code(), 500);
    assert_eq!(err.0.status_word(), "error");
}

#[test]
fn login_before_verification_is_blocked() {
    let mut store = UserStore::new();
    let pending = register_start(&mut store, "A", "a@x.com", "p1", NOW).unwrap();
    register_finish(&mut store, pending.email.as_str(), pending.code).unwrap();

    let err = login(&store, "a@x.com", "p1", SECRET, NOW)
        .expect_err("unverified users cannot log in");
    assert_eq!(err.0, AuthError::Unverified);
    assert_eq!(err.0.status_code(), 400);
    assert_eq!(err.1, "Please verify your email before you can log in");

    // The same block comes regardless of password correctness.
    let err = login(&store, "a@x.com", "wrong", SECRET, NOW).unwrap_err();
    assert_eq!(err.0, AuthError::Unverified);
}

#[test]
fn login_with_unknown_email_or_wrong_password() {
    let mut store = UserStore::new();
    let pending = register_start(&mut store, "A", "a@x.com", "p1", NOW).unwrap();
    register_finish(&mut store, pending.email.as_str(), pending.code).unwrap();
    verify_email(&mut store, code_string(pending.code).as_str()).unwrap();

    let unknown = login(&store, "b@x.com", "p1", SECRET, NOW).unwrap_err();
    assert_eq!(unknown.0, AuthError::InvalidCredentials);
    assert_eq!(unknown.1, "Invalid email or password");

    let wrong = login(&store, "a@x.com", "p2", SECRET, NOW).unwrap_err();
    assert_eq!(wrong.0, AuthError::InvalidCredentials);
    // Unknown email and wrong password are indistinguishable.
    assert_eq!(unknown.1, wrong.1);
    assert_eq!(unknown.0.status_code(), wrong.0.status_code());
}

#[test]
fn verify_with_unknown_code_is_refused() {
    let mut store = UserStore::new();
    let err = verify_email(&mut store, "123456").expect_err("no user holds that code");
    assert_eq!(err.0, AuthError::NotFound);
    assert_eq!(err.0.status_code(), 401);
    assert_eq!(err.1, "Invalid verification code or user doesn't exist");
}

#[test]
fn verify_consumes_the_code_exactly_once() {
    let mut store = UserStore::new();
    let pending = register_start(&mut store, "A", "a@x.com", "p1", NOW).unwrap();
    register_finish(&mut store, pending.email.as_str(), pending.code).unwrap();
    let code_text = code_string(pending.code);

    let message = verify_email(&mut store, code_text.as_str()).expect("correct code verifies");
    assert_eq!(message, "Email verified successfully");

    // The flip happened once; the same code now selects nothing.
    let again = verify_email(&mut store, code_text.as_str()).unwrap_err();
    assert_eq!(again.0, AuthError::NotFound);

    // Verified users hold the cleared (empty) code, so the cleared marker
    // itself leads to the already-verified conflict.
    let cleared = verify_email(&mut store, "").unwrap_err();
    assert_eq!(cleared.0, AuthError::Conflict);
    assert_eq!(cleared.1, "User already verified");
    assert_eq!(cleared.0.status_code(), 409);
}

#[test]
fn login_after_verification_issues_a_token() {
    let mut store = UserStore::new();
    let pending = register_start(&mut store, "A", "a@x.com", "p1", NOW).unwrap();
    register_finish(&mut store, pending.email.as_str(), pending.code).unwrap();
    verify_email(&mut store, code_string(pending.code).as_str()).unwrap();

    let success = login(&store, "a@x.com", "p1", SECRET, NOW).expect("login succeeds");
    assert!(!success.token.is_empty());
    assert_eq!(
        success.cookie.as_str(),
        format!(
            "token={}; Path=/; Max-Age=3600; SameSite=Lax; HttpOnly",
            success.token
        )
        .as_str()
    );
}

#[test]
fn health_message_text() {
    assert_eq!(
        health_message(),
        "Rust - User Registration and Email Verification using Axum, Postgres, and SQLX"
    );
}
