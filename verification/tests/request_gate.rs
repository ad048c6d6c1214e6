use authflow::code::code_string;
use authflow::errors::AuthError;
use authflow::flows::{login, register_finish, register_start, verify_email};
use authflow::gate::{extract_token, gate};
use authflow::model::filter_user_record;
use authflow::store::UserStore;
use authflow::token::{encode_token, logout_cookie, TokenClaims};

const SECRET: &[u8] = b"test-signing-secret";
const NOW: u64 = 1_700_000_000;

fn verified_store_with_token() -> (UserStore, String) {
    let mut store = UserStore::new();
    let pending = register_start(&mut store, "A", "a@x.com", "p1", NOW).unwrap();
    register_finish(&mut store, pending.email.as_str(), pending.code).unwrap();
    verify_email(&mut store, code_string(pending.code).as_str()).unwrap();
    let token = login(&store, "a@x.com", "p1", SECRET, NOW).unwrap().token;
    (store, token)
}

#[test]
fn extract_prefers_cookie_then_bearer() {
    assert_eq!(extract_token(Some("abc"), None).as_deref(), Some("abc"));
    assert_eq!(
        extract_token(Some("abc"), Some("Bearer xyz")).as_deref(),
        Some("abc")
    );
    assert_eq!(extract_token(None, Some("Bearer xyz")).as_deref(), Some("xyz"));
    assert_eq!(extract_token(None, Some("Basic xyz")), None);
    assert_eq!(extract_token(None, Some("Bearer")), None);
    assert_eq!(extract_token(None, None), None);
}

#[test]
fn gate_admits_a_fresh_login_token() {
    let (store, token) = verified_store_with_token();
    let user = gate(&store, Some(token.as_str()), None, SECRET, NOW + 10)
        .expect("a fresh token admits");
    assert_eq!(user.email.as_str(), "a@x.com");
    assert_eq!(user.name.as_str(), "A");
    assert!(user.verified);

    // The outward view carries no password and no code.
    let filtered = filter_user_record(&user);
    assert_eq!(filtered.name.as_str(), "A");
    assert_eq!(filtered.email.as_str(), "a@x.com");
    assert!(filtered.verified);
    assert_eq!(filtered.created_at, NOW);

    // The same token admits through the bearer header too.
    let header = format!("Bearer {token}");
    assert!(gate(&store, None, Some(header.as_str()), SECRET, NOW + 10).is_ok());
}

#[test]
fn gate_rejects_a_missing_token() {
    let (store, _) = verified_store_with_token();
    let err = gate(&store, None, None, SECRET, NOW).unwrap_err();
    assert_eq!(err.0, AuthError::Unauthenticated);
    assert_eq!(err.0.status_code(), 401);
    assert_eq!(err.1, "You are not logged in, please provide a token");
}

#[test]
fn gate_rejects_a_bad_signature() {
    let (store, token) = verified_store_with_token();
    let err = gate(&store, Some(token.as_str()), None, b"other-secret", NOW).unwrap_err();
    assert_eq!(err.0, AuthError::Unauthenticated);
    assert_eq!(err.1, "You are not logged in");
    let garbage = gate(&store, Some("garbage"), None, SECRET, NOW).unwrap_err();
    assert_eq!(garbage.1, "You are not logged in");
}

#[test]
fn gate_rejects_an_expired_token() {
    let (store, token) = verified_store_with_token();
    let err = gate(&store, Some(token.as_str()), None, SECRET, NOW + 3601).unwrap_err();
    assert_eq!(err.0, AuthError::Unauthenticated);
    assert_eq!(err.1, "You are not logged in");
}

#[test]
fn gate_rejects_a_token_for_a_vanished_user() {
    let (_, token) = verified_store_with_token();
    let other_store = UserStore::new();
    let err = gate(&other_store, Some(token.as_str()), None, SECRET, NOW).unwrap_err();
    assert_eq!(err.0, AuthError::Unauthenticated);
    assert_eq!(err.1, "The user belonging to this token no longer exists");
}

#[test]
fn gate_rejects_an_unreferenced_subject() {
    let (store, _) = verified_store_with_token();
    let stray = TokenClaims { sub: 999, iat: NOW, exp: NOW + 3600 };
    let token = encode_token(&stray, SECRET);
    let err = gate(&store, Some(token.as_str()), None, SECRET, NOW).unwrap_err();
    assert_eq!(err.1, "The user belonging to this token no longer exists");
}

#[test]
fn logout_clears_the_cookie_but_cannot_revoke_the_token() {
    let (store, token) = verified_store_with_token();
    // Logout only tells the client to drop the cookie.
    assert_eq!(
        logout_cookie().as_str(),
        "token=; Path=/; Max-Age=-1; SameSite=Lax; HttpOnly"
    );
    // Sessions are stateless: a replayed token stays valid until its own
    // expiry. Expected behavior, not a defect — there is no server-side
    // revocation short of rotating the secret.
    let replay = gate(&store, Some(token.as_str()), None, SECRET, NOW + 60);
    assert!(replay.is_ok());
    // After the natural expiry the replay fails.
    assert!(gate(&store, Some(token.as_str()), None, SECRET, NOW + 3601).is_err());
}
