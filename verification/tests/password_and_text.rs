use authflow::code::code_string;
use authflow::password::{hash_password, verify_password};
use authflow::text::{ascii_lowercase, str_eq};

#[test]
fn hash_verifies_its_own_plaintext() {
    let hash = hash_password("p1").expect("hashing a short password succeeds");
    assert!(verify_password("p1", hash.as_str()));
}

#[test]
fn hash_rejects_a_wrong_plaintext() {
    let hash = hash_password("p1").expect("hashing a short password succeeds");
    assert!(!verify_password("p2", hash.as_str()));
    assert!(!verify_password("", hash.as_str()));
}

#[test]
fn hash_is_not_the_plaintext() {
    let hash = hash_password("p1").expect("hashing a short password succeeds");
    assert_ne!(hash.as_str(), "p1");
    assert!(hash.starts_with('$'));
}

#[test]
fn malformed_stored_hash_verifies_nothing() {
    assert!(!verify_password("p1", "not-a-phc-string"));
    assert!(!verify_password("p1", ""));
}

#[test]
fn ascii_lowercase_folds_letters_only() {
    assert_eq!(ascii_lowercase("A@X.Com").as_str(), "a@x.com");
    assert_eq!(ascii_lowercase("already lower 123").as_str(), "already lower 123");
    assert_eq!(ascii_lowercase("").as_str(), "");
    assert_eq!(ascii_lowercase("ABCXYZ").as_str(), "abcxyz");
}

#[test]
fn str_eq_compares_by_characters() {
    assert!(str_eq("abc", "abc"));
    assert!(!str_eq("abc", "abd"));
    assert!(!str_eq("abc", "abcd"));
    assert!(str_eq("", ""));
}

#[test]
fn code_string_renders_six_digits() {
    assert_eq!(code_string(123456).as_str(), "123456");
    assert_eq!(code_string(100000).as_str(), "100000");
    assert_eq!(code_string(999998).as_str(), "999998");
    assert_eq!(code_string(100203).as_str(), "100203");
}
