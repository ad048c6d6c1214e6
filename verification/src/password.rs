//! Password hashing: a one-way, salted, memory-hard hash with verification.
//!
//! Both operations call into argon2. Whether a plaintext matches a stored
//! hash string is a deterministic function of the two arguments alone, so it
//! is given the name `argon2_verifies`; the contracts of the whole login flow
//! are stated over that name.

use argon2::PasswordHasher;
use argon2::PasswordVerifier;
use vstd::prelude::*;

verus! {

/// Whether argon2 accepts `password` against the PHC hash string `phc`:
/// true exactly when re-hashing the password under the salt and parameters
/// embedded in `phc` reproduces its hash output.
pub uninterp spec fn argon2_verifies(password: Seq<char>, phc: Seq<char>) -> bool;

/// Relies on argon2's `PasswordHasher::hash_password` with a freshly drawn
/// random salt: on success the result is a PHC string (these begin with '$')
/// that verifies against the same password, whatever salt was drawn.
///
/// Under the default parameters the one data-dependent failure is a
/// password longer than 0xFFFFFFFF bytes; a character is at most four
/// bytes, so success is owed whenever the password has at most 0x3fffffff
/// characters.
#[verifier::external_body]
pub fn hash_password(password: &str) -> (r: Option<String>)
    ensures
        r matches Some(h) ==> argon2_verifies(password@, h@) && h@.len() > 0 && h@[0] == '$',
        password@.len() <= 0x3fffffff ==> r is Some,
{
    let salt = argon2::password_hash::SaltString::generate(
        &mut argon2::password_hash::rand_core::OsRng,
    );
    match argon2::Argon2::default().hash_password(password.as_bytes(), &salt) {
        Ok(h) => Some(h.to_string()),
        Err(_) => None,
    }
}

/// Relies on argon2's `PasswordVerifier::verify_password`, which re-hashes
/// the password under the salt and parameters embedded in the stored string
/// and compares; a string that does not parse as a PHC hash verifies nothing.
#[verifier::external_body]
pub fn verify_password(password: &str, phc: &str) -> (r: bool)
    ensures
        r == argon2_verifies(password@, phc@),
{
    match argon2::PasswordHash::new(phc) {
        Ok(parsed) => {
            argon2::Argon2::default().verify_password(password.as_bytes(), &parsed).is_ok()
        },
        Err(_) => false,
    }
}

/// A hash string produced by `hash_password` is never the plaintext it was
/// made from, for any plaintext that is not itself shaped like a PHC string.
pub proof fn lemma_hash_not_plaintext(password: Seq<char>, phc: Seq<char>)
    requires
        phc.len() > 0,
        phc[0] == '$',
        password.len() == 0 || password[0] != '$',
    ensures
        phc != password,
{
    if phc == password {
        assert(password.len() > 0 && password[0] == '$');
    }
}

} // verus!
