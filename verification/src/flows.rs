//! The account flows: registration (existence check, hash, create, issue
//! code, record code), login (lookup, verified check, password check, token
//! issue), and email verification (single-use code consumption).
//!
//! Registration is two-phase around the out-of-band dispatch of the code:
//! `register_start` creates the unverified record and hands back the code
//! and notification body; only after the caller has dispatched the
//! notification does `register_finish` record the code against the row. If
//! dispatch fails the code is never persisted.

use crate::code::{code_seq, code_string, gen_rand_num, CODE_MAX, CODE_MIN};
use crate::errors::{AuthError, Failure};
use crate::model::{user_wf, User};
use crate::password::{argon2_verifies, hash_password, verify_password};
use crate::store::{code_matches, UserStore};
use crate::text::{ascii_lowercase, lemma_lower_seq_idempotent, lower_seq};
use crate::token::{
    encode_token, login_cookie, login_cookie_seq, token_of, TokenClaims, TOKEN_MAX_AGE_SECONDS,
};
use vstd::prelude::*;

verus! {

/// The status text served by the health check.
pub fn health_message() -> (r: &'static str)
    ensures
        r@ == "Rust - User Registration and Email Verification using Axum, Postgres, and SQLX"@,
{
    "Rust - User Registration and Email Verification using Axum, Postgres, and SQLX"
}

/// The notification body that carries a freshly issued code.
pub open spec fn email_body_seq(code: int) -> Seq<char> {
    "Just checking to be sure you are the one. Please copy and paste the following code into the verification Code field. "@
        + code_seq(code)
}

/// The confirmation message naming the destination email.
pub open spec fn register_message_seq(email: Seq<char>) -> Seq<char> {
    "We sent an email with a verification code to "@ + email
}

/// What `register_start` hands back for the dispatch step.
#[derive(Debug)]
pub struct PendingRegistration {
    /// The folded destination address.
    pub email: String,
    /// The issued one-time code, not yet persisted.
    pub code: u32,
    /// The notification body embedding the code.
    pub email_body: String,
}

/// First phase of registration: fold the email, refuse a duplicate, hash
/// the password, create the unverified record without a code, and issue a
/// code for dispatch. The code is deliberately not persisted here. On a
/// fresh email success is owed for every password within the hash
/// scheme's byte bound.
pub fn register_start(
    store: &mut UserStore,
    name: &str,
    email: &str,
    password: &str,
    now: u64,
) -> (r: Result<PendingRegistration, Failure>)
    requires
        old(store).wf(),
        old(store).has_capacity(),
    ensures
        final(store).wf(),
        old(store).spec_has_email(lower_seq(email@)) ==> (r matches Err(e) && e.0
            == AuthError::Conflict && e.1@ == "User with that email already exists"@),
        !old(store).spec_has_email(lower_seq(email@)) ==> ((r matches Err(e) ==> e.0
            == AuthError::Internal && e.1@ == "Error while hashing password"@)),
        !old(store).spec_has_email(lower_seq(email@)) && password@.len() <= 0x3fffffff
            ==> r is Ok,
        r is Err ==> final(store).users@ == old(store).users@ && final(store).next_id == old(
            store,
        ).next_id,
        r matches Ok(p) ==> ({
            let u = final(store).users@.last();
            &&& !old(store).spec_has_email(lower_seq(email@))
            &&& p.email@ == lower_seq(email@)
            &&& CODE_MIN <= p.code < CODE_MAX
            &&& p.email_body@ == email_body_seq(p.code as int)
            &&& final(store).users@.len() == old(store).users@.len() + 1
            &&& final(store).users@.subrange(0, old(store).users@.len() as int) == old(
                store,
            ).users@
            &&& u.id == old(store).next_id
            &&& u.name@ == name@
            &&& u.email@ == lower_seq(email@)
            &&& argon2_verifies(password@, u.password@)
            &&& !u.verified
            &&& u.verification_code is None
            &&& u.created_at == Some(now)
            &&& u.updated_at == Some(now)
            &&& final(store).next_id == old(store).next_id + 1
        }),
{
    let email_lower = ascii_lowercase(email);
    proof {
        lemma_lower_seq_idempotent(email@);
    }
    if store.find_by_email(email_lower.as_str()).is_some() {
        return Err((AuthError::Conflict, "User with that email already exists"));
    }
    let hashed = match hash_password(password) {
        Some(h) => h,
        None => {
            return Err((AuthError::Internal, "Error while hashing password"));
        },
    };
    let code = gen_rand_num();
    let code_text = code_string(code);
    let mut email_body = String::from_str(
        "Just checking to be sure you are the one. Please copy and paste the following code into the verification Code field. ",
    );
    email_body.append(code_text.as_str());
    let name_owned = String::from_str(name);
    let destination = email_lower.clone();
    store.insert_user(name_owned, email_lower, hashed, now);
    proof {
        assert(store.users@.subrange(0, old(store).users@.len() as int) =~= old(store).users@);
    }
    Ok(PendingRegistration { email: destination, code, email_body })
}

/// Second phase of registration, run only after the notification was
/// dispatched: record the code against the row carrying the email. A
/// missing row is a store-level fault; a row that verified in between is a
/// conflict and stays untouched.
pub fn register_finish(store: &mut UserStore, email: &str, code: u32) -> (r: Result<
    String,
    Failure,
>)
    requires
        old(store).wf(),
        CODE_MIN <= code < CODE_MAX,
    ensures
        final(store).wf(),
        final(store).next_id == old(store).next_id,
        !old(store).spec_has_email(lower_seq(email@)) ==> (r matches Err(e) && e.0
            == AuthError::Internal && e.1@ == "Error updating user"@ && final(store).users@ == old(
            store,
        ).users@),
        forall|i: int|
            0 <= i < old(store).users@.len() && (#[trigger] old(store).users@[i]).email@
                == lower_seq(email@) ==> ({
                let u = old(store).users@[i];
                &&& (u.verified ==> (r matches Err(e) && e.0 == AuthError::Conflict && e.1@
                    == "User already verified"@ && final(store).users@ == old(store).users@))
                &&& (!u.verified ==> ({
                    &&& r matches Ok(m) && m@ == register_message_seq(u.email@)
                    &&& final(store).users@.len() == old(store).users@.len()
                    &&& (final(store).users@[i].verification_code matches Some(c) && c@
                        == code_seq(code as int))
                    &&& final(store).users@[i].id == u.id
                    &&& final(store).users@[i].name@ == u.name@
                    &&& final(store).users@[i].email@ == u.email@
                    &&& final(store).users@[i].password@ == u.password@
                    &&& !final(store).users@[i].verified
                    &&& forall|j: int|
                        0 <= j < old(store).users@.len() && j != i ==> final(store).users@[j]
                            == old(store).users@[j]
                }))
            }),
{
    let email_lower = ascii_lowercase(email);
    proof {
        lemma_lower_seq_idempotent(email@);
    }
    let i = match store.find_by_email(email_lower.as_str()) {
        Some(i) => i,
        None => {
            return Err((AuthError::Internal, "Error updating user"));
        },
    };
    if store.users[i].verified {
        return Err((AuthError::Conflict, "User already verified"));
    }
    let code_text = code_string(code);
    store.set_code(i, code_text);
    let mut message = String::from_str("We sent an email with a verification code to ");
    message.append(email_lower.as_str());
    Ok(message)
}

/// What a successful login hands back: the signed token, and the
/// `Set-Cookie` value that delivers it.
#[derive(Debug)]
pub struct LoginSuccess {
    pub token: String,
    pub cookie: String,
}

/// The login flow: fold and look up the email, refuse unverified accounts
/// before any password work, check the password, and issue a token that
/// expires one hour after `now`. Unknown email and wrong password are
/// indistinguishable to the caller.
pub fn login(store: &UserStore, email: &str, password: &str, secret: &[u8], now: u64) -> (r:
    Result<LoginSuccess, Failure>)
    requires
        store.wf(),
        now + TOKEN_MAX_AGE_SECONDS <= u64::MAX,
    ensures
        !store.spec_has_email(lower_seq(email@)) ==> (r matches Err(e) && e.0
            == AuthError::InvalidCredentials && e.1@ == "Invalid email or password"@),
        forall|i: int|
            0 <= i < store.users@.len() && (#[trigger] store.users@[i]).email@ == lower_seq(email@)
                ==> ({
                let u = store.users@[i];
                &&& (!u.verified ==> (r matches Err(e) && e.0 == AuthError::Unverified && e.1@
                    == "Please verify your email before you can log in"@))
                &&& (u.verified && !argon2_verifies(password@, u.password@) ==> (r matches Err(e)
                    && e.0 == AuthError::InvalidCredentials && e.1@
                    == "Invalid email or password"@))
                &&& (u.verified && argon2_verifies(password@, u.password@) ==> (r matches Ok(s)
                    && s.token@ == token_of(
                    u.id as int,
                    now as int,
                    now + TOKEN_MAX_AGE_SECONDS,
                    secret@,
                ) && s.cookie@ == login_cookie_seq(s.token@)))
            }),
        r matches Ok(s) ==> s.cookie@ == login_cookie_seq(s.token@),
{
    let email_lower = ascii_lowercase(email);
    let i = match store.find_by_email(email_lower.as_str()) {
        Some(i) => i,
        None => {
            return Err((AuthError::InvalidCredentials, "Invalid email or password"));
        },
    };
    if !store.users[i].verified {
        return Err((AuthError::Unverified, "Please verify your email before you can log in"));
    }
    if !verify_password(password, store.users[i].password.as_str()) {
        return Err((AuthError::InvalidCredentials, "Invalid email or password"));
    }
    let claims = TokenClaims {
        sub: store.users[i].id as i64,
        iat: now,
        exp: now + TOKEN_MAX_AGE_SECONDS,
    };
    let token = encode_token(&claims, secret);
    let cookie = login_cookie(token.as_str());
    Ok(LoginSuccess { token, cookie })
}

/// Whether `i` is the first record in `s` holding the pending code `code`.
pub open spec fn first_code_match(s: Seq<User>, code: Seq<char>, i: int) -> bool {
    &&& 0 <= i < s.len()
    &&& code_matches(s[i], code)
    &&& forall|j: int| 0 <= j < i ==> !code_matches(#[trigger] s[j], code)
}

/// The verification flow: the record holding the code flips to verified and
/// the code is cleared, in one step; an unknown code is refused, and a code
/// leading to an already-verified record is a conflict. The flip happens at
/// most once per record: a verified record is never selected by a nonempty
/// code again (see `lemma_verified_never_selected`).
pub fn verify_email(store: &mut UserStore, code: &str) -> (r: Result<&'static str, Failure>)
    requires
        old(store).wf(),
    ensures
        final(store).wf(),
        final(store).next_id == old(store).next_id,
        !old(store).spec_has_code(code@) ==> (r matches Err(e) && e.0 == AuthError::NotFound
            && e.1@ == "Invalid verification code or user doesn't exist"@ && final(store).users@
            == old(store).users@),
        forall|i: int|
            first_code_match(old(store).users@, code@, i) ==> ({
                let u = old(store).users@[i];
                &&& (u.verified ==> (r matches Err(e) && e.0 == AuthError::Conflict && e.1@
                    == "User already verified"@ && final(store).users@ == old(store).users@))
                &&& (!u.verified ==> ({
                    &&& r matches Ok(m) && m@ == "Email verified successfully"@
                    &&& final(store).users@.len() == old(store).users@.len()
                    &&& final(store).users@[i].verified
                    &&& (final(store).users@[i].verification_code matches Some(c) && c@.len()
                        == 0)
                    &&& final(store).users@[i].id == u.id
                    &&& final(store).users@[i].name@ == u.name@
                    &&& final(store).users@[i].email@ == u.email@
                    &&& final(store).users@[i].password@ == u.password@
                    &&& final(store).users@[i].created_at == u.created_at
                    &&& final(store).users@[i].updated_at == u.updated_at
                    &&& forall|j: int|
                        0 <= j < old(store).users@.len() && j != i ==> final(store).users@[j]
                            == old(store).users@[j]
                }))
            }),
{
    let i = match store.find_by_code(code) {
        Some(i) => i,
        None => {
            return Err((AuthError::NotFound, "Invalid verification code or user doesn't exist"));
        },
    };
    if store.users[i].verified {
        return Err((AuthError::Conflict, "User already verified"));
    }
    store.mark_verified(i);
    Ok("Email verified successfully")
}

/// Law: a verified record is never selected by any nonempty code, so the
/// false-to-true flip of `verify_email` happens at most once per record —
/// once consumed, neither the same code nor any other can reach it again.
pub proof fn lemma_verified_never_selected(s: Seq<User>, code: Seq<char>, i: int)
    requires
        forall|k: int| 0 <= k < s.len() ==> user_wf(#[trigger] s[k]),
        0 <= i < s.len(),
        s[i].verified,
        code.len() > 0,
    ensures
        !code_matches(s[i], code),
{
}

/// Law: a consumed code selects nothing afterwards. If the record at `i`
/// was the only one holding `code` and a successful verification cleared
/// it, leaving every other record unchanged, then no record holds `code`
/// any more: a second attempt with the same code finds nothing.
pub proof fn lemma_code_single_use(
    old_users: Seq<User>,
    new_users: Seq<User>,
    code: Seq<char>,
    i: int,
)
    requires
        code.len() > 0,
        first_code_match(old_users, code, i),
        forall|j: int|
            0 <= j < old_users.len() && j != i ==> !code_matches(#[trigger] old_users[j], code),
        new_users.len() == old_users.len(),
        (new_users[i].verification_code matches Some(c) && c@.len() == 0),
        forall|j: int| 0 <= j < old_users.len() && j != i ==> new_users[j] == old_users[j],
    ensures
        forall|j: int| 0 <= j < new_users.len() ==> !code_matches(#[trigger] new_users[j], code),
{
    assert forall|j: int| 0 <= j < new_users.len() implies !code_matches(
        new_users[j],
        code,
    ) by {
        if j != i {
            assert(new_users[j] == old_users[j]);
        }
    }
}

} // verus!
