//! The identity records and request/response shapes of the account
//! lifecycle.
//!
//! A `User` carries its email already folded to lowercase, a password hash
//! that is a hash-scheme output (never the plaintext), and a one-time
//! verification code that is cleared — set empty — exactly when
//! verification succeeds.

use crate::text::lower_seq;
use vstd::prelude::*;

verus! {

/// A stored identity record.
#[derive(Debug)]
pub struct User {
    /// Unique id, assigned by the store on creation.
    pub id: i32,
    pub name: String,
    /// Folded to lowercase at every write; unique across all users.
    pub email: String,
    /// The password hash (a PHC string), never the plaintext.
    pub password: String,
    /// Seconds since the Unix epoch, set by the store.
    pub created_at: Option<u64>,
    /// Seconds since the Unix epoch, set by the store.
    pub updated_at: Option<u64>,
    /// Initially false; flips to true exactly once, via verification.
    pub verified: bool,
    /// The pending one-time code; empty once consumed, absent before issue.
    pub verification_code: Option<String>,
}

/// Well-formedness of one record: email folded, password a hash-scheme
/// output, timestamps set, and the code field consistent with the verified
/// flag — a verified user holds exactly the cleared (empty) code, an
/// unverified user never does.
pub open spec fn user_wf(u: User) -> bool {
    &&& u.email@ == lower_seq(u.email@)
    &&& u.password@.len() > 0 && u.password@[0] == '$'
    &&& u.created_at is Some
    &&& u.updated_at is Some
    &&& (u.verified ==> (u.verification_code matches Some(c) && c@.len() == 0))
    &&& (!u.verified ==> (u.verification_code matches Some(c) ==> c@.len() > 0))
}

/// Two records that agree on every field, up to string views.
pub open spec fn user_views_eq(a: User, b: User) -> bool {
    &&& a.id == b.id
    &&& a.name@ == b.name@
    &&& a.email@ == b.email@
    &&& a.password@ == b.password@
    &&& a.created_at == b.created_at
    &&& a.updated_at == b.updated_at
    &&& a.verified == b.verified
    &&& (a.verification_code is Some <==> b.verification_code is Some)
    &&& (a.verification_code matches Some(c) ==> (b.verification_code matches Some(d) && c@
        == d@))
}

impl User {
    /// A field-for-field copy of this record.
    pub fn duplicate(&self) -> (r: User)
        ensures
            user_views_eq(*self, r),
    {
        let verification_code = match &self.verification_code {
            Some(c) => Some(c.clone()),
            None => None,
        };
        User {
            id: self.id,
            name: self.name.clone(),
            email: self.email.clone(),
            password: self.password.clone(),
            created_at: self.created_at,
            updated_at: self.updated_at,
            verified: self.verified,
            verification_code,
        }
    }
}

/// The registration request body.
#[derive(Debug)]
pub struct RegisterUserSchema {
    pub name: String,
    pub email: String,
    pub password: String,
}

/// The login request body.
#[derive(Debug)]
pub struct LoginUserSchema {
    pub email: String,
    pub password: String,
}

/// The outward-facing view of a user: no password, no verification code.
#[derive(Debug)]
pub struct FilteredUser {
    pub name: String,
    pub email: String,
    pub verified: bool,
    pub created_at: u64,
    pub updated_at: u64,
}

/// Project a record to its outward-facing fields; the password hash and the
/// verification code never appear in the result.
pub fn filter_user_record(user: &User) -> (r: FilteredUser)
    requires
        user.created_at is Some,
        user.updated_at is Some,
    ensures
        r.name@ == user.name@,
        r.email@ == user.email@,
        r.verified == user.verified,
        user.created_at matches Some(t) && r.created_at == t,
        user.updated_at matches Some(t) && r.updated_at == t,
{
    FilteredUser {
        name: user.name.clone(),
        email: user.email.clone(),
        verified: user.verified,
        created_at: self_timestamp(&user.created_at),
        updated_at: self_timestamp(&user.updated_at),
    }
}

fn self_timestamp(t: &Option<u64>) -> (r: u64)
    requires
        t is Some,
    ensures
        t matches Some(v) && r == v,
{
    match t {
        Some(v) => *v,
        None => 0,
    }
}

} // verus!
