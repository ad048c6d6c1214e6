//! The request gate: extract a token from the cookie or the bearer header,
//! validate it, load the referenced user, and either admit the request with
//! that user or reject it. Every rejection is `Unauthenticated`; the
//! underlying decode failure never reaches the client message.

use crate::errors::{AuthError, Failure};
use crate::model::{user_views_eq, User};
use crate::store::UserStore;
use crate::text::str_eq;
use crate::token::{decode_token, token_of, TokenClaims};
use vstd::prelude::*;

verus! {

/// The view of an optional string slice.
pub open spec fn opt_view(o: Option<&str>) -> Option<Seq<char>> {
    match o {
        Some(s) => Some(s@),
        None => None,
    }
}

/// Where the token comes from: the cookie named `token` first, else the
/// value behind a `Bearer ` prefix in the Authorization header.
pub open spec fn spec_extract(cookie: Option<Seq<char>>, auth: Option<Seq<char>>) -> Option<
    Seq<char>,
> {
    if cookie is Some {
        cookie
    } else {
        match auth {
            Some(a) => if a.len() >= 7 && a.subrange(0, 7) == "Bearer "@ {
                Some(a.skip(7))
            } else {
                None
            },
            None => None,
        }
    }
}

/// Extract the token text of a request, if any.
pub fn extract_token(cookie_token: Option<&str>, authorization: Option<&str>) -> (r: Option<
    String,
>)
    ensures
        r is Some <==> spec_extract(opt_view(cookie_token), opt_view(authorization)) is Some,
        r matches Some(t) ==> spec_extract(opt_view(cookie_token), opt_view(authorization))
            == Some(t@),
{
    match cookie_token {
        Some(c) => Some(String::from_str(c)),
        None => {
            match authorization {
                Some(a) => {
                    let n = a.unicode_len();
                    if n >= 7 && str_eq(a.substring_char(0, 7), "Bearer ") {
                        let rest = a.substring_char(7, n);
                        proof {
                            assert(rest@ =~= a@.skip(7));
                        }
                        Some(String::from_str(rest))
                    } else {
                        None
                    }
                },
                None => None,
            }
        },
    }
}

/// The load-and-admit step, taken on already decoded claims: the request is
/// admitted with a copy of the referenced user exactly when the claims have
/// not expired and that user still exists.
pub fn gate_from_claims(store: &UserStore, claims: &TokenClaims, now: u64) -> (r: Result<
    User,
    Failure,
>)
    requires
        store.wf(),
    ensures
        now > claims.exp ==> (r matches Err(e) && e.0 == AuthError::Unauthenticated && e.1@
            == "You are not logged in"@),
        now <= claims.exp && !store.spec_has_id(claims.sub as int) ==> (r matches Err(e) && e.0
            == AuthError::Unauthenticated && e.1@
            == "The user belonging to this token no longer exists"@),
        now <= claims.exp && store.spec_has_id(claims.sub as int) ==> (r matches Ok(u)
            && u.id as i64 == claims.sub),
        r matches Ok(u) ==> (exists|i: int|
            0 <= i < store.users@.len() && user_views_eq(#[trigger] store.users@[i], u)),
{
    if now > claims.exp {
        return Err((AuthError::Unauthenticated, "You are not logged in"));
    }
    match store.find_by_id(claims.sub) {
        Some(i) => {
            let u = store.users[i].duplicate();
            proof {
                assert(user_views_eq(store.users@[i as int], u));
            }
            Ok(u)
        },
        None => Err(
            (AuthError::Unauthenticated, "The user belonging to this token no longer exists"),
        ),
    }
}

/// The whole gate. A request with no token in either place is rejected at
/// once; a token that jsonwebtoken does not accept, or that has expired, is
/// rejected with a generic message; a valid token whose subject no longer
/// exists is rejected; otherwise the request is admitted with a copy of the
/// stored user. For a token that `encode_token` made under the same secret,
/// the outcome is pinned exactly.
pub fn gate(
    store: &UserStore,
    cookie_token: Option<&str>,
    authorization: Option<&str>,
    secret: &[u8],
    now: u64,
) -> (r: Result<User, Failure>)
    requires
        store.wf(),
    ensures
        spec_extract(opt_view(cookie_token), opt_view(authorization)) is None ==> (r matches
            Err(e) && e.0 == AuthError::Unauthenticated && e.1@
            == "You are not logged in, please provide a token"@),
        forall|su: i64, ia: u64, ex: u64|
            spec_extract(opt_view(cookie_token), opt_view(authorization)) == Some(
                #[trigger] token_of(su as int, ia as int, ex as int, secret@),
            ) ==> {
                &&& (now > ex ==> (r matches Err(e) && e.0 == AuthError::Unauthenticated && e.1@
                    == "You are not logged in"@))
                &&& (now <= ex && !store.spec_has_id(su as int) ==> (r matches Err(e) && e.0
                    == AuthError::Unauthenticated && e.1@
                    == "The user belonging to this token no longer exists"@))
                &&& (now <= ex && store.spec_has_id(su as int) ==> (r matches Ok(u) && u.id as i64
                    == su))
            },
        r matches Ok(u) ==> (exists|i: int|
            0 <= i < store.users@.len() && user_views_eq(#[trigger] store.users@[i], u)),
        r matches Err(e) ==> e.0 == AuthError::Unauthenticated,
{
    let token = match extract_token(cookie_token, authorization) {
        Some(t) => t,
        None => {
            return Err((AuthError::Unauthenticated, "You are not logged in, please provide a token"));
        },
    };
    let claims = match decode_token(token.as_str(), secret, now) {
        Ok(c) => c,
        Err(_) => {
            return Err((AuthError::Unauthenticated, "You are not logged in"));
        },
    };
    gate_from_claims(store, &claims, now)
}

} // verus!
