//! Session token codec: signed claims (subject id, issued-at, expiry),
//! encoded with jsonwebtoken under an HMAC secret, plus the cookie strings
//! that carry the token.
//!
//! The token text for given claims and secret is a deterministic function of
//! those arguments alone, so it is given the name `token_of`. Signature
//! checking is trusted to jsonwebtoken; the expiry check is verified code,
//! strict against the supplied wall-clock time.

use std::collections::HashSet;
use vstd::prelude::*;

verus! {

/// How long an issued token lives, in seconds.
pub const TOKEN_MAX_AGE_SECONDS: u64 = 3600;

/// The signed payload of a session token.
#[derive(Clone, Copy, Debug, PartialEq, Eq, Structural)]
pub struct TokenClaims {
    /// Subject: the id of the user the token speaks for.
    pub sub: i64,
    /// Issued-at, in seconds since the Unix epoch.
    pub iat: u64,
    /// Expiry, in seconds since the Unix epoch.
    pub exp: u64,
}

/// Why a token was not accepted.
#[derive(Clone, Copy, Debug, PartialEq, Eq, Structural)]
pub enum TokenError {
    /// Malformed structure or signature mismatch.
    InvalidToken,
    /// Structure and signature fine, but the expiry has passed.
    Expired,
}

/// The token text that signing `{sub, iat, exp}` under `secret` with the
/// default header produces.
pub uninterp spec fn token_of(sub: int, iat: int, exp: int, secret: Seq<u8>) -> Seq<char>;

/// Relies on jsonwebtoken's `encode` with the default HS256 header: the
/// result is the signed serialization of exactly these claims under this
/// secret. The HS256 path has no failure branch — the key family matches
/// the header, a string-keyed JSON map always serializes, and HMAC signing
/// returns no error — so the call cannot fail.
#[verifier::external_body]
pub fn encode_token(claims: &TokenClaims, secret: &[u8]) -> (r: String)
    ensures
        r@ == token_of(claims.sub as int, claims.iat as int, claims.exp as int, secret@),
{
    let mut payload = serde_json::Map::new();
    payload.insert("sub".to_string(), serde_json::Value::from(claims.sub));
    payload.insert("iat".to_string(), serde_json::Value::from(claims.iat));
    payload.insert("exp".to_string(), serde_json::Value::from(claims.exp));
    let key = jsonwebtoken::EncodingKey::from_secret(secret);
    jsonwebtoken::encode(&jsonwebtoken::Header::default(), &serde_json::Value::Object(payload), &key)
        .unwrap()
}

/// Relies on jsonwebtoken's `decode`, with signature validation on and
/// expiry validation off: a token produced by `encode` under the same secret
/// decodes back to exactly the claims it was made from.
#[verifier::external_body]
fn decode_token_raw(token: &str, secret: &[u8]) -> (r: Option<TokenClaims>)
    ensures
        forall|su: i64, ia: u64, ex: u64|
            token@ == token_of(su as int, ia as int, ex as int, secret@) ==> r == Some(
                TokenClaims { sub: su, iat: ia, exp: ex },
            ),
{
    let key = jsonwebtoken::DecodingKey::from_secret(secret);
    let mut validation = jsonwebtoken::Validation::new(jsonwebtoken::Algorithm::HS256);
    validation.validate_exp = false;
    validation.required_spec_claims = HashSet::new();
    let data = match jsonwebtoken::decode::<serde_json::Value>(token, &key, &validation) {
        Ok(d) => d.claims,
        Err(_) => return None,
    };
    let sub = data.get("sub").and_then(serde_json::Value::as_i64)?;
    let iat = data.get("iat").and_then(serde_json::Value::as_u64)?;
    let exp = data.get("exp").and_then(serde_json::Value::as_u64)?;
    Some(TokenClaims { sub, iat, exp })
}

/// Decode a token and hold it to the wall clock: signature or structure
/// failures are `InvalidToken`, and a token whose expiry lies strictly
/// before `now` is `Expired`. A token made by `encode_token` under the same
/// secret comes back as exactly its claims whenever it has not expired.
pub fn decode_token(token: &str, secret: &[u8], now: u64) -> (r: Result<TokenClaims, TokenError>)
    ensures
        r matches Ok(c) ==> now <= c.exp,
        forall|su: i64, ia: u64, ex: u64|
            token@ == token_of(su as int, ia as int, ex as int, secret@) ==> r == (if now > ex {
                Err::<TokenClaims, TokenError>(TokenError::Expired)
            } else {
                Ok::<TokenClaims, TokenError>(TokenClaims { sub: su, iat: ia, exp: ex })
            }),
{
    match decode_token_raw(token, secret) {
        None => Err(TokenError::InvalidToken),
        Some(claims) => {
            if now > claims.exp {
                Err(TokenError::Expired)
            } else {
                Ok(claims)
            }
        },
    }
}

/// Relies on chrono's `Utc::now`: the current wall-clock time as seconds
/// since the Unix epoch. Nothing can be promised of a clock reading.
#[verifier::external_body]
fn now_timestamp() -> (r: i64) {
    chrono::Utc::now().timestamp()
}

/// The current wall-clock time as unsigned seconds since the Unix epoch;
/// readings before the epoch clamp to zero. The bound keeps expiry
/// arithmetic on the result free of overflow.
pub fn now_unix() -> (r: u64)
    ensures
        r <= 0x7fff_ffff_ffff_ffff,
{
    let t = now_timestamp();
    if t < 0 {
        0
    } else {
        t as u64
    }
}

/// The `Set-Cookie` text that delivers `token` for one hour: http-only,
/// lax same-site, path-scoped to the whole site.
pub open spec fn login_cookie_seq(token: Seq<char>) -> Seq<char> {
    "token="@ + token + "; Path=/; Max-Age=3600; SameSite=Lax; HttpOnly"@
}

/// The `Set-Cookie` text that clears the token cookie at logout.
pub open spec fn logout_cookie_seq() -> Seq<char> {
    "token=; Path=/; Max-Age=-1; SameSite=Lax; HttpOnly"@
}

/// Build the login `Set-Cookie` value for a freshly issued token.
pub fn login_cookie(token: &str) -> (r: String)
    ensures
        r@ == login_cookie_seq(token@),
{
    let mut out = String::from_str("token=");
    out.append(token);
    out.append("; Path=/; Max-Age=3600; SameSite=Lax; HttpOnly");
    out
}

/// Build the logout `Set-Cookie` value that expires the cookie at once.
pub fn logout_cookie() -> (r: String)
    ensures
        r@ == logout_cookie_seq(),
{
    String::from_str("token=; Path=/; Max-Age=-1; SameSite=Lax; HttpOnly")
}

} // verus!
