use authflow::token::{
    decode_token, encode_token, login_cookie, logout_cookie, TokenClaims, TokenError,
};

#[test]
fn token_round_trip() {
    let secret = b"my-ultra-secure-and-ultra-long-secret";
    let claims = TokenClaims { sub: 42, iat: 1_700_000_000, exp: 1_700_003_600 };
    let token = encode_token(&claims, secret);
    let decoded = decode_token(token.as_str(), secret, 1_700_000_100);
    assert_eq!(decoded, Ok(claims));
}

#[test]
fn token_round_trip_at_exact_expiry() {
    let secret = b"secret";
    let claims = TokenClaims { sub: 1, iat: 100, exp: 200 };
    let token = encode_token(&claims, secret);
    // `now == exp` is not yet expired: only `now > exp` is.
    assert_eq!(decode_token(token.as_str(), secret, 200), Ok(claims));
}

#[test]
fn token_with_other_secret_fails() {
    let secret = b"first-secret";
    let other = b"second-secret";
    let claims = TokenClaims { sub: 42, iat: 1_700_000_000, exp: 1_700_003_600 };
    let token = encode_token(&claims, secret);
    let decoded = decode_token(token.as_str(), other, 1_700_000_100);
    assert_eq!(decoded, Err(TokenError::InvalidToken));
}

#[test]
fn expired_token_fails_as_expired() {
    let secret = b"secret";
    let claims = TokenClaims { sub: 7, iat: 100, exp: 200 };
    let token = encode_token(&claims, secret);
    assert_eq!(decode_token(token.as_str(), secret, 201), Err(TokenError::Expired));
}

#[test]
fn malformed_token_fails_as_invalid() {
    let secret = b"secret";
    assert_eq!(
        decode_token("not-a-token", secret, 0),
        Err(TokenError::InvalidToken)
    );
    assert_eq!(decode_token("", secret, 0), Err(TokenError::InvalidToken));
    // A token whose signature part was clipped must be refused.
    let claims = TokenClaims { sub: 7, iat: 100, exp: 200 };
    let token = encode_token(&claims, secret);
    let clipped = &token[..token.len() - 2];
    assert_eq!(decode_token(clipped, secret, 150), Err(TokenError::InvalidToken));
}

#[test]
fn cookie_strings() {
    let cookie = login_cookie("abc.def.ghi");
    assert_eq!(
        cookie.as_str(),
        "token=abc.def.ghi; Path=/; Max-Age=3600; SameSite=Lax; HttpOnly"
    );
    assert_eq!(
        logout_cookie().as_str(),
        "token=; Path=/; Max-Age=-1; SameSite=Lax; HttpOnly"
    );
}
