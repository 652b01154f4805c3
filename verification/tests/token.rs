//! Token issue and validation against the real jsonwebtoken signing.

use task_api::token::{
    authorize, strip_bearer, verify_token, AuthError, Claims, TokenError, JWT, TOKEN_DURATION_SECS,
};

const SECRET: &str = "unit-test-signing-secret";

#[test]
fn issued_token_verifies_while_fresh() {
    let token = JWT::encode(&7, SECRET, 1_000);
    let claims = verify_token(&token, SECRET, 1_001).expect("fresh token must verify");
    assert_eq!(claims, Claims { sub: 7, exp: 1_000 + TOKEN_DURATION_SECS });
    // No revocation mechanism exists, by design: the token stays valid up
    // to the last second before its natural expiry.
    assert!(verify_token(&token, SECRET, 1_000 + TOKEN_DURATION_SECS - 1).is_ok());
}

#[test]
fn expired_token_rejected_as_expired() {
    let token = JWT::encode(&7, SECRET, 1_000);
    // Expiry is not strictly in the future at exactly `exp`.
    let at_expiry = verify_token(&token, SECRET, 1_000 + TOKEN_DURATION_SECS);
    assert_eq!(at_expiry.unwrap_err(), TokenError::Expired);
    let long_after = verify_token(&token, SECRET, 999_999_999);
    assert_eq!(long_after.unwrap_err(), TokenError::Expired);
}

#[test]
fn token_signed_with_other_secret_rejected_as_invalid() {
    let token = JWT::encode(&7, "another-test-signing-secret", 1_000);
    let r = verify_token(&token, SECRET, 1_001);
    assert_eq!(r.unwrap_err(), TokenError::Invalid);
}

#[test]
fn malformed_token_rejected_as_invalid() {
    assert_eq!(verify_token("not-a-token", SECRET, 1).unwrap_err(), TokenError::Invalid);
    assert_eq!(verify_token("", SECRET, 1).unwrap_err(), TokenError::Invalid);
    assert_eq!(verify_token("a.b.c", SECRET, 1).unwrap_err(), TokenError::Invalid);
}

#[test]
fn bearer_prefix_and_whitespace_stripped() {
    let token = JWT::encode(&3, SECRET, 1_000);
    let with_prefix = format!("Bearer {}", token);
    let jwt = JWT::decode(with_prefix, SECRET, 1_001).expect("prefixed header must decode");
    assert_eq!(jwt.claims.sub, 3);
    let padded = format!("Bearer  {}  ", token);
    let jwt = JWT::decode(padded, SECRET, 1_001).expect("padded header must decode");
    assert_eq!(jwt.claims.sub, 3);
    // Whitespace before the prefix is not stripped: the prefix no longer
    // leads the value, so the leftover text cannot decode.
    let leading_space = format!("  Bearer {}", token);
    assert!(JWT::decode(leading_space, SECRET, 1_001).is_err());
    let bare = JWT::decode(token, SECRET, 1_001).expect("bare token must decode");
    assert_eq!(bare.claims.sub, 3);
}

#[test]
fn strip_bearer_examples() {
    assert_eq!(strip_bearer("Bearer abc"), "abc");
    assert_eq!(strip_bearer("BearerBearer abc"), "abc");
    assert_eq!(strip_bearer("  abc  "), "abc");
    assert_eq!(strip_bearer("abc"), "abc");
    assert_eq!(strip_bearer(""), "");
}

#[test]
fn guard_rejections_in_priority_order() {
    let token = JWT::encode(&5, SECRET, 1_000);

    let none = authorize(None, SECRET, 1_001);
    assert_eq!(none.unwrap_err(), AuthError::NoToken);

    let header = format!("Bearer {}", token);
    let expired = authorize(Some(&header), SECRET, 1_000 + TOKEN_DURATION_SECS);
    assert_eq!(expired.unwrap_err(), AuthError::Expired);

    let invalid = authorize(Some("Bearer garbage"), SECRET, 1_001);
    assert_eq!(invalid.unwrap_err(), AuthError::Invalid);

    let ok = authorize(Some(&header), SECRET, 1_001).expect("valid header must authenticate");
    assert_eq!(ok.claims.sub, 5);
}
