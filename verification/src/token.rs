//! The token service: issues and validates signed, time-limited bearer
//! tokens carrying a user identity claim. Signing and signature checking are
//! delegated to the `jsonwebtoken` crate (HMAC-SHA-512); everything around
//! the two calls — expiry checking, `Bearer` prefix handling, error
//! categorisation — is verified.

use vstd::prelude::*;

use crate::text::{is_space_char, trim_spec, trim_str, lemma_trim_spec_subrange};

verus! {

/// Validity period of an issued token, in seconds.
pub const TOKEN_DURATION_SECS: u64 = 3600;

/// The claims carried by a bearer token: the subject's user id and an
/// absolute expiry timestamp in seconds since the epoch.
#[derive(Clone, Copy, Debug, PartialEq, Eq, Structural)]
pub struct Claims {
    /// Subject: the id of the user the token was issued for.
    pub sub: i32,
    /// Expiry: the token is valid strictly before this time.
    pub exp: u64,
}

/// A decoded bearer token.
#[derive(Clone, Copy, Debug, PartialEq, Eq, Structural)]
pub struct JWT {
    /// The claims recovered from the token.
    pub claims: Claims,
}

/// Why a presented token was rejected.
#[derive(Clone, Copy, Debug, PartialEq, Eq, Structural)]
pub enum TokenError {
    /// The signature is valid but the expiry has passed.
    Expired,
    /// Malformed, wrong signature, or any other decode failure.
    Invalid,
}

/// The compact serialization that `jsonwebtoken::encode` produces under an
/// HMAC-SHA-512 key `secret` for the claims `{"sub": sub, "exp": exp}`.
/// The token is a pure function of the key and the claims.
pub uninterp spec fn jwt_token(secret: Seq<char>, sub: i32, exp: u64) -> Seq<char>;

/// What `jsonwebtoken::decode` recovers from `token` under key `secret` when
/// expiry checking is left to the caller: the subject and expiry claims if
/// the token is well-formed and its signature verifies, `None` otherwise.
pub uninterp spec fn jwt_claims_in(secret: Seq<char>, token: Seq<char>) -> Option<(i32, u64)>;

/// Relies on `jsonwebtoken::encode` with `Algorithm::HS512`: for an HMAC key
/// and a plain JSON object the call cannot fail, and its result is a pure
/// function of key and claims. The compact serialization is dot-separated
/// URL-safe base64, so it holds no whitespace, and its first character is
/// the first base64 character of the header JSON (`{"...`), which is `e`.
#[verifier::external_body]
fn sign_token(secret: &str, sub: i32, exp: u64) -> (r: String)
    ensures
        r@ == jwt_token(secret@, sub, exp),
        r@.len() > 0 && r@[0] != 'B',
        forall|i: int| 0 <= i < r@.len() ==> !is_space_char(r@[i]),
{
    let mut claims = serde_json::Map::new();
    claims.insert("sub".to_string(), serde_json::Value::from(sub));
    claims.insert("exp".to_string(), serde_json::Value::from(exp));
    let header = jsonwebtoken::Header::new(jsonwebtoken::Algorithm::HS512);
    let key = jsonwebtoken::EncodingKey::from_secret(secret.as_bytes());
    jsonwebtoken::encode(&header, &serde_json::Value::Object(claims), &key)
        .expect("HMAC signing of a plain JSON object cannot fail")
}

/// Relies on `jsonwebtoken::decode` with `Algorithm::HS512` and
/// `validate_exp` switched off: with no time-based validation the outcome is
/// a pure function of key and token, and decoding a token that
/// `jsonwebtoken::encode` produced under the same key recovers exactly the
/// claims that were signed.
#[verifier::external_body]
fn decode_token(secret: &str, token: &str) -> (r: Option<(i32, u64)>)
    ensures
        r == jwt_claims_in(secret@, token@),
        forall|sub: i32, exp: u64|
            token@ == jwt_token(secret@, sub, exp) ==> r == Some((sub, exp)),
{
    let key = jsonwebtoken::DecodingKey::from_secret(secret.as_bytes());
    let mut validation = jsonwebtoken::Validation::new(jsonwebtoken::Algorithm::HS512);
    validation.validate_exp = false;
    let data = jsonwebtoken::decode::<serde_json::Value>(token, &key, &validation).ok()?;
    let sub = i32::try_from(data.claims.get("sub")?.as_i64()?).ok()?;
    let exp = data.claims.get("exp")?.as_u64()?;
    Some((sub, exp))
}

/// The outcome of checking a bare token string against `secret` at time
/// `now`: the claims if the signature verifies and the expiry lies strictly
/// after `now`; `Expired` if only the expiry check fails; `Invalid` for
/// every other failure.
pub open spec fn spec_verify_token(secret: Seq<char>, token: Seq<char>, now: u64) -> Result<
    Claims,
    TokenError,
> {
    match jwt_claims_in(secret, token) {
        Option::None => Result::Err(TokenError::Invalid),
        Option::Some((sub, exp)) => if exp > now {
            Result::Ok(Claims { sub, exp })
        } else {
            Result::Err(TokenError::Expired)
        },
    }
}

/// Checks a bare token (no header prefix handling) against `secret` at time
/// `now`. A token whose expiry has passed is rejected as `Expired`; one that
/// is malformed or was signed under another key is rejected as `Invalid`.
pub fn verify_token(token: &str, secret: &str, now: u64) -> (r: Result<Claims, TokenError>)
    ensures
        r == spec_verify_token(secret@, token@, now),
        forall|sub: i32, exp: u64|
            token@ == jwt_token(secret@, sub, exp) && exp > now ==> r == Result::<
                Claims,
                TokenError,
            >::Ok(Claims { sub, exp }),
        forall|sub: i32, exp: u64|
            token@ == jwt_token(secret@, sub, exp) && exp <= now ==> r == Result::<
                Claims,
                TokenError,
            >::Err(TokenError::Expired),
{
    match decode_token(secret, token) {
        Option::None => Result::Err(TokenError::Invalid),
        Option::Some((sub, exp)) => if exp > now {
            Result::Ok(Claims { sub, exp })
        } else {
            Result::Err(TokenError::Expired)
        },
    }
}

/// `s` with every leading occurrence of `Bearer` removed.
pub open spec fn strip_bearer_start(s: Seq<char>) -> Seq<char>
    decreases s.len(),
{
    if s.len() >= 6 && s.subrange(0, 6) == "Bearer"@ {
        strip_bearer_start(s.skip(6))
    } else {
        s
    }
}

/// The token part of a raw `Authorization` header value: leading `Bearer`
/// occurrences removed, then whitespace trimmed from both ends.
pub open spec fn strip_bearer_spec(s: Seq<char>) -> Seq<char> {
    trim_spec(strip_bearer_start(s))
}

fn is_bearer_at(s: &str, pos: usize) -> (r: bool)
    requires
        pos + 6 <= s@.len(),
        s@.len() <= usize::MAX,
    ensures
        r == (s@.subrange(pos as int, pos + 6) == "Bearer"@),
{
    proof {
        reveal_strlit("Bearer");
    }
    let r = s.get_char(pos) == 'B' && s.get_char(pos + 1) == 'e' && s.get_char(pos + 2) == 'a'
        && s.get_char(pos + 3) == 'r' && s.get_char(pos + 4) == 'e' && s.get_char(pos + 5) == 'r';
    proof {
        let w = s@.subrange(pos as int, pos + 6);
        assert(w[0] == s@[pos as int] && w[1] == s@[pos + 1] && w[2] == s@[pos + 2] && w[3] == s@[
            pos + 3
        ] && w[4] == s@[pos + 4] && w[5] == s@[pos + 5]);
        if r {
            assert(w =~= "Bearer"@);
        } else if w == "Bearer"@ {
            assert(w[0] == 'B' && w[1] == 'e' && w[2] == 'a' && w[3] == 'r' && w[4] == 'e' && w[5]
                == 'r');
            assert(false);
        }
    }
    r
}

/// Strips leading `Bearer` occurrences and surrounding whitespace from a raw
/// header value, leaving the bare token.
pub fn strip_bearer(s: &str) -> (r: String)
    ensures
        r@ == strip_bearer_spec(s@),
{
    let n = s.unicode_len();
    let mut pos: usize = 0;
    proof {
        assert(s@.skip(0) =~= s@);
    }
    while n - pos >= 6 && is_bearer_at(s, pos)
        invariant
            pos <= n,
            n == s@.len(),
            strip_bearer_start(s@) == strip_bearer_start(s@.skip(pos as int)),
        decreases n - pos,
    {
        proof {
            let t = s@.skip(pos as int);
            assert(t.subrange(0, 6) =~= s@.subrange(pos as int, pos + 6));
            assert(t.skip(6) =~= s@.skip(pos + 6));
        }
        pos = pos + 6;
    }
    proof {
        let t = s@.skip(pos as int);
        if t.len() >= 6 {
            assert(t.subrange(0, 6) =~= s@.subrange(pos as int, pos + 6));
        }
        assert(strip_bearer_start(t) == t);
        assert(t =~= s@.subrange(pos as int, n as int));
    }
    let rest = s.substring_char(pos, n);
    trim_str(rest)
}

/// A token that holds no whitespace and does not begin with `B` — as every
/// token this library issues — passes the header stripping unchanged.
pub proof fn lemma_strip_bearer_clean(s: Seq<char>)
    requires
        s.len() > 0,
        s[0] != 'B',
        forall|i: int| 0 <= i < s.len() ==> !is_space_char(s[i]),
    ensures
        strip_bearer_spec(s) == s,
{
    reveal_strlit("Bearer");
    if s.len() >= 6 {
        assert(s.subrange(0, 6)[0] == s[0]);
        assert("Bearer"@[0] == 'B');
    }
    assert(strip_bearer_start(s) == s);
    lemma_trim_spec_subrange(s, 0, s.len() as int);
    assert(s.subrange(0, s.len() as int) =~= s);
}

/// The outcome of decoding a raw `Authorization` header value: the claims of
/// the embedded token if it verifies under `secret` and has not expired at
/// `now`.
pub open spec fn spec_decode(secret: Seq<char>, raw: Seq<char>, now: u64) -> Result<
    Claims,
    TokenError,
> {
    spec_verify_token(secret, strip_bearer_spec(raw), now)
}

impl JWT {
    /// Issues a token for user `id`, expiring `TOKEN_DURATION_SECS` seconds
    /// after `now`. The token holds no whitespace and no `Bearer` prefix, so
    /// presenting it as an `Authorization` header value decodes it back.
    pub fn encode(id: &i32, secret: &str, now: u64) -> (token: String)
        requires
            now + TOKEN_DURATION_SECS <= u64::MAX,
        ensures
            token@ == jwt_token(secret@, *id, (now + TOKEN_DURATION_SECS) as u64),
            token@.len() > 0 && token@[0] != 'B',
            forall|i: int| 0 <= i < token@.len() ==> !is_space_char(token@[i]),
    {
        sign_token(secret, *id, now + TOKEN_DURATION_SECS)
    }

    /// Decodes a raw `Authorization` header value: strips any leading
    /// `Bearer` occurrences and surrounding whitespace, verifies the
    /// signature under `secret`, and checks the expiry against `now`.
    pub fn decode(token_data: String, secret: &str, now: u64) -> (r: Result<JWT, TokenError>)
        ensures
            match r {
                Result::Ok(jwt) => spec_decode(secret@, token_data@, now) == Result::<
                    Claims,
                    TokenError,
                >::Ok(jwt.claims),
                Result::Err(e) => spec_decode(secret@, token_data@, now) == Result::<
                    Claims,
                    TokenError,
                >::Err(e),
            },
    {
        let token = strip_bearer(token_data.as_str());
        match verify_token(token.as_str(), secret, now) {
            Result::Ok(claims) => Result::Ok(JWT { claims }),
            Result::Err(e) => Result::Err(e),
        }
    }
}

/// How a request failed authentication.
#[derive(Clone, Copy, Debug, PartialEq, Eq, Structural)]
pub enum AuthError {
    /// No `Authorization` header was presented.
    NoToken,
    /// The token's expiry has passed.
    Expired,
    /// The token is malformed or its signature does not verify.
    Invalid,
}

/// The outcome of the authorization guard on the optional `Authorization`
/// header `header` at time `now`: the authenticated claims, or the rejection
/// in priority order — absent header, expired token, invalid token.
pub open spec fn spec_authorize(secret: Seq<char>, header: Option<Seq<char>>, now: u64) -> Result<
    Claims,
    AuthError,
> {
    match header {
        Option::None => Result::Err(AuthError::NoToken),
        Option::Some(raw) => match spec_decode(secret, raw, now) {
            Result::Ok(claims) => Result::Ok(claims),
            Result::Err(TokenError::Expired) => Result::Err(AuthError::Expired),
            Result::Err(TokenError::Invalid) => Result::Err(AuthError::Invalid),
        },
    }
}

/// The authorization guard: resolves the raw `Authorization` header value to
/// an authenticated identity, or rejects the request.
pub fn authorize(header: Option<&str>, secret: &str, now: u64) -> (r: Result<JWT, AuthError>)
    ensures
        match header {
            Option::None => r == Result::<JWT, AuthError>::Err(AuthError::NoToken),
            Option::Some(h) => match r {
                Result::Ok(jwt) => spec_authorize(secret@, Option::Some(h@), now) == Result::<
                    Claims,
                    AuthError,
                >::Ok(jwt.claims),
                Result::Err(e) => spec_authorize(secret@, Option::Some(h@), now) == Result::<
                    Claims,
                    AuthError,
                >::Err(e),
            },
        },
{
    match header {
        Option::None => Result::Err(AuthError::NoToken),
        Option::Some(h) => match JWT::decode(h.to_owned(), secret, now) {
            Result::Ok(jwt) => Result::Ok(jwt),
            Result::Err(TokenError::Expired) => Result::Err(AuthError::Expired),
            Result::Err(TokenError::Invalid) => Result::Err(AuthError::Invalid),
        },
    }
}

} // verus!
