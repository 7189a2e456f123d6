//! The dashboard's session tokens: HS256 JSON Web Tokens, made at login and checked on every
//! request that needs one.
use vstd::prelude::*;

use crate::clock::unix_now_secs;
use crate::text::prefixed;
use crate::web::http::{error_body, json_error, response_text};
use crate::web::routes::{bearer_token, bearer_token_of, RequestPlan};

verus! {

/// How long a session token stays valid, in seconds.
pub const JWT_EXPIRY_SECS: u64 = 86_400;

/// Whether a text is a well-formed JSON Web Token whose header names HS256 and whose
/// signature verifies under the secret (expiry aside).
pub uninterp spec fn hs256_token_valid(token: Seq<char>, secret: Seq<u8>) -> bool;

/// The token `jsonwebtoken::encode` writes for these claims under the secret (HS256).
pub uninterp spec fn jwt_token(sub: Seq<char>, role: Seq<char>, user_id: Seq<char>, iat: u64, exp: u64, secret: Seq<u8>) -> Seq<char>;

/// Calls `jsonwebtoken::decode::<serde_json::Value>` with `DecodingKey::from_secret(secret)`
/// and `Validation::default()` (HS256, signature and expiry checked), keeping only whether the
/// token was accepted or, if not, the error's text. An accepted token has a valid HS256
/// signature under the secret (`verify_signature` runs before anything else). When a token is
/// refused is not stated: whether it has expired depends on the clock.
#[verifier::external_body]
pub(crate) fn jwt_decode_check(token: &str, secret: &[u8]) -> (r: Result<(), String>)
    ensures
        r is Ok ==> hs256_token_valid(token@, secret@),
{
    let key = jsonwebtoken::DecodingKey::from_secret(secret);
    match jsonwebtoken::decode::<serde_json::Value>(token, &key, &jsonwebtoken::Validation::default()) {
        Ok(_) => Ok(()),
        Err(e) => Err(e.to_string()),
    }
}

/// Calls `jsonwebtoken::encode` with `Header::default()` (HS256), the claims `sub`, `role`,
/// `user_id`, `iat` and `exp` as a JSON object, and `EncodingKey::from_secret(secret)`. It
/// succeeds (the HMAC key matches the header's algorithm, a JSON object always serialises,
/// and HMAC signing does not fail) with the token of these claims, whose HS256 signature
/// verifies under the same secret.
#[verifier::external_body]
pub(crate) fn jwt_encode(sub: &str, role: &str, user_id: &str, iat: u64, exp: u64, secret: &[u8]) -> (r: Result<String, String>)
    ensures
        r is Ok,
        r matches Ok(t) ==> t@ == jwt_token(sub@, role@, user_id@, iat, exp, secret@),
        r matches Ok(t) ==> hs256_token_valid(t@, secret@),
{
    let mut claims = serde_json::Map::new();
    claims.insert("sub".to_string(), serde_json::Value::from(sub));
    claims.insert("role".to_string(), serde_json::Value::from(role));
    claims.insert("user_id".to_string(), serde_json::Value::from(user_id));
    claims.insert("iat".to_string(), serde_json::Value::from(iat));
    claims.insert("exp".to_string(), serde_json::Value::from(exp));
    let key = jsonwebtoken::EncodingKey::from_secret(secret);
    jsonwebtoken::encode(&jsonwebtoken::Header::default(), &claims, &key).map_err(|e| e.to_string())
}

/// The 401 answer to a request without a bearer token.
pub open spec fn missing_token_text() -> Seq<char> {
    response_text(401, "application/json"@, error_body("Authorization header required"@))
}

/// Whether a text is the 401 answer to a token that was refused.
pub open spec fn refused_token_text(t: Seq<char>) -> bool {
    exists|m: Seq<char>| t == response_text(401, "application/json"@, error_body("Invalid or expired token: "@ + m))
}

/// Whether an `Authorization` header carries a bearer token.
pub open spec fn has_bearer(auth_header: Option<&str>) -> bool {
    match auth_header {
        Some(h) => bearer_token_of(h@) is Some,
        None => false,
    }
}

/// Whether an `Authorization` header carries a bearer token with a valid HS256 signature
/// under the secret.
pub open spec fn has_valid_bearer(auth_header: Option<&str>, secret: Seq<u8>) -> bool {
    match auth_header {
        Some(h) => bearer_token_of(h@) matches Some(t) && hs256_token_valid(t, secret),
        None => false,
    }
}

/// Check the bearer token of a request against the secret: without a bearer token the
/// answer is the 401 that asks for one; a token the decoder refuses gets the 401 that says
/// why.
pub fn verify_request_token(secret: &[u8], auth_header: Option<&str>) -> (r: Result<(), String>)
    ensures
        !has_bearer(auth_header) ==> (r matches Err(e) && e@ == missing_token_text()),
        r is Ok ==> has_valid_bearer(auth_header, secret@),
        has_bearer(auth_header) ==> (r matches Err(e) ==> refused_token_text(e@)),
{
    let token = match bearer_token(auth_header) {
        Ok(t) => t,
        Err(resp) => return Err(resp),
    };
    match jwt_decode_check(token.as_str(), secret) {
        Ok(()) => Ok(()),
        Err(why) => {
            let m = prefixed("Invalid or expired token: ", why.as_str());
            let e = json_error(401, m.as_str());
            assert(e@ == response_text(401, "application/json"@, error_body("Invalid or expired token: "@ + why@)));
            Err(e)
        },
    }
}

/// Admit a planned request: one that needs no token passes; one that does is checked by
/// `verify_request_token`, so without a bearer token it is answered 401 and nothing else.
pub fn admit_request(plan: &RequestPlan, secret: &[u8], auth_header: Option<&str>) -> (r: Result<(), String>)
    ensures
        !plan.requires_auth ==> r is Ok,
        plan.requires_auth && !has_bearer(auth_header) ==> (r matches Err(e) && e@ == missing_token_text()),
        plan.requires_auth && r is Ok ==> has_valid_bearer(auth_header, secret@),
        plan.requires_auth && has_bearer(auth_header) ==> (r matches Err(e) ==> refused_token_text(e@)),
{
    if plan.requires_auth {
        verify_request_token(secret, auth_header)
    } else {
        Ok(())
    }
}

/// The claims' times of a token issued at `now`: issued then, expiring a day later (none
/// when that would overflow).
pub fn token_times(now: u64) -> (r: Option<(u64, u64)>)
    ensures
        now + JWT_EXPIRY_SECS <= u64::MAX ==> r == Some((now, (now + JWT_EXPIRY_SECS) as u64)),
        now + JWT_EXPIRY_SECS > u64::MAX ==> r is None,
{
    match now.checked_add(JWT_EXPIRY_SECS) {
        Some(exp) => Some((now, exp)),
        None => None,
    }
}

/// When a token issued at `iat` expires: a day later, or at the end of time if that
/// would overflow.
pub open spec fn expiry_after(iat: u64) -> u64 {
    if iat + JWT_EXPIRY_SECS <= u64::MAX {
        (iat + JWT_EXPIRY_SECS) as u64
    } else {
        u64::MAX
    }
}

/// Issue a session token for a user: HS256 over `sub` (the user name), `role`, `user_id`,
/// `iat` (now) and `exp` (a day later), signed with the secret. The token's signature
/// verifies under the secret.
pub fn create_jwt(secret: &[u8], user_id: &str, username: &str, role: &str) -> (r: Result<String, String>)
    ensures
        exists|iat: u64| #![trigger expiry_after(iat)]
            r matches Ok(t) && t@ == jwt_token(username@, role@, user_id@, iat, expiry_after(iat), secret@),
        r matches Ok(t) ==> hs256_token_valid(t@, secret@),
{
    let now = unix_now_secs();
    let (iat, exp) = match token_times(now) {
        Some(t) => t,
        None => (now, u64::MAX),
    };
    let r = jwt_encode(username, role, user_id, iat, exp, secret);
    assert(exp == expiry_after(iat));
    r
}

} // verus!
