//! Session tokens: HS256-signed claims with an expiry, through the
//! jsonwebtoken crate.
//!
//! Signing is deterministic in the claims and the secret, so the token text
//! gets a name, `jwt_of`; what signature-checking decoding returns gets the
//! name `jwt_claims_of`. The expiry rule itself — a token is valid only
//! while `exp > now` — is not delegated: it is decided by verified code
//! here, against a caller-supplied clock reading.

use vstd::prelude::*;
use crate::errors::AuthError;

verus! {

/// The claims embedded in a session token: a snapshot of the user at
/// issuance time, never persisted server-side.
pub struct Claims {
    pub username: String,
    pub role: String,
    pub exp: u64,
}

/// Names the token that HS256 signing produces for a claims object
/// `{username, role, exp}` under a secret. Deterministic in its arguments:
/// fixed header, fixed algorithm, no randomness.
pub uninterp spec fn jwt_of(
    username: Seq<char>,
    role: Seq<char>,
    exp: u64,
    secret: Seq<char>,
) -> Seq<char>;

/// Names what HS256 signature-checking decoding returns for a token under a
/// secret: the embedded username, role and exp, or nothing when the token is
/// malformed, carries another algorithm, a bad signature, or lacks one of
/// the three claims. Expiry plays no part here. Deterministic in token and
/// secret.
pub uninterp spec fn jwt_claims_of(token: Seq<char>, secret: Seq<char>) -> Option<
    (Seq<char>, Seq<char>, u64),
>;

/// Relies on jsonwebtoken::encode with HS256: deterministic signing of the
/// claims object, infallible for an HMAC key (any length) and a JSON-object
/// claims value. Decoding the result under the same secret yields back
/// exactly the claims that went in.
#[verifier::external_body]
pub(crate) fn jwt_encode(username: &str, role: &str, exp: u64, secret: &str) -> (r: String)
    ensures
        r@ == jwt_of(username@, role@, exp, secret@),
        jwt_claims_of(r@, secret@) == Some((username@, role@, exp)),
{
    let mut claims = serde_json::Map::new();
    claims.insert("username".to_string(), serde_json::Value::String(username.to_string()));
    claims.insert("role".to_string(), serde_json::Value::String(role.to_string()));
    claims.insert("exp".to_string(), serde_json::Value::from(exp));
    jsonwebtoken::encode(
        &jsonwebtoken::Header::new(jsonwebtoken::Algorithm::HS256),
        &serde_json::Value::Object(claims),
        &jsonwebtoken::EncodingKey::from_secret(secret.as_bytes()),
    )
        .expect("HS256 signing of a JSON object cannot fail")
}

/// Relies on jsonwebtoken::decode with HS256 alone allowed and expiry
/// checking turned off, so the result depends on nothing but token and
/// secret; the claims are then read out of the decoded JSON object.
#[verifier::external_body]
pub(crate) fn jwt_decode(token: &str, secret: &str) -> (r: Option<Claims>)
    ensures
        r matches Some(c) ==> jwt_claims_of(token@, secret@) == Some(
            (c.username@, c.role@, c.exp),
        ),
        r is None ==> jwt_claims_of(token@, secret@) is None,
{
    let mut validation = jsonwebtoken::Validation::new(jsonwebtoken::Algorithm::HS256);
    validation.validate_exp = false;
    validation.required_spec_claims = std::collections::HashSet::new();
    let key = jsonwebtoken::DecodingKey::from_secret(secret.as_bytes());
    let data = match jsonwebtoken::decode::<serde_json::Value>(token, &key, &validation) {
        Ok(d) => d,
        Err(_) => return None,
    };
    let username = data.claims.get("username")?.as_str()?.to_string();
    let role = data.claims.get("role")?.as_str()?.to_string();
    let exp = data.claims.get("exp")?.as_u64()?;
    Some(Claims { username, role, exp })
}

/// What token validation returns at clock reading `now`: the embedded
/// claims when the signature holds and the token has not expired, the
/// invalid-token error otherwise — one error for every way of failing.
pub open spec fn validate_token_spec(token: Seq<char>, now: u64, secret: Seq<char>) -> Result<
    (Seq<char>, Seq<char>, u64),
    AuthError,
> {
    match jwt_claims_of(token, secret) {
        Some(c) => if c.2 > now {
            Ok(c)
        } else {
            Err(AuthError::InvalidToken)
        },
        None => Err(AuthError::InvalidToken),
    }
}

/// Decode a token and hold it to the expiry rule against the given clock
/// reading.
pub fn check_token(token: &str, now: u64, secret: &str) -> (r: Result<Claims, AuthError>)
    ensures
        match r {
            Ok(c) => validate_token_spec(token@, now, secret@) == Ok::<_, AuthError>(
                (c.username@, c.role@, c.exp),
            ),
            Err(e) => validate_token_spec(token@, now, secret@) == Err::<
                (Seq<char>, Seq<char>, u64),
                _,
            >(e),
        },
{
    match jwt_decode(token, secret) {
        Some(c) => if c.exp > now {
            Ok(c)
        } else {
            Err(AuthError::InvalidToken)
        },
        None => Err(AuthError::InvalidToken),
    }
}

} // verus!
