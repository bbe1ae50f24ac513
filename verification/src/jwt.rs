//! The token service: issues and verifies signed, time-bounded identity
//! tokens. Signing goes through jsonwebtoken with its default (HS256)
//! header; expiry is checked here, against a caller-supplied clock
//! reading, so that verification is exact about when it fails.

use crate::errors::JWTError;
use crate::fields::{Claims, ClaimsV, Username};
use vstd::prelude::*;

verus! {

/// Injected token-service configuration: the symmetric signing secret,
/// the fixed issuer identity, and the token lifetime in seconds.
pub struct JwtConfig {
    pub secret: Vec<u8>,
    pub iss: String,
    pub exp: u64,
}

/// The signed token carrying subject `sub`, issuer `iss` and expiry
/// `exp`, under `secret`: what jsonwebtoken's HS256 encoding returns,
/// a function of the claims and the secret alone.
pub uninterp spec fn token_of(secret: Seq<u8>, sub: Seq<char>, iss: Seq<char>, exp: int) -> Seq<
    char,
>;

/// What signature-only decoding yields for `token` under `secret`: the
/// embedded subject, issuer and expiry, or nothing when the token is not
/// a well-formed HS256 token signed with `secret`.
pub uninterp spec fn decoded_of(token: Seq<char>, secret: Seq<u8>) -> Option<
    (Seq<char>, Seq<char>, int),
>;

/// Relies on jsonwebtoken::encode with the default (HS256) header: the
/// token is a function of the claims and the secret alone; HMAC signing
/// of a JSON object cannot fail; and jsonwebtoken::decode under the same
/// secret gives the same claims back.
#[verifier::external_body]
fn encode_claims(sub: &String, iss: &String, exp: u64, secret: &Vec<u8>) -> (r: String)
    ensures
        r@ == token_of(secret@, sub@, iss@, exp as int),
        decoded_of(r@, secret@) == Some((sub@, iss@, exp as int)),
{
    let mut claims = serde_json::Map::new();
    claims.insert("sub".to_owned(), serde_json::Value::String(sub.clone()));
    claims.insert("iss".to_owned(), serde_json::Value::String(iss.clone()));
    claims.insert("exp".to_owned(), serde_json::Value::from(exp));
    jsonwebtoken::encode(
        &jsonwebtoken::Header::default(),
        &serde_json::Value::Object(claims),
        &jsonwebtoken::EncodingKey::from_secret(secret.as_slice()),
    ).expect("HMAC signing of a JSON object cannot fail")
}

/// Relies on jsonwebtoken::decode restricted to HS256, with expiry
/// validation turned off: with no time-dependent check left, the outcome
/// is a function of the token and the secret alone.
#[verifier::external_body]
fn decode_claims(token: &str, secret: &Vec<u8>) -> (r: Option<(String, String, u64)>)
    ensures
        match decoded_of(token@, secret@) {
            Some(t) => r matches Some(c) && c.0@ == t.0 && c.1@ == t.1 && c.2 as int == t.2,
            None => r is None,
        },
{
    let mut validation = jsonwebtoken::Validation::new(jsonwebtoken::Algorithm::HS256);
    validation.validate_exp = false;
    let data = jsonwebtoken::decode::<serde_json::Value>(
        token,
        &jsonwebtoken::DecodingKey::from_secret(secret.as_slice()),
        &validation,
    ).ok()?;
    let sub = data.claims.get("sub")?.as_str()?.to_owned();
    let iss = data.claims.get("iss")?.as_str()?.to_owned();
    let exp = data.claims.get("exp")?.as_u64()?;
    Some((sub, iss, exp))
}

/// Issues a token for `username`: claims made of the subject, the
/// configured issuer, and an expiry of `now` (seconds) plus the
/// configured lifetime, signed with the configured secret.
pub fn generate_auth_token(username: &Username, jwt_config: &JwtConfig, now: u64) -> (r: String)
    requires
        now + jwt_config.exp <= u64::MAX,
    ensures
        r@ == token_of(jwt_config.secret@, username@, jwt_config.iss@, now + jwt_config.exp),
        decoded_of(r@, jwt_config.secret@) == Some(
            (username@, jwt_config.iss@, (now + jwt_config.exp) as int),
        ),
{
    let exp = now + jwt_config.exp;
    let sub = username.inner();
    encode_claims(&sub, &jwt_config.iss, exp, &jwt_config.secret)
}

/// Verifies `token` against the configured secret and the given clock
/// reading `now`: returns the embedded claims when the signature checks
/// out and the expiry lies strictly in the future, and fails otherwise.
/// A bad signature and an elapsed expiry are deliberately not
/// distinguished to the caller.
pub fn decode_auth_token(token: &str, jwt_config: &JwtConfig, now: u64) -> (r: Result<
    Claims,
    JWTError,
>)
    ensures
        match decoded_of(token@, jwt_config.secret@) {
            Some(t) => {
                if t.2 > now {
                    r matches Ok(c) && c@ == (ClaimsV { sub: t.0, iss: t.1, exp: t.2 })
                } else {
                    r matches Err(e) && e == JWTError::DecodeFailed
                }
            },
            None => r matches Err(e) && e == JWTError::DecodeFailed,
        },
{
    match decode_claims(token, &jwt_config.secret) {
        Some((sub, iss, exp)) => {
            if exp > now {
                Ok(Claims { sub, iss, exp })
            } else {
                Err(JWTError::DecodeFailed)
            }
        },
        None => Err(JWTError::DecodeFailed),
    }
}

} // verus!
