//! The token service: issuance, verification, expiry and failure modes.

use kpower_server::errors::{ApiError, JWTError};
use kpower_server::fields::Username;
use kpower_server::jwt::{decode_auth_token, generate_auth_token, JwtConfig};

fn config() -> JwtConfig {
    JwtConfig { secret: b"test-secret".to_vec(), iss: "kpower".to_string(), exp: 600 }
}

fn alice() -> Username {
    Username::from("alice".to_string())
}

#[test]
fn token_round_trip_returns_the_subject() {
    let cfg = config();
    let token = generate_auth_token(&alice(), &cfg, 1000);
    let claims = decode_auth_token(&token, &cfg, 1100).expect("fresh token should verify");
    assert_eq!(claims.sub, "alice");
    assert_eq!(claims.iss, "kpower");
    assert_eq!(claims.exp, 1600);
}

#[test]
fn token_fails_after_ttl_elapses() {
    let cfg = config();
    let token = generate_auth_token(&alice(), &cfg, 1000);
    assert!(decode_auth_token(&token, &cfg, 1599).is_ok());
    // The expiry is not strictly in the future any more.
    assert!(matches!(decode_auth_token(&token, &cfg, 1600), Err(JWTError::DecodeFailed)));
    assert!(matches!(decode_auth_token(&token, &cfg, 2000), Err(JWTError::DecodeFailed)));
}

#[test]
fn token_fails_under_another_secret() {
    let cfg = config();
    let other = JwtConfig { secret: b"other-secret".to_vec(), iss: "kpower".to_string(), exp: 600 };
    let token = generate_auth_token(&alice(), &cfg, 1000);
    assert!(decode_auth_token(&token, &other, 1100).is_err());
}

#[test]
fn garbage_and_tampered_tokens_fail() {
    let cfg = config();
    assert!(decode_auth_token("not.a.token", &cfg, 1000).is_err());
    assert!(decode_auth_token("", &cfg, 1000).is_err());

    let token = generate_auth_token(&alice(), &cfg, 1000);
    // Damage the header: the signature no longer matches.
    let tampered = format!("f{}", &token[1..]);
    assert!(decode_auth_token(&tampered, &cfg, 1100).is_err());
}

#[test]
fn token_errors_map_to_the_authentication_category() {
    assert_eq!(ApiError::from(JWTError::DecodeFailed), ApiError::AuthenticationError);
    assert_eq!(ApiError::from(JWTError::GenerationFailed), ApiError::AuthenticationError);
}
