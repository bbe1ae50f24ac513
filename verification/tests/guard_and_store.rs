//! The access guard, the store's uniqueness constraints, and the error
//! taxonomy's transport mapping.

use kpower_server::auth::{authenticate, check_auth, AuthenticateRequest};
use kpower_server::bus::EventBus;
use kpower_server::errors::{ApiError, DatabaseError};
use kpower_server::fields::{InviteCode, Username};
use kpower_server::jwt::{generate_auth_token, JwtConfig};
use kpower_server::store::Store;

fn config() -> JwtConfig {
    JwtConfig { secret: b"test-secret".to_vec(), iss: "kpower".to_string(), exp: 600 }
}

#[test]
fn guard_accepts_a_fresh_token_and_resolves_the_user() {
    let mut store = Store::new();
    let mut bus = EventBus::new(100);
    let cfg = config();
    let req = AuthenticateRequest {
        username: Username::from("alice".to_string()),
        invitation_code: None,
    };
    let resp = authenticate(&mut store, &mut bus, &cfg, req, 1000).expect("registration");

    let user = check_auth(&store, &cfg, &resp.token, 1100).expect("guard should pass");
    assert_eq!(user.username.inner(), "alice");
}

#[test]
fn guard_rejects_expired_and_malformed_tokens() {
    let mut store = Store::new();
    let mut bus = EventBus::new(100);
    let cfg = config();
    let req = AuthenticateRequest {
        username: Username::from("alice".to_string()),
        invitation_code: None,
    };
    let resp = authenticate(&mut store, &mut bus, &cfg, req, 1000).expect("registration");

    let r = check_auth(&store, &cfg, &resp.token, 1600);
    assert!(matches!(r, Err(ApiError::AuthenticationError)));
    let r = check_auth(&store, &cfg, "definitely.not.valid", 1100);
    assert!(matches!(r, Err(ApiError::AuthenticationError)));
}

#[test]
fn guard_rejects_a_subject_the_store_cannot_resolve() {
    let store = Store::new();
    let cfg = config();
    // A formally valid token whose subject has no record.
    let token = generate_auth_token(&Username::from("ghost".to_string()), &cfg, 1000);
    let r = check_auth(&store, &cfg, &token, 1100);
    assert!(matches!(r, Err(ApiError::AuthenticationError)));
}

#[test]
fn store_refuses_duplicate_usernames_and_codes() {
    let mut store = Store::new();
    let alice = Username::from("alice".to_string());
    let bobby = Username::from("bobby".to_string());
    let code_a = InviteCode::from("ali1001".to_string());
    let code_b = InviteCode::from("bob1001".to_string());

    store.create_new_user(&alice, &code_a, None).expect("first insert");
    // Same username, different code.
    let r = store.create_new_user(&alice, &code_b, None);
    assert!(matches!(r, Err(DatabaseError::ServerError)));
    // Different username, same code.
    let r = store.create_new_user(&bobby, &code_a, None);
    assert!(matches!(r, Err(DatabaseError::ServerError)));
    assert_eq!(store.user_count(), 1);

    store.create_new_user(&bobby, &code_b, None).expect("both parts fresh");
    assert_eq!(store.user_count(), 2);
}

#[test]
fn referral_counts_are_derived_from_referrers() {
    let mut store = Store::new();
    let alice = Username::from("alice".to_string());
    store.create_new_user(&alice, &InviteCode::from("ali1001".to_string()), None).unwrap();
    for i in 0..3 {
        let follower = Username::from(format!("user{}", i));
        let code = InviteCode::from(format!("usr100{}", i));
        store
            .create_new_user(&follower, &code, Some(Username::from("alice".to_string())))
            .unwrap();
    }
    let user = store.get_user_by_username(&alice).unwrap();
    assert_eq!(user.referrals, 3);
    let follower = store.get_user_by_username(&Username::from("user0".to_string())).unwrap();
    assert_eq!(follower.referrals, 0);
}

#[test]
fn lookup_by_invite_code_finds_the_owner() {
    let mut store = Store::new();
    let alice = Username::from("alice".to_string());
    let code = InviteCode::from("ali1001".to_string());
    store.create_new_user(&alice, &code, None).unwrap();

    let owner = store.get_user_by_invite_code(&code).expect("code is owned");
    assert_eq!(owner.username.inner(), "alice");
    assert!(store.get_user_by_invite_code(&InviteCode::from("zzz9999".to_string())).is_none());
}

#[test]
fn error_categories_map_to_status_and_message() {
    assert_eq!(ApiError::InvalidInviteCode.status_code(), 400);
    assert_eq!(ApiError::InvalidInviteCode.message(), "Invalid invite code");
    assert_eq!(ApiError::ServerError.status_code(), 500);
    assert_eq!(ApiError::ServerError.message(), "Something went wrong");
    assert_eq!(ApiError::AuthenticationError.status_code(), 401);
    assert_eq!(ApiError::AuthenticationError.message(), "Authentication failed");
    assert_eq!(ApiError::from(DatabaseError::ServerError), ApiError::ServerError);
}
