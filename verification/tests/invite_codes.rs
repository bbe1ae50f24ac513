//! The invite code generator: candidate shape, input validation, and
//! retry-until-unique against the store.

use kpower_server::auth::{generate_unique_invite_code, InviteCodeError};
use kpower_server::fields::{InputError, InviteCode, Username};
use kpower_server::store::Store;

#[test]
fn candidate_code_has_prefix_and_suffix_in_range() {
    let code = InviteCode::new("alice").expect("long enough username").inner();
    assert_eq!(code.len(), 7);
    assert_eq!(&code[..3], "ali");
    let suffix: u64 = code[3..].parse().expect("numeric suffix");
    assert!((1001..=9999).contains(&suffix));
}

#[test]
fn short_username_is_rejected() {
    assert!(matches!(InviteCode::new("al"), Err(InputError::UsernameTooShort)));
    assert!(matches!(InviteCode::new(""), Err(InputError::UsernameTooShort)));
    assert!(InviteCode::new("abc").is_ok());
}

#[test]
fn from_parts_renders_the_exact_code() {
    let code = InviteCode::from_parts("alice", 1234).unwrap();
    assert_eq!(code.inner(), "ali1234");
    let code = InviteCode::from_parts("bobby", 9999).unwrap();
    assert_eq!(code.inner(), "bob9999");
}

#[test]
fn generated_code_is_absent_from_the_store() {
    let store = Store::new();
    let code = generate_unique_invite_code(&store, "alice", 16).expect("empty store has room");
    assert!(store.get_user_by_invite_code(&code).is_none());
    assert_eq!(&code.inner()[..3], "ali");
}

#[test]
fn generation_skips_taken_codes_until_a_free_one() {
    let mut store = Store::new();
    // Claim ali1001 through ali1004, leaving ali1005 the first free code.
    for (i, suffix) in (1001u64..=1004).enumerate() {
        let username = Username::from(format!("user{}", i));
        let code = InviteCode::from_parts("alice", suffix).unwrap();
        store.create_new_user(&username, &code, None).expect("fresh user and code");
    }
    // With no random draws, the generator sweeps the space in order and
    // must settle on the first code the store confirms absent.
    let code = generate_unique_invite_code(&store, "alice", 0).expect("free codes remain");
    assert_eq!(code.inner(), "ali1005");
}

#[test]
fn generation_rejects_short_usernames() {
    let store = Store::new();
    let r = generate_unique_invite_code(&store, "al", 16);
    assert!(matches!(r, Err(InviteCodeError::InputError)));
    let r = generate_unique_invite_code(&store, "al", 0);
    assert!(matches!(r, Err(InviteCodeError::InputError)));
}
