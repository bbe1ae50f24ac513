//! The user listing: pagination, search, ordering and exclusion of the
//! requesting user.

use kpower_server::errors::ApiError;
use kpower_server::fields::{InviteCode, User, Username};
use kpower_server::store::Store;
use kpower_server::user::{get_authenticated_user, get_users, QueryParams};

fn seed(store: &mut Store, names: &[&str]) {
    for (i, name) in names.iter().enumerate() {
        let username = Username::from(name.to_string());
        let code = InviteCode::from(format!("code{}", i));
        store.create_new_user(&username, &code, None).expect("fresh user");
    }
}

fn requester(name: &str) -> User {
    User {
        username: Username::from(name.to_string()),
        invite_code: InviteCode::from("own1234".to_string()),
        referred_by: None,
        referrals: 0,
    }
}

fn params(username: Option<&str>, page: Option<i64>, limit: Option<i64>) -> QueryParams {
    QueryParams { username: username.map(|s| s.to_string()), page, limit }
}

#[test]
fn page_two_of_twenty_five_users() {
    let mut store = Store::new();
    seed(&mut store, &["owner"]);
    let names: Vec<String> = (1..=25).map(|i| format!("user{:02}", i)).collect();
    for (i, name) in names.iter().enumerate() {
        let username = Username::from(name.clone());
        let code = InviteCode::from(format!("extra{}", i));
        store.create_new_user(&username, &code, None).expect("fresh user");
    }

    let resp = get_users(&store, params(None, Some(2), Some(10)), &requester("owner"))
        .expect("valid query");
    assert_eq!(resp.users.len(), 10);
    assert!(resp.pagination.has_prev);
    assert!(resp.pagination.has_next);
    assert_eq!(resp.pagination.current_page, 2);
    // 25 / 10 + 1, by the documented integer-division-plus-one formula.
    assert_eq!(resp.pagination.total_pages, 3);
    // Newest first: page two runs from the 15th newest down.
    assert_eq!(resp.users[0].username.inner(), "user15");
    assert_eq!(resp.users[9].username.inner(), "user06");
}

#[test]
fn exact_multiple_still_gains_a_page() {
    let mut store = Store::new();
    seed(&mut store, &["owner"]);
    for i in 1..=20 {
        let username = Username::from(format!("user{:02}", i));
        let code = InviteCode::from(format!("extra{}", i));
        store.create_new_user(&username, &code, None).expect("fresh user");
    }
    let resp = get_users(&store, params(None, Some(1), Some(10)), &requester("owner"))
        .expect("valid query");
    // 20 / 10 + 1: the documented rounding is preserved.
    assert_eq!(resp.pagination.total_pages, 3);
    assert!(resp.pagination.has_next);
    assert!(!resp.pagination.has_prev);
}

#[test]
fn defaults_are_page_one_and_limit_ten() {
    let mut store = Store::new();
    seed(&mut store, &["owner", "alice", "bobby"]);
    let resp = get_users(&store, params(None, None, None), &requester("owner"))
        .expect("valid query");
    assert_eq!(resp.users.len(), 2);
    assert_eq!(resp.pagination.current_page, 1);
    assert!(!resp.pagination.has_prev);
    assert!(!resp.pagination.has_next);
}

#[test]
fn search_matches_substrings_and_excludes_the_requester() {
    let mut store = Store::new();
    seed(&mut store, &["owner", "alice", "bob", "carol", "marchio"]);
    let resp = get_users(&store, params(Some("ar"), None, None), &requester("owner"))
        .expect("valid query");
    let names: Vec<String> = resp.users.iter().map(|u| u.username.inner()).collect();
    assert_eq!(names, vec!["marchio".to_string(), "carol".to_string()]);

    // The requesting user never appears, even when matching the search.
    let resp = get_users(&store, params(Some("o"), None, None), &requester("owner"))
        .expect("valid query");
    let names: Vec<String> = resp.users.iter().map(|u| u.username.inner()).collect();
    assert_eq!(names, vec!["marchio".to_string(), "carol".to_string(), "bob".to_string()]);
}

#[test]
fn invalid_page_or_limit_is_a_server_error() {
    let mut store = Store::new();
    seed(&mut store, &["owner", "alice"]);
    let r = get_users(&store, params(None, Some(0), Some(10)), &requester("owner"));
    assert!(matches!(r, Err(ApiError::ServerError)));
    let r = get_users(&store, params(None, Some(-3), Some(10)), &requester("owner"));
    assert!(matches!(r, Err(ApiError::ServerError)));
    let r = get_users(&store, params(None, Some(1), Some(-1)), &requester("owner"));
    assert!(matches!(r, Err(ApiError::ServerError)));
}

#[test]
fn profile_route_hands_the_resolved_user_back() {
    let me = requester("owner");
    let resp = get_authenticated_user(me);
    assert_eq!(resp.user.username.inner(), "owner");
    assert_eq!(resp.user.invite_code.inner(), "own1234");
}

#[test]
fn page_beyond_the_data_is_empty() {
    let mut store = Store::new();
    seed(&mut store, &["owner", "alice", "bobby"]);
    let resp = get_users(&store, params(None, Some(100), Some(10)), &requester("owner"))
        .expect("valid query");
    assert!(resp.users.is_empty());
    assert!(resp.pagination.has_prev);
    assert!(!resp.pagination.has_next);
    assert_eq!(resp.pagination.total_pages, 1);
}

#[test]
fn empty_search_matches_everyone() {
    let mut store = Store::new();
    seed(&mut store, &["owner", "alice", "bobby"]);
    let resp = get_users(&store, params(Some(""), None, None), &requester("owner"))
        .expect("valid query");
    assert_eq!(resp.users.len(), 2);
}
