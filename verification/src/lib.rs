//! A small referral-and-login service core: a client submits a username
//! (optionally with an invite code); the service either logs the user in or
//! registers a new account, links it to a referrer, issues a bearer token,
//! and notifies live subscribers of login, registration and referral events.

pub mod auth;
pub mod bus;
pub mod errors;
pub mod events;
pub mod fields;
pub mod jwt;
pub mod store;
pub mod user;
pub mod wire;
