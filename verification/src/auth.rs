//! The authenticate-or-register orchestrator and the access guard: the
//! decision flow composing the store, the invite code generator, the
//! token service and the event bus.

use crate::bus::EventBus;
use crate::errors::ApiError;
use crate::events::{AppEvent, AppEventV, NewReferralEvent, NewReferralEventV};
use crate::fields::{is_invite_candidate, suffix_chars, InviteCode, User, Username};
use crate::jwt::{decoded_of, generate_auth_token, token_of, JwtConfig};
use crate::store::{
    has_invite_code, has_username, rec_by_invite_code, rec_by_username, user_of, Store, UserRecV,
};
use vstd::prelude::*;
use vstd::string::StrSliceExecFns;

verus! {

/// The body of an authenticate request: a username, and optionally the
/// invite code of the user who referred them.
pub struct AuthenticateRequest {
    pub username: Username,
    pub invitation_code: Option<InviteCode>,
}

/// The body of a successful authenticate response: the bearer token.
pub struct AuthenticateResponse {
    pub token: String,
}

impl vstd::std_specs::convert::FromSpecImpl<String> for AuthenticateResponse {
    open spec fn obeys_from_spec() -> bool {
        true
    }

    open spec fn from_spec(v: String) -> AuthenticateResponse {
        AuthenticateResponse { token: v }
    }
}

impl From<String> for AuthenticateResponse {
    fn from(token: String) -> (r: Self)
        ensures
            r == (AuthenticateResponse { token }),
    {
        AuthenticateResponse { token }
    }
}

/// The error of unique invite code generation.
#[derive(PartialEq, Eq, Structural, Clone, Copy, Debug)]
pub enum InviteCodeError {
    /// The username is shorter than the required prefix.
    InputError,
    /// Every candidate code for this username is already owned.
    SpaceExhausted,
}

/// Some candidate code for `username` is still free in `s`.
pub open spec fn code_available(s: Seq<UserRecV>, username: Seq<char>) -> bool {
    exists|d: int|
        1001 <= d <= 9999 && !has_invite_code(s, username.subrange(0, 3).add(#[trigger] suffix_chars(d)))
}

/// How many random candidates the orchestrator draws before sweeping the
/// code space deterministically.
pub const RANDOM_DRAW_ATTEMPTS: u64 = 16;

/// Generates an invite code for `username` that the store confirms
/// absent. Up to `random_attempts` candidates are drawn at random and
/// checked against the store; if all of them collide, the code space is
/// swept in order, so the loop terminates as soon as a truly free code
/// exists. Fails with `InputError` exactly when the username is shorter
/// than the required prefix, and with `SpaceExhausted` exactly when
/// every candidate code is already owned.
pub fn generate_unique_invite_code(store: &Store, username: &str, random_attempts: u64) -> (r:
    Result<InviteCode, InviteCodeError>)
    requires
        store.wf(),
    ensures
        username@.len() < 3 ==> (r matches Err(e) && e == InviteCodeError::InputError),
        username@.len() >= 3 ==> (r is Ok <==> code_available(store@, username@)),
        r matches Ok(c) ==> is_invite_candidate(c@, username@) && !has_invite_code(store@, c@),
        r matches Err(e) ==> (username@.len() >= 3 ==> e == InviteCodeError::SpaceExhausted),
{
    let mut attempts: u64 = 0;
    while attempts < random_attempts
        invariant
            store.wf(),
        decreases random_attempts - attempts,
    {
        let candidate = match InviteCode::new(username) {
            Ok(c) => c,
            Err(_) => {
                return Err(InviteCodeError::InputError);
            },
        };
        if store.get_user_by_invite_code(&candidate).is_none() {
            proof {
                let d = choose|d: int|
                    1001 <= d <= 9999 && candidate@ == username@.subrange(0, 3).add(
                        suffix_chars(d),
                    );
                assert(!has_invite_code(store@, username@.subrange(0, 3).add(suffix_chars(d))));
            }
            return Ok(candidate);
        }
        attempts += 1;
    }
    if username.unicode_len() < 3 {
        return Err(InviteCodeError::InputError);
    }
    let mut d: u64 = 1001;
    while d <= 9999
        invariant
            store.wf(),
            username@.len() >= 3,
            1001 <= d <= 10000,
            forall|dd: int|
                1001 <= dd < d ==> has_invite_code(
                    store@,
                    username@.subrange(0, 3).add(#[trigger] suffix_chars(dd)),
                ),
        decreases 10000 - d,
    {
        let candidate = match InviteCode::from_parts(username, d) {
            Ok(c) => c,
            Err(_) => {
                proof {
                    assert(false);
                }
                return Err(InviteCodeError::InputError);
            },
        };
        if store.get_user_by_invite_code(&candidate).is_none() {
            proof {
                assert(!has_invite_code(store@, username@.subrange(0, 3).add(
                    suffix_chars(d as int),
                )));
            }
            return Ok(candidate);
        }
        d += 1;
    }
    Err(InviteCodeError::SpaceExhausted)
}

/// The view of the optional invite code of a request.
pub open spec fn invite_view(payload: &AuthenticateRequest) -> Option<Seq<char>> {
    match payload.invitation_code {
        Some(ref c) => Some(c@),
        None => None,
    }
}

/// The events a registration publishes: the referral (if the new user
/// was referred) and then the registration itself, both carrying the
/// record as it reads right after creation.
pub open spec fn register_events(s1: Seq<UserRecV>, rec: UserRecV) -> Seq<AppEventV> {
    let new_user = user_of(s1, rec);
    match rec.referred_by {
        Some(referrer) => seq![
            AppEventV::NewReferral(
                NewReferralEventV { referrer, referred_user: rec.username },
            ),
            AppEventV::NewRegister(new_user),
        ],
        None => seq![AppEventV::NewRegister(new_user)],
    }
}

/// What `authenticate` does: how the store (`s0` to `s1`) and the
/// published event history (`h0` to `h1`) move, and what is returned,
/// for a request with `username` and optional `invite`, under a token
/// configuration whose secret is `secret`, issuer `iss`, and whose
/// issued tokens expire at `exp_at`.
pub open spec fn authenticate_post(
    s0: Seq<UserRecV>,
    s1: Seq<UserRecV>,
    h0: Seq<AppEventV>,
    h1: Seq<AppEventV>,
    secret: Seq<u8>,
    iss: Seq<char>,
    exp_at: int,
    username: Seq<char>,
    invite: Option<Seq<char>>,
    r: Result<AuthenticateResponse, ApiError>,
) -> bool {
    if has_username(s0, username) {
        // Login: no record is created, the login is published, and a
        // token for the existing identity is returned. A supplied invite
        // code is ignored.
        &&& s1 == s0
        &&& h1 == h0.push(AppEventV::NewLogin(user_of(s0, rec_by_username(s0, username))))
        &&& r matches Ok(resp) && resp.token@ == token_of(secret, username, iss, exp_at)
    } else if invite matches Some(c) && !has_invite_code(s0, c) {
        // Registration with an unknown invite code: rejected, nothing
        // committed, nothing published.
        &&& s1 == s0
        &&& h1 == h0
        &&& r matches Err(e) && e == ApiError::InvalidInviteCode
    } else if username.len() < 3 {
        // The invite code generator rejects the username.
        &&& s1 == s0
        &&& h1 == h0
        &&& r matches Err(e) && e == ApiError::ServerError
    } else if !code_available(s0, username) {
        // Every candidate invite code is taken.
        &&& s1 == s0
        &&& h1 == h0
        &&& r matches Err(e) && e == ApiError::ServerError
    } else if s0.len() >= i64::MAX - 1 {
        // The store can hold no further record.
        &&& s1 == s0
        &&& h1 == h0
        &&& r matches Err(e) && e == ApiError::ServerError
    } else {
        // Registration: exactly one record is created, carrying a fresh
        // candidate code and the invite owner as referrer; the referral
        // (if any) and the registration are published, in that order;
        // a token for the new identity is returned.
        exists|code: Seq<char>|
            {
                let rec = UserRecV {
                    username,
                    invite_code: code,
                    referred_by: match invite {
                        Some(c) => Some(rec_by_invite_code(s0, c).username),
                        None => None,
                    },
                };
                &&& #[trigger] is_invite_candidate(code, username)
                &&& !has_invite_code(s0, code)
                &&& s1 == s0.push(rec)
                &&& h1 == h0 + register_events(s0.push(rec), rec)
                &&& r matches Ok(resp) && resp.token@ == token_of(secret, username, iss, exp_at)
            }
    }
}

/// Authenticates a request at time `now` (seconds): logs the user in if
/// the username exists, registers them otherwise (linking the referrer
/// named by the invite code, if one was supplied), publishes the
/// corresponding events, and returns a bearer token. Exactly which
/// outcome and which side effects occur is pinned by
/// [`authenticate_post`].
pub fn authenticate(
    store: &mut Store,
    bus: &mut EventBus,
    jwt_config: &JwtConfig,
    payload: AuthenticateRequest,
    now: u64,
) -> (r: Result<AuthenticateResponse, ApiError>)
    requires
        old(store).wf(),
        old(bus).wf(),
        now + jwt_config.exp <= u64::MAX,
        old(bus)@.history.len() + 2 <= usize::MAX,
    ensures
        final(store).wf(),
        final(bus).wf(),
        final(bus)@.capacity == old(bus)@.capacity,
        final(bus)@.subs == old(bus)@.subs,
        authenticate_post(
            old(store)@,
            final(store)@,
            old(bus)@.history,
            final(bus)@.history,
            jwt_config.secret@,
            jwt_config.iss@,
            now + jwt_config.exp,
            payload.username@,
            invite_view(&payload),
            r,
        ),
        r matches Ok(resp) ==> decoded_of(resp.token@, jwt_config.secret@) == Some(
            (payload.username@, jwt_config.iss@, (now + jwt_config.exp) as int),
        ),
{
    let ghost s0 = store@;
    let ghost h0 = bus@.history;
    if let Some(user) = store.get_user_by_username(&payload.username) {
        // Login.
        bus.publish(AppEvent::NewLogin(user.clone()));
        let token = generate_auth_token(&user.username, jwt_config, now);
        return Ok(AuthenticateResponse::from(token));
    }
    // Registration: resolve the referrer first.
    let referrer: Option<Username> = match &payload.invitation_code {
        Some(invite_code) => match store.get_user_by_invite_code(invite_code) {
            Some(owner) => Some(owner.username),
            None => {
                return Err(ApiError::InvalidInviteCode);
            },
        },
        None => None,
    };
    let invite_code = match generate_unique_invite_code(
        &*store,
        payload.username.as_str(),
        RANDOM_DRAW_ATTEMPTS,
    ) {
        Ok(c) => c,
        Err(_) => {
            return Err(ApiError::ServerError);
        },
    };
    if let Err(_) = store.create_new_user(&payload.username, &invite_code, referrer) {
        return Err(ApiError::ServerError);
    }
    let ghost rec = UserRecV {
        username: payload.username@,
        invite_code: invite_code@,
        referred_by: match invite_view(&payload) {
            Some(c) => Some(rec_by_invite_code(s0, c).username),
            None => None,
        },
    };
    proof {
        assert(store@ == s0.push(rec));
        assert(store@[s0.len() as int].username == payload.username@);
        let j = crate::store::username_index(store@, payload.username@);
        assert(0 <= j < store@.len() && store@[j].username == payload.username@);
        if j < s0.len() {
            assert(s0[j] == store@[j]);
            assert(false);
        }
        assert(rec_by_username(store@, payload.username@) == rec);
    }
    // Re-read the created record to obtain the derived fields.
    let user = match store.get_user_by_username(&payload.username) {
        Some(u) => u,
        None => {
            proof {
                assert(false);
            }
            return Err(ApiError::ServerError);
        },
    };
    if let Some(referrer_name) = &user.referred_by {
        bus.publish(
            AppEvent::NewReferral(
                NewReferralEvent {
                    referrer: referrer_name.clone(),
                    referred_user: user.username.clone(),
                },
            ),
        );
    }
    bus.publish(AppEvent::NewRegister(user.clone()));
    proof {
        assert(bus@.history =~= h0 + register_events(store@, rec));
    }
    let token = generate_auth_token(&user.username, jwt_config, now);
    Ok(AuthenticateResponse::from(token))
}

/// The access guard: verifies the bearer token at time `now` and
/// re-resolves the subject against the store. Succeeds with the resolved
/// user exactly when the token decodes under the configured secret, has
/// not expired, and its subject still exists; every failure reads as the
/// one authentication error.
pub fn check_auth(store: &Store, jwt_config: &JwtConfig, token: &str, now: u64) -> (r: Result<
    User,
    ApiError,
>)
    requires
        store.wf(),
    ensures
        match decoded_of(token@, jwt_config.secret@) {
            Some(t) => {
                if t.2 > now && has_username(store@, t.0) {
                    r matches Ok(u) && u@ == user_of(store@, rec_by_username(store@, t.0))
                } else {
                    r matches Err(e) && e == ApiError::AuthenticationError
                }
            },
            None => r matches Err(e) && e == ApiError::AuthenticationError,
        },
{
    let claims = match crate::jwt::decode_auth_token(token, jwt_config, now) {
        Ok(c) => c,
        Err(_) => {
            return Err(ApiError::AuthenticationError);
        },
    };
    let username = Username::from(claims.sub);
    match store.get_user_by_username(&username) {
        Some(u) => Ok(u),
        None => Err(ApiError::AuthenticationError),
    }
}

} // verus!
