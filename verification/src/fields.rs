//! Core field types: usernames, invite codes, user records and token claims.

use vstd::prelude::*;
use vstd::string::StrSliceExecFns;

verus! {

/// An opaque unique handle naming a user; immutable once created.
pub struct Username(String);

impl View for Username {
    type V = Seq<char>;

    closed spec fn view(&self) -> Seq<char> {
        self.0@
    }
}

impl Username {
    pub fn inner(&self) -> (r: String)
        ensures
            r@ == self@,
    {
        self.0.clone()
    }

    pub fn as_str(&self) -> (r: &str)
        ensures
            r@ == self@,
    {
        self.0.as_str()
    }
}

impl Clone for Username {
    fn clone(&self) -> (r: Self)
        ensures
            r@ == self@,
    {
        Username(self.0.clone())
    }
}

impl vstd::std_specs::convert::FromSpecImpl<String> for Username {
    open spec fn obeys_from_spec() -> bool {
        true
    }

    closed spec fn from_spec(v: String) -> Username {
        Username(v)
    }
}

impl From<String> for Username {
    fn from(value: String) -> (r: Self)
        ensures
            r@ == value@,
    {
        Username(value)
    }
}

/// The decimal digit character for `d` (0 through 9).
pub open spec fn digit_char(d: int) -> char {
    ((48 + d) as u8) as char
}

/// The four-digit decimal rendering of `d` (1001 through 9999).
pub open spec fn suffix_chars(d: int) -> Seq<char> {
    seq![
        digit_char(d / 1000 % 10),
        digit_char(d / 100 % 10),
        digit_char(d / 10 % 10),
        digit_char(d % 10),
    ]
}

/// A candidate invite code for `username`: its first three characters
/// followed by a four-digit suffix drawn from the fixed range.
pub open spec fn is_invite_candidate(code: Seq<char>, username: Seq<char>) -> bool {
    exists|d: int|
        1001 <= d <= 9999 && code == username.subrange(0, 3).add(suffix_chars(d))
}

/// The error of the invite code generator: the username is too short to
/// seed a code.
#[derive(PartialEq, Eq, Structural, Clone, Copy, Debug)]
pub enum InputError {
    UsernameTooShort,
}

/// Draws the numeric invite-code suffix.
///
/// Relies on rand: `Uniform::from(1001..=9999)` sampled with `thread_rng`
/// yields a value inside that inclusive range.
#[verifier::external_body]
fn sample_invite_suffix() -> (d: u64)
    ensures
        1001 <= d <= 9999,
{
    let mut rng = rand::thread_rng();
    let uni_sample = rand::distributions::Uniform::from(1001..=9999u64);
    rand::distributions::Distribution::sample(&uni_sample, &mut rng)
}

/// Appends one character to a string.
///
/// Relies on std's `String::push`, which appends the given `char`.
#[verifier::external_body]
pub(crate) fn push_char(s: &mut String, c: char)
    ensures
        final(s)@ == old(s)@.push(c),
{
    s.push(c);
}

/// Turns a digit (0 through 9) into its character.
fn digit_to_char(d: u64) -> (c: char)
    requires
        d < 10,
    ensures
        c == digit_char(d as int),
{
    (48 + d as u8) as char
}

/// A short code owned by one user; others submit it to name that user as
/// their referrer. Globally unique across all users once persisted.
pub struct InviteCode(String);

impl View for InviteCode {
    type V = Seq<char>;

    closed spec fn view(&self) -> Seq<char> {
        self.0@
    }
}

impl InviteCode {
    /// Produces a candidate code: the first three characters of the
    /// username followed by a random four-digit suffix.
    pub fn new(username: &str) -> (r: Result<Self, InputError>)
        ensures
            r is Ok <==> username@.len() >= 3,
            r matches Ok(c) ==> is_invite_candidate(c@, username@),
    {
        let d = Self::generate_invite_code_digit();
        Self::from_parts(username, d)
    }

    /// The candidate code for `username` with the given numeric suffix:
    /// the username's first three characters followed by the four digits.
    pub fn from_parts(username: &str, suffix: u64) -> (r: Result<Self, InputError>)
        requires
            1001 <= suffix <= 9999,
        ensures
            r is Ok <==> username@.len() >= 3,
            r matches Ok(c) ==> c@ == username@.subrange(0, 3).add(suffix_chars(suffix as int)),
            r matches Ok(c) ==> is_invite_candidate(c@, username@),
    {
        if username.unicode_len() < 3 {
            return Err(InputError::UsernameTooShort);
        }
        let prefix: &str = username.substring_char(0, 3);
        let mut code: String = prefix.to_owned();
        push_char(&mut code, digit_to_char(suffix / 1000 % 10));
        push_char(&mut code, digit_to_char(suffix / 100 % 10));
        push_char(&mut code, digit_to_char(suffix / 10 % 10));
        push_char(&mut code, digit_to_char(suffix % 10));
        proof {
            assert(code@ =~= username@.subrange(0, 3).add(suffix_chars(suffix as int)));
        }
        Ok(InviteCode(code))
    }

    pub fn inner(&self) -> (r: String)
        ensures
            r@ == self@,
    {
        self.0.clone()
    }

    pub fn as_str(&self) -> (r: &str)
        ensures
            r@ == self@,
    {
        self.0.as_str()
    }

    /// Draws the numeric suffix of a candidate code.
    fn generate_invite_code_digit() -> (d: u64)
        ensures
            1001 <= d <= 9999,
    {
        sample_invite_suffix()
    }
}

impl Clone for InviteCode {
    fn clone(&self) -> (r: Self)
        ensures
            r@ == self@,
    {
        InviteCode(self.0.clone())
    }
}

impl vstd::std_specs::convert::FromSpecImpl<String> for InviteCode {
    open spec fn obeys_from_spec() -> bool {
        true
    }

    closed spec fn from_spec(v: String) -> InviteCode {
        InviteCode(v)
    }
}

impl From<String> for InviteCode {
    fn from(value: String) -> (r: Self)
        ensures
            r@ == value@,
    {
        InviteCode(value)
    }
}

/// The view of a [`User`]: the mathematical record the contracts speak of.
pub ghost struct UserV {
    pub username: Seq<char>,
    pub invite_code: Seq<char>,
    pub referred_by: Option<Seq<char>>,
    pub referrals: int,
}

/// An identity record as the service hands it out: the stored fields plus
/// the derived referral count.
pub struct User {
    pub username: Username,
    pub invite_code: InviteCode,
    pub referred_by: Option<Username>,
    pub referrals: i64,
}

impl View for User {
    type V = UserV;

    open spec fn view(&self) -> UserV {
        UserV {
            username: self.username@,
            invite_code: self.invite_code@,
            referred_by: match self.referred_by {
                Some(u) => Some(u@),
                None => None,
            },
            referrals: self.referrals as int,
        }
    }
}

impl Clone for User {
    fn clone(&self) -> (r: Self)
        ensures
            r@ == self@,
    {
        User {
            username: self.username.clone(),
            invite_code: self.invite_code.clone(),
            referred_by: match &self.referred_by {
                Some(u) => Some(u.clone()),
                None => None,
            },
            referrals: self.referrals,
        }
    }
}

/// The view of [`Claims`].
pub ghost struct ClaimsV {
    pub sub: Seq<char>,
    pub iss: Seq<char>,
    pub exp: int,
}

/// Ephemeral identity claims carried by a bearer token: subject (username),
/// issuer (the configured service identity) and absolute expiry (seconds).
pub struct Claims {
    pub sub: String,
    pub iss: String,
    pub exp: u64,
}

impl View for Claims {
    type V = ClaimsV;

    open spec fn view(&self) -> ClaimsV {
        ClaimsV { sub: self.sub@, iss: self.iss@, exp: self.exp as int }
    }
}

} // verus!
