//! The user store: the persisted identity records, modelled as an
//! in-memory table. It owns every persisted user record, keeps usernames
//! and invite codes unique, and remembers creation order (listings run
//! newest first).

use crate::errors::DatabaseError;
use crate::fields::{InviteCode, User, UserV, Username};
use vstd::prelude::*;

verus! {

/// The view of one stored record: exactly the persisted fields. The
/// referral count is derived on read, never stored.
pub ghost struct UserRecV {
    pub username: Seq<char>,
    pub invite_code: Seq<char>,
    pub referred_by: Option<Seq<char>>,
}

/// One persisted user record.
struct UserRecord {
    username: String,
    invite_code: String,
    referred_by: Option<String>,
}

impl View for UserRecord {
    type V = UserRecV;

    closed spec fn view(&self) -> UserRecV {
        UserRecV {
            username: self.username@,
            invite_code: self.invite_code@,
            referred_by: match self.referred_by {
                Some(ref s) => Some(s@),
                None => None,
            },
        }
    }
}

/// Some record of `s` carries username `u`.
pub open spec fn has_username(s: Seq<UserRecV>, u: Seq<char>) -> bool {
    exists|i: int| 0 <= i < s.len() && s[i].username == u
}

/// The index of the record carrying username `u` (unique under [`store_wf`]).
pub open spec fn username_index(s: Seq<UserRecV>, u: Seq<char>) -> int {
    choose|i: int| 0 <= i < s.len() && s[i].username == u
}

/// The record of `s` carrying username `u`.
pub open spec fn rec_by_username(s: Seq<UserRecV>, u: Seq<char>) -> UserRecV {
    s[username_index(s, u)]
}

/// Some record of `s` owns invite code `c`.
pub open spec fn has_invite_code(s: Seq<UserRecV>, c: Seq<char>) -> bool {
    exists|i: int| 0 <= i < s.len() && s[i].invite_code == c
}

/// The index of the record owning invite code `c` (unique under [`store_wf`]).
pub open spec fn invite_code_index(s: Seq<UserRecV>, c: Seq<char>) -> int {
    choose|i: int| 0 <= i < s.len() && s[i].invite_code == c
}

/// The record of `s` owning invite code `c`.
pub open spec fn rec_by_invite_code(s: Seq<UserRecV>, c: Seq<char>) -> UserRecV {
    s[invite_code_index(s, c)]
}

/// How many records of `s` name `u` as their referrer.
pub open spec fn referral_count(s: Seq<UserRecV>, u: Seq<char>) -> int
    decreases s.len(),
{
    if s.len() == 0 {
        0
    } else {
        referral_count(s.drop_last(), u) + if s.last().referred_by == Some(u) {
            1int
        } else {
            0int
        }
    }
}

/// The user that record `r` reads as, against the whole table `s`: the
/// stored fields plus the derived referral count.
pub open spec fn user_of(s: Seq<UserRecV>, r: UserRecV) -> UserV {
    UserV {
        username: r.username,
        invite_code: r.invite_code,
        referred_by: r.referred_by,
        referrals: referral_count(s, r.username),
    }
}

/// `n` occurs in `h` as a contiguous run of characters.
pub open spec fn contains_seq(h: Seq<char>, n: Seq<char>) -> bool {
    exists|i: int| 0 <= i && i + n.len() <= h.len() && #[trigger] h.subrange(i, i + n.len()) == n
}

/// Whether `n` occurs in `h` as a substring, character for character.
pub fn contains_substr(h: &String, n: &String) -> (r: bool)
    ensures
        r == contains_seq(h@, n@),
{
    let hl = h.as_str().unicode_len();
    let nl = n.as_str().unicode_len();
    if nl > hl {
        return false;
    }
    let mut i: usize = 0;
    while i <= hl - nl
        invariant
            hl == h@.len(),
            nl == n@.len(),
            nl <= hl,
            i <= hl - nl + 1,
            forall|k: int| 0 <= k < i ==> #[trigger] h@.subrange(k, k + n@.len()) != n@,
        decreases hl - nl - i + 1,
    {
        let mut j: usize = 0;
        let mut matched = true;
        while j < nl
            invariant
                hl == h@.len(),
                nl == n@.len(),
                i + nl <= hl,
                j <= nl,
                matched || j == nl,
                matched <==> (forall|t: int| 0 <= t < j ==> h@[i + t] == n@[t]),
            decreases nl - j,
        {
            if h.as_str().get_char(i + j) != n.as_str().get_char(j) {
                matched = false;
                j = nl;
            } else {
                proof {
                    assert(forall|t: int| 0 <= t < j + 1 ==> h@[i + t] == n@[t]);
                }
                j += 1;
            }
        }
        if matched {
            proof {
                assert(h@.subrange(i as int, i + n@.len()) =~= n@);
            }
            return true;
        }
        proof {
            let w = choose|t: int| 0 <= t < nl && h@[i + t] != n@[t];
            assert(h@.subrange(i as int, i + n@.len())[w] == h@[i + w]);
            assert(h@.subrange(i as int, i + n@.len()) != n@);
        }
        i += 1;
    }
    proof {
        assert(forall|k: int|
            0 <= k && k + n@.len() <= h@.len() ==> #[trigger] h@.subrange(k, k + n@.len())
                != n@);
    }
    false
}

/// The search parameters of a listing: an optional username substring,
/// the requesting user (always excluded from results), and the offset and
/// page size of the window.
pub struct FetchUserQuery {
    pub username: Option<String>,
    pub auth_user: String,
    pub skip: i64,
    pub limit: i64,
}

impl FetchUserQuery {
    /// The view of the optional search string.
    pub open spec fn search_view(&self) -> Option<Seq<char>> {
        match self.username {
            Some(ref s) => Some(s@),
            None => None,
        }
    }
}

/// Whether a record is selected by a listing: not the requesting user,
/// and carrying the searched substring if one was given.
pub open spec fn matches_query(r: UserRecV, search: Option<Seq<char>>, auth_user: Seq<char>) -> bool {
    &&& r.username != auth_user
    &&& match search {
        Some(q) => contains_seq(r.username, q),
        None => true,
    }
}

/// The records a listing selects, in creation order.
pub open spec fn filtered_recs(
    s: Seq<UserRecV>,
    search: Option<Seq<char>>,
    auth_user: Seq<char>,
) -> Seq<UserRecV>
    decreases s.len(),
{
    if s.len() == 0 {
        Seq::empty()
    } else {
        filtered_recs(s.drop_last(), search, auth_user) + if matches_query(
            s.last(),
            search,
            auth_user,
        ) {
            seq![s.last()]
        } else {
            Seq::empty()
        }
    }
}

/// The listing selects at most as many records as the store holds.
pub proof fn lemma_filtered_recs_len(
    s: Seq<UserRecV>,
    search: Option<Seq<char>>,
    auth_user: Seq<char>,
)
    ensures
        filtered_recs(s, search, auth_user).len() <= s.len(),
    decreases s.len(),
{
    if s.len() > 0 {
        lemma_filtered_recs_len(s.drop_last(), search, auth_user);
    }
}

/// The window a listing returns: the selected records, newest first,
/// from offset `skip`, at most `limit` long (both nonnegative).
pub open spec fn page_recs(filt: Seq<UserRecV>, skip: int, limit: int) -> Seq<UserRecV> {
    let ordered = filt.reverse();
    let lo = if skip <= ordered.len() {
        skip
    } else {
        ordered.len() as int
    };
    let hi = if skip + limit <= ordered.len() {
        skip + limit
    } else {
        ordered.len() as int
    };
    ordered.subrange(lo, hi)
}

/// The store's invariant: usernames and invite codes are unique across
/// all records.
pub open spec fn store_wf(s: Seq<UserRecV>) -> bool {
    &&& forall|i: int, j: int|
        0 <= i < j < s.len() ==> s[i].username != s[j].username
    &&& forall|i: int, j: int|
        0 <= i < j < s.len() ==> s[i].invite_code != s[j].invite_code
}

/// The user store. Lookups and listings never fail; creation fails when a
/// uniqueness constraint would be violated.
pub struct Store {
    users: Vec<UserRecord>,
}

impl View for Store {
    type V = Seq<UserRecV>;

    closed spec fn view(&self) -> Seq<UserRecV> {
        self.users@.map_values(|r: UserRecord| r@)
    }
}

impl Store {
    /// Well-formed: unique usernames and invite codes, and a record count
    /// a listing can report as a signed 64-bit total.
    pub open spec fn wf(&self) -> bool {
        &&& store_wf(self@)
        &&& self@.len() < i64::MAX
    }

    /// An empty store.
    pub fn new() -> (r: Store)
        ensures
            r.wf(),
            r@ == Seq::<UserRecV>::empty(),
    {
        let s = Store { users: Vec::new() };
        proof {
            assert(s@ =~= Seq::<UserRecV>::empty());
        }
        s
    }

    /// How many records the store holds.
    pub fn user_count(&self) -> (r: usize)
        ensures
            r == self@.len(),
    {
        self.users.len()
    }

    /// The index of the record carrying `username`, if any.
    fn find_by_username(&self, username: &String) -> (r: Option<usize>)
        ensures
            match r {
                Some(i) => i < self@.len() && self@[i as int].username == username@,
                None => !has_username(self@, username@),
            },
    {
        let mut i: usize = 0;
        while i < self.users.len()
            invariant
                i <= self@.len(),
                self@.len() == self.users@.len(),
                forall|j: int| 0 <= j < i ==> self@[j].username != username@,
            decreases self@.len() - i,
        {
            if self.users[i].username == *username {
                return Some(i);
            }
            i += 1;
        }
        None
    }

    /// The index of the record owning `invite_code`, if any.
    fn find_by_invite_code(&self, invite_code: &String) -> (r: Option<usize>)
        ensures
            match r {
                Some(i) => i < self@.len() && self@[i as int].invite_code == invite_code@,
                None => !has_invite_code(self@, invite_code@),
            },
    {
        let mut i: usize = 0;
        while i < self.users.len()
            invariant
                i <= self@.len(),
                self@.len() == self.users@.len(),
                forall|j: int| 0 <= j < i ==> self@[j].invite_code != invite_code@,
            decreases self@.len() - i,
        {
            if self.users[i].invite_code == *invite_code {
                return Some(i);
            }
            i += 1;
        }
        None
    }

    /// Counts the records naming `username` as their referrer.
    fn count_referrals(&self, username: &String) -> (r: i64)
        requires
            self.wf(),
        ensures
            r == referral_count(self@, username@),
    {
        let mut count: i64 = 0;
        let mut i: usize = 0;
        proof {
            assert(self@.take(0) =~= Seq::<UserRecV>::empty());
        }
        while i < self.users.len()
            invariant
                i <= self@.len(),
                self@.len() == self.users@.len(),
                self@.len() <= i64::MAX,
                count == referral_count(self@.take(i as int), username@),
                0 <= count <= i,
            decreases self@.len() - i,
        {
            proof {
                assert(self@.take(i + 1).drop_last() =~= self@.take(i as int));
                assert(self@.take(i + 1).last() == self@[i as int]);
            }
            match &self.users[i].referred_by {
                Some(r) => {
                    if *r == *username {
                        count += 1;
                    }
                },
                None => {},
            }
            i += 1;
        }
        proof {
            assert(self@.take(self@.len() as int) =~= self@);
        }
        count
    }

    /// Reads record `i` as a [`User`], referral count included.
    fn make_user(&self, i: usize) -> (r: User)
        requires
            self.wf(),
            i < self@.len(),
        ensures
            r@ == user_of(self@, self@[i as int]),
    {
        let rec = &self.users[i];
        let referrals = self.count_referrals(&rec.username);
        User {
            username: Username::from(rec.username.clone()),
            invite_code: InviteCode::from(rec.invite_code.clone()),
            referred_by: match &rec.referred_by {
                Some(s) => Some(Username::from(s.clone())),
                None => None,
            },
            referrals,
        }
    }

    /// Looks a user up by username; `None` exactly when no record carries it.
    pub fn get_user_by_username(&self, username: &Username) -> (r: Option<User>)
        requires
            self.wf(),
        ensures
            match r {
                Some(u) => has_username(self@, username@) && u@ == user_of(
                    self@,
                    rec_by_username(self@, username@),
                ),
                None => !has_username(self@, username@),
            },
    {
        let name = username.inner();
        match self.find_by_username(&name) {
            Some(i) => {
                proof {
                    let j = username_index(self@, username@);
                    assert(0 <= j < self@.len() && self@[j].username == username@);
                    assert(j == i as int);
                }
                Some(self.make_user(i))
            },
            None => None,
        }
    }

    /// Looks a user up by the invite code they own; `None` exactly when no
    /// record owns it.
    pub fn get_user_by_invite_code(&self, invite_code: &InviteCode) -> (r: Option<User>)
        requires
            self.wf(),
        ensures
            match r {
                Some(u) => has_invite_code(self@, invite_code@) && u@ == user_of(
                    self@,
                    rec_by_invite_code(self@, invite_code@),
                ),
                None => !has_invite_code(self@, invite_code@),
            },
    {
        let code = invite_code.inner();
        match self.find_by_invite_code(&code) {
            Some(i) => {
                proof {
                    let j = invite_code_index(self@, invite_code@);
                    assert(0 <= j < self@.len() && self@[j].invite_code == invite_code@);
                    assert(j == i as int);
                }
                Some(self.make_user(i))
            },
            None => None,
        }
    }

    /// Creates a user record. Fails with `ServerError` exactly when a
    /// uniqueness constraint (username or invite code) would be violated,
    /// or the store can hold no further record; nothing is committed then.
    pub fn create_new_user(
        &mut self,
        username: &Username,
        invite_code: &InviteCode,
        referred_by: Option<Username>,
    ) -> (r: Result<(), DatabaseError>)
        requires
            old(self).wf(),
        ensures
            final(self).wf(),
            r is Ok <==> (!has_username(old(self)@, username@) && !has_invite_code(
                old(self)@,
                invite_code@,
            ) && old(self)@.len() < i64::MAX - 1),
            r is Ok ==> final(self)@ == old(self)@.push(
                UserRecV {
                    username: username@,
                    invite_code: invite_code@,
                    referred_by: match referred_by {
                        Some(u) => Some(u@),
                        None => None,
                    },
                },
            ),
            r is Err ==> final(self)@ == old(self)@,
    {
        let name = username.inner();
        if self.find_by_username(&name).is_some() {
            return Err(DatabaseError::ServerError);
        }
        let code = invite_code.inner();
        if self.find_by_invite_code(&code).is_some() {
            return Err(DatabaseError::ServerError);
        }
        if self.users.len() as u64 >= 0x7fff_ffff_ffff_fffeu64 {
            return Err(DatabaseError::ServerError);
        }
        let rec = UserRecord {
            username: name,
            invite_code: code,
            referred_by: match referred_by {
                Some(u) => Some(u.inner()),
                None => None,
            },
        };
        self.users.push(rec);
        proof {
            assert(self@ =~= old(self)@.push(
                UserRecV {
                    username: username@,
                    invite_code: invite_code@,
                    referred_by: match referred_by {
                        Some(u) => Some(u@),
                        None => None,
                    },
                },
            ));
        }
        Ok(())
    }

    /// Lists users for a query: the selected records (requesting user
    /// excluded, search substring applied), newest first, windowed by
    /// `skip` and `limit`, together with the total selected count. Fails
    /// with `ServerError` exactly when `skip` or `limit` is negative.
    pub fn fetch_users(&self, query: &FetchUserQuery) -> (r: Result<
        (Vec<User>, i64),
        DatabaseError,
    >)
        requires
            self.wf(),
        ensures
            r is Ok <==> query.skip >= 0 && query.limit >= 0,
            r matches Ok(p) ==> ({
                let filt = filtered_recs(self@, query.search_view(), query.auth_user@);
                &&& p.1 == filt.len()
                &&& p.0@.map_values(|u: User| u@) == page_recs(
                    filt,
                    query.skip as int,
                    query.limit as int,
                ).map_values(|rec: UserRecV| user_of(self@, rec))
            }),
    {
        if query.skip < 0 || query.limit < 0 {
            return Err(DatabaseError::ServerError);
        }
        let ghost filt = filtered_recs(self@, query.search_view(), query.auth_user@);
        let mut matched: Vec<usize> = Vec::new();
        let mut i: usize = 0;
        proof {
            assert(self@.take(0) =~= Seq::<UserRecV>::empty());
            assert(matched@.map_values(|k: usize| self@[k as int]) =~= filtered_recs(
                self@.take(0),
                query.search_view(),
                query.auth_user@,
            ));
        }
        while i < self.users.len()
            invariant
                self.wf(),
                i <= self@.len(),
                self@.len() == self.users@.len(),
                matched@.len() <= i,
                forall|t: int| 0 <= t < matched@.len() ==> matched@[t] < i,
                matched@.map_values(|k: usize| self@[k as int]) == filtered_recs(
                    self@.take(i as int),
                    query.search_view(),
                    query.auth_user@,
                ),
            decreases self@.len() - i,
        {
            proof {
                assert(self@.take(i + 1).drop_last() =~= self@.take(i as int));
                assert(self@.take(i + 1).last() == self@[i as int]);
            }
            let rec = &self.users[i];
            let selected = if rec.username == query.auth_user {
                false
            } else {
                match &query.username {
                    Some(q) => contains_substr(&rec.username, q),
                    None => true,
                }
            };
            let ghost before = matched@.map_values(|k: usize| self@[k as int]);
            if selected {
                matched.push(i);
                proof {
                    assert(matched@.map_values(|k: usize| self@[k as int]) =~= before.push(
                        self@[i as int],
                    ));
                    assert(before + seq![self@[i as int]] =~= before.push(self@[i as int]));
                }
            } else {
                proof {
                    assert(before + Seq::<UserRecV>::empty() =~= before);
                }
            }
            i += 1;
        }
        proof {
            assert(self@.take(self@.len() as int) =~= self@);
        }
        let count = matched.len();
        let count_i64: i64 = count as i64;
        let start: usize = if query.skip >= count_i64 {
            count
        } else {
            query.skip as usize
        };
        let take_n: usize = if query.limit >= count_i64 - (start as i64) {
            count - start
        } else {
            query.limit as usize
        };
        let ghost ordered = filt.reverse();
        proof {
            assert(filt.len() == count);
            assert(start + take_n <= count);
        }
        let mut users: Vec<User> = Vec::new();
        let mut k: usize = 0;
        while k < take_n
            invariant
                self.wf(),
                ordered == filt.reverse(),
                matched@.map_values(|t: usize| self@[t as int]) == filt,
                forall|t: int| 0 <= t < matched@.len() ==> matched@[t] < self@.len(),
                count == matched@.len(),
                start + take_n <= count,
                k <= take_n,
                users@.len() == k,
                forall|m: int|
                    0 <= m < k ==> (#[trigger] users@[m])@ == user_of(
                        self@,
                        ordered[start + m],
                    ),
            decreases take_n - k,
        {
            let pos = start + k;
            let idx = matched[count - 1 - pos];
            proof {
                assert(matched@.map_values(|t: usize| self@[t as int])[count - 1 - pos]
                    == self@[matched@[count - 1 - pos] as int]);
                assert(ordered[pos as int] == filt[count - 1 - pos]);
            }
            let u = self.make_user(idx);
            users.push(u);
            k += 1;
        }
        proof {
            let paged = page_recs(filt, query.skip as int, query.limit as int);
            assert(ordered.subrange(start as int, start + take_n) =~= paged);
            assert forall|m: int| 0 <= m < take_n implies (#[trigger] users@[m])@ == user_of(
                self@,
                paged[m],
            ) by {
                assert(paged[m] == ordered[start + m]);
            }
            assert(users@.map_values(|u: User| u@) =~= paged.map_values(
                |rec: UserRecV| user_of(self@, rec),
            ));
        }
        Ok((users, count_i64))
    }
}

} // verus!
