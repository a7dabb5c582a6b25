//! Account ledger: the only component that mutates user balances.
//!
//! Invariants carried by every operation: regular minutes, bonus minutes and
//! lifetime hours are never negative, and their sum fits an `i64`, which is
//! what makes the metering arithmetic of the session engine overflow-free.
//! User ids are dense: the user with id `k` sits at position `k - 1`.

use vstd::multiset::Multiset;
use vstd::prelude::*;
use vstd::string::StringSliceAdditionalSpecFns;
use vstd::utf8::encode_utf8;

use crate::errors::ErrorKind;
use crate::models::User;
use crate::order::{lex_le, lemma_lex_le_refl, lemma_lex_le_total, lemma_lex_le_trans, str_le};

verus! {

broadcast use vstd::seq_lib::group_to_multiset_ensures;

/// A user's current balances, as handed to the transport layer.
#[derive(Debug)]
pub struct BalanceResponse {
    pub user_id: i64,
    pub total_minutes: i64,
    pub normal_minutes: i64,
    pub bonus_minutes: i64,
    pub message: String,
}

/// Bonus-credit payload.
#[derive(Debug)]
pub struct AddBonusReq {
    pub minutes: i64,
}

/// Wrapper for one user plus a human-readable note.
#[derive(Debug)]
pub struct UserResponse {
    pub user: User,
    pub message: String,
}

/// Wrapper for a user listing plus a human-readable note.
#[derive(Debug)]
pub struct UsersResponse {
    pub users: Vec<User>,
    pub message: String,
}

/// A stored user is well-formed for its position: dense id, non-negative
/// balances and lifetime hours, and a bounded sum so that debits and
/// lifetime credits cannot overflow.
pub open spec fn user_wf(u: User, i: int) -> bool {
    &&& u.id == i + 1
    &&& 0 <= u.minutes_balance
    &&& 0 <= u.bonus_minutes
    &&& 0 <= u.lifetime_hours
    &&& u.lifetime_hours + u.minutes_balance + u.bonus_minutes <= i64::MAX
}

/// The user after debiting `minutes`: regular minutes are consumed first,
/// then bonus minutes.
pub open spec fn debited(u: User, minutes: int) -> User {
    if minutes <= u.minutes_balance {
        User { minutes_balance: (u.minutes_balance - minutes) as i64, ..u }
    } else {
        User {
            minutes_balance: 0,
            bonus_minutes: (u.bonus_minutes - (minutes - u.minutes_balance)) as i64,
            ..u
        }
    }
}

/// The record carries this username, or this email address.
pub open spec fn identity_matches(u: User, username: Seq<char>, email: Seq<char>) -> bool {
    u.username@ == username || (u.email matches Some(e) && e@ == email)
}

/// The UTF-8 encoding of a user's name; listings are ordered by it.
pub open spec fn username_bytes(u: User) -> Seq<u8> {
    encode_utf8(u.username@)
}

/// Adjacent users appear in non-decreasing username order.
pub open spec fn sorted_by_username(s: Seq<User>) -> bool {
    forall|i: int|
        0 <= i && i + 1 < s.len() ==> lex_le(username_bytes(#[trigger] s[i]), username_bytes(s[i + 1]))
}

/// Adjacent users appear in non-increasing lifetime-hours order.
pub open spec fn sorted_by_lifetime_desc(s: Seq<User>) -> bool {
    forall|i: int| 0 <= i && i + 1 < s.len() ==> (#[trigger] s[i].lifetime_hours) >= s[i + 1].lifetime_hours
}

/// Owns all user records.
pub struct AccountLedger {
    users: Vec<User>,
}

impl View for AccountLedger {
    type V = Seq<User>;

    closed spec fn view(&self) -> Seq<User> {
        self.users@
    }
}

impl AccountLedger {
    /// Every stored user is well-formed.
    pub open spec fn wf(self) -> bool {
        forall|i: int| 0 <= i < self@.len() ==> user_wf(#[trigger] self@[i], i)
    }

    pub open spec fn has_user(self, id: i64) -> bool {
        1 <= id <= self@.len()
    }

    pub open spec fn user(self, id: i64) -> User {
        self@[id - 1]
    }

    /// Some stored user already carries this username or this email address.
    pub open spec fn identity_taken(self, username: Seq<char>, email: Seq<char>) -> bool {
        exists|i: int|
            0 <= i < self@.len() && identity_matches(#[trigger] self@[i], username, email)
    }

    /// The authorization outcome for starting a session: the user must
    /// exist, not be banned, and have a positive combined balance. Reserves
    /// nothing.
    pub open spec fn authorize(self, user_id: i64) -> Result<(), ErrorKind> {
        if !self.has_user(user_id) {
            Err(ErrorKind::NotFound)
        } else if self.user(user_id).banned != 0 {
            Err(ErrorKind::Banned)
        } else if self.user(user_id).minutes_balance + self.user(user_id).bonus_minutes <= 0 {
            Err(ErrorKind::InsufficientBalance)
        } else {
            Ok(())
        }
    }

    pub fn new() -> (r: AccountLedger)
        ensures
            r.wf(),
            r@.len() == 0,
    {
        AccountLedger { users: Vec::new() }
    }

    /// The position of a user id, if registered.
    fn slot(&self, user_id: i64) -> (r: Option<usize>)
        ensures
            match r {
                Some(i) => self.has_user(user_id) && i as int == user_id - 1,
                None => !self.has_user(user_id),
            },
    {
        if user_id >= 1 && ((user_id - 1) as u64) < (self.users.len() as u64) {
            Some((user_id - 1) as usize)
        } else {
            None
        }
    }

    /// Creates a user under the consolidated schema: 60 starting credits and
    /// 60 prepaid minutes, no bonus, no lifetime hours, not banned. Fails
    /// `Conflict` if and only if the username or email is already taken.
    pub fn register_user(
        &mut self,
        username: String,
        email: String,
        role: String,
        password_hash: Option<String>,
        created_at: String,
    ) -> (r: Result<User, ErrorKind>)
        requires
            old(self).wf(),
            old(self)@.len() < i64::MAX,
        ensures
            final(self).wf(),
            r is Ok <==> !old(self).identity_taken(username@, email@),
            match r {
                Ok(u) => {
                    &&& u.id == old(self)@.len() + 1
                    &&& u.username == username
                    &&& u.email == Some(email)
                    &&& u.role == role
                    &&& u.banned == 0
                    &&& u.created_at == created_at
                    &&& u.last_login is None
                    &&& u.balance == 60
                    &&& u.minutes_balance == 60
                    &&& u.bonus_minutes == 0
                    &&& u.lifetime_hours == 0
                    &&& u.password_hash == password_hash
                    &&& final(self)@ == old(self)@.push(u)
                },
                Err(e) => {
                    &&& e == ErrorKind::Conflict
                    &&& final(self)@ == old(self)@
                },
            },
    {
        if self.identity_taken_exec(&username, &email) {
            return Err(ErrorKind::Conflict);
        }
        let id = (self.users.len() as i64) + 1;
        let u = User {
            id,
            username,
            email: Some(email),
            role,
            banned: 0,
            created_at,
            last_login: None,
            balance: 60,
            minutes_balance: 60,
            bonus_minutes: 0,
            lifetime_hours: 0,
            password_hash,
        };
        let out = u.clone();
        self.users.push(u);
        Ok(out)
    }

    fn identity_taken_exec(&self, username: &String, email: &String) -> (r: bool)
        ensures
            r == self.identity_taken(username@, email@),
    {
        let n = self.users.len();
        let mut i: usize = 0;
        while i < n
            invariant
                n == self.users@.len(),
                i <= n,
                forall|j: int|
                    0 <= j < i ==> !identity_matches(#[trigger] self.users@[j], username@, email@),
            decreases n - i,
        {
            if self.users[i].username == *username {
                proof {
                    assert(identity_matches(self@[i as int], username@, email@));
                }
                return true;
            }
            match &self.users[i].email {
                Some(e) => {
                    if *e == *email {
                        proof {
                            assert(identity_matches(self@[i as int], username@, email@));
                        }
                        return true;
                    }
                },
                None => {},
            }
            proof {
                assert(!identity_matches(self.users@[i as int], username@, email@));
            }
            i = i + 1;
        }
        false
    }

    /// The position of the first user carrying this username, if any.
    pub fn find_by_username(&self, username: &String) -> (r: Option<usize>)
        ensures
            match r {
                Some(i) => {
                    &&& i < self@.len()
                    &&& self@[i as int].username@ == username@
                    &&& forall|j: int| 0 <= j < i ==> (#[trigger] self@[j].username@) != username@
                },
                None => forall|j: int|
                    0 <= j < self@.len() ==> (#[trigger] self@[j].username@) != username@,
            },
    {
        let n = self.users.len();
        let mut i: usize = 0;
        while i < n
            invariant
                n == self.users@.len(),
                i <= n,
                forall|j: int| 0 <= j < i ==> (#[trigger] self.users@[j].username@) != username@,
            decreases n - i,
        {
            if self.users[i].username == *username {
                return Some(i);
            }
            i = i + 1;
        }
        None
    }

    /// A copy of the user at one position.
    pub fn user_at(&self, i: usize) -> (u: User)
        requires
            i < self@.len(),
        ensures
            u == self@[i as int],
    {
        self.users[i].clone()
    }

    /// A copy of one user record.
    pub fn get_user(&self, user_id: i64) -> (r: Result<User, ErrorKind>)
        ensures
            r is Ok <==> self.has_user(user_id),
            match r {
                Ok(u) => u == self.user(user_id),
                Err(e) => e == ErrorKind::NotFound,
            },
    {
        match self.slot(user_id) {
            Some(i) => Ok(self.users[i].clone()),
            None => Err(ErrorKind::NotFound),
        }
    }

    /// The user's current balances. Fails `NotFound` if and only if the user
    /// does not exist.
    pub fn get_balance(&self, user_id: i64) -> (r: Result<BalanceResponse, ErrorKind>)
        requires
            self.wf(),
        ensures
            r is Ok <==> self.has_user(user_id),
            match r {
                Ok(b) => {
                    &&& b.user_id == user_id
                    &&& b.normal_minutes == self.user(user_id).minutes_balance
                    &&& b.bonus_minutes == self.user(user_id).bonus_minutes
                    &&& b.total_minutes == self.user(user_id).minutes_balance + self.user(
                        user_id,
                    ).bonus_minutes
                },
                Err(e) => e == ErrorKind::NotFound,
            },
    {
        let i = match self.slot(user_id) {
            Some(i) => i,
            None => {
                return Err(ErrorKind::NotFound);
            },
        };
        let u = &self.users[i];
        Ok(
            BalanceResponse {
                user_id,
                total_minutes: u.minutes_balance + u.bonus_minutes,
                normal_minutes: u.minutes_balance,
                bonus_minutes: u.bonus_minutes,
                message: "Balance retrieved successfully".to_owned(),
            },
        )
    }

    /// Side-effect-free authorization for starting a session.
    pub fn authorize_session_start(&self, user_id: i64) -> (r: Result<(), ErrorKind>)
        requires
            self.wf(),
        ensures
            r == self.authorize(user_id),
    {
        let i = match self.slot(user_id) {
            Some(i) => i,
            None => {
                return Err(ErrorKind::NotFound);
            },
        };
        if self.users[i].is_banned() {
            return Err(ErrorKind::Banned);
        }
        if self.users[i].minutes_balance + self.users[i].bonus_minutes <= 0 {
            return Err(ErrorKind::InsufficientBalance);
        }
        Ok(())
    }

    /// Atomically debits `minutes`, regular minutes first, then bonus
    /// minutes. Fails `InsufficientBalance` if and only if the debit would
    /// exceed the combined balance, leaving balances unchanged; the combined
    /// balance never goes negative. On success returns the new
    /// (regular, bonus) balances.
    pub fn debit(&mut self, user_id: i64, minutes: i64) -> (r: Result<(i64, i64), ErrorKind>)
        requires
            old(self).wf(),
            0 <= minutes,
        ensures
            final(self).wf(),
            r is Ok <==> (old(self).has_user(user_id) && minutes <= old(self).user(
                user_id,
            ).minutes_balance + old(self).user(user_id).bonus_minutes),
            match r {
                Ok((nm, nb)) => {
                    &&& final(self)@ == old(self)@.update(
                        user_id - 1,
                        debited(old(self).user(user_id), minutes as int),
                    )
                    &&& nm == debited(old(self).user(user_id), minutes as int).minutes_balance
                    &&& nb == debited(old(self).user(user_id), minutes as int).bonus_minutes
                    &&& nm + nb == old(self).user(user_id).minutes_balance + old(self).user(
                        user_id,
                    ).bonus_minutes - minutes
                    &&& 0 <= nm
                    &&& 0 <= nb
                },
                Err(e) => {
                    &&& final(self)@ == old(self)@
                    &&& (e == ErrorKind::NotFound <==> !old(self).has_user(user_id))
                    &&& (e == ErrorKind::InsufficientBalance <==> old(self).has_user(user_id)
                        && minutes > old(self).user(user_id).minutes_balance + old(self).user(
                        user_id,
                    ).bonus_minutes)
                },
            },
    {
        let i = match self.slot(user_id) {
            Some(i) => i,
            None => {
                return Err(ErrorKind::NotFound);
            },
        };
        let mut u = self.users[i].clone();
        if minutes <= u.minutes_balance {
            u.minutes_balance = u.minutes_balance - minutes;
        } else {
            if minutes - u.minutes_balance > u.bonus_minutes {
                return Err(ErrorKind::InsufficientBalance);
            }
            u.bonus_minutes = u.bonus_minutes - (minutes - u.minutes_balance);
            u.minutes_balance = 0;
        }
        let nm = u.minutes_balance;
        let nb = u.bonus_minutes;
        self.users.set(i, u);
        Ok((nm, nb))
    }

    /// Credits bonus minutes. Fails `InvalidInput` if and only if the amount
    /// is not positive (checked before the user lookup), `NotFound` if and
    /// only if the amount is positive but the user does not exist.
    pub fn add_bonus(&mut self, user_id: i64, minutes: i64) -> (r: Result<BalanceResponse, ErrorKind>)
        requires
            old(self).wf(),
            old(self).has_user(user_id) ==> old(self).user(user_id).lifetime_hours + old(
                self,
            ).user(user_id).minutes_balance + old(self).user(user_id).bonus_minutes + minutes
                <= i64::MAX,
        ensures
            final(self).wf(),
            r is Ok <==> (minutes > 0 && old(self).has_user(user_id)),
            match r {
                Ok(b) => {
                    &&& final(self)@ == old(self)@.update(
                        user_id - 1,
                        (User {
                            bonus_minutes: (old(self).user(user_id).bonus_minutes + minutes) as i64,
                            ..old(self).user(user_id)
                        }),
                    )
                    &&& b.user_id == user_id
                    &&& b.normal_minutes == old(self).user(user_id).minutes_balance
                    &&& b.bonus_minutes == old(self).user(user_id).bonus_minutes + minutes
                    &&& b.total_minutes == old(self).user(user_id).minutes_balance + old(
                        self,
                    ).user(user_id).bonus_minutes + minutes
                },
                Err(e) => {
                    &&& final(self)@ == old(self)@
                    &&& (e == ErrorKind::InvalidInput <==> minutes <= 0)
                    &&& (e == ErrorKind::NotFound <==> minutes > 0 && !old(self).has_user(user_id))
                },
            },
    {
        if minutes <= 0 {
            return Err(ErrorKind::InvalidInput);
        }
        let i = match self.slot(user_id) {
            Some(i) => i,
            None => {
                return Err(ErrorKind::NotFound);
            },
        };
        let mut u = self.users[i].clone();
        u.bonus_minutes = u.bonus_minutes + minutes;
        let nm = u.minutes_balance;
        let nb = u.bonus_minutes;
        self.users.set(i, u);
        Ok(
            BalanceResponse {
                user_id,
                total_minutes: nm + nb,
                normal_minutes: nm,
                bonus_minutes: nb,
                message: "Bonus minutes added successfully".to_owned(),
            },
        )
    }

    /// Adds whole hours to the user's lifetime total; the total never
    /// decreases. On success returns the new total.
    pub fn credit_lifetime_hours(&mut self, user_id: i64, hours: i64) -> (r: Result<i64, ErrorKind>)
        requires
            old(self).wf(),
            0 <= hours,
            old(self).has_user(user_id) ==> old(self).user(user_id).lifetime_hours + old(
                self,
            ).user(user_id).minutes_balance + old(self).user(user_id).bonus_minutes + hours
                <= i64::MAX,
        ensures
            final(self).wf(),
            r is Ok <==> old(self).has_user(user_id),
            match r {
                Ok(lh) => {
                    &&& final(self)@ == old(self)@.update(
                        user_id - 1,
                        (User {
                            lifetime_hours: (old(self).user(user_id).lifetime_hours + hours) as i64,
                            ..old(self).user(user_id)
                        }),
                    )
                    &&& lh == old(self).user(user_id).lifetime_hours + hours
                    &&& lh >= old(self).user(user_id).lifetime_hours
                },
                Err(e) => {
                    &&& e == ErrorKind::NotFound
                    &&& final(self)@ == old(self)@
                },
            },
    {
        let i = match self.slot(user_id) {
            Some(i) => i,
            None => {
                return Err(ErrorKind::NotFound);
            },
        };
        let mut u = self.users[i].clone();
        u.lifetime_hours = u.lifetime_hours + hours;
        let lh = u.lifetime_hours;
        self.users.set(i, u);
        Ok(lh)
    }

    /// Sets the banned flag; banned users cannot start sessions.
    pub fn ban_user(&mut self, user_id: i64) -> (r: Result<UserResponse, ErrorKind>)
        requires
            old(self).wf(),
        ensures
            final(self).wf(),
            r is Ok <==> old(self).has_user(user_id),
            match r {
                Ok(resp) => {
                    &&& resp.user == (User { banned: 1, ..old(self).user(user_id) })
                    &&& final(self)@ == old(self)@.update(user_id - 1, resp.user)
                },
                Err(e) => {
                    &&& e == ErrorKind::NotFound
                    &&& final(self)@ == old(self)@
                },
            },
    {
        match self.set_banned(user_id, 1) {
            Ok(u) => Ok(UserResponse { user: u, message: "User has been banned".to_owned() }),
            Err(e) => Err(e),
        }
    }

    /// Clears the banned flag.
    pub fn unban_user(&mut self, user_id: i64) -> (r: Result<UserResponse, ErrorKind>)
        requires
            old(self).wf(),
        ensures
            final(self).wf(),
            r is Ok <==> old(self).has_user(user_id),
            match r {
                Ok(resp) => {
                    &&& resp.user == (User { banned: 0, ..old(self).user(user_id) })
                    &&& final(self)@ == old(self)@.update(user_id - 1, resp.user)
                },
                Err(e) => {
                    &&& e == ErrorKind::NotFound
                    &&& final(self)@ == old(self)@
                },
            },
    {
        match self.set_banned(user_id, 0) {
            Ok(u) => Ok(UserResponse { user: u, message: "User has been unbanned".to_owned() }),
            Err(e) => Err(e),
        }
    }

    fn set_banned(&mut self, user_id: i64, flag: i64) -> (r: Result<User, ErrorKind>)
        requires
            old(self).wf(),
            0 <= flag,
        ensures
            final(self).wf(),
            r is Ok <==> old(self).has_user(user_id),
            match r {
                Ok(u) => {
                    &&& u == (User { banned: flag, ..old(self).user(user_id) })
                    &&& final(self)@ == old(self)@.update(user_id - 1, u)
                },
                Err(e) => {
                    &&& e == ErrorKind::NotFound
                    &&& final(self)@ == old(self)@
                },
            },
    {
        let i = match self.slot(user_id) {
            Some(i) => i,
            None => {
                return Err(ErrorKind::NotFound);
            },
        };
        let mut u = self.users[i].clone();
        u.banned = flag;
        let out = u.clone();
        self.users.set(i, u);
        Ok(out)
    }

    /// Records the moment of a successful login.
    pub fn set_last_login(&mut self, user_id: i64, stamp: String) -> (r: Result<(), ErrorKind>)
        requires
            old(self).wf(),
        ensures
            final(self).wf(),
            r is Ok <==> old(self).has_user(user_id),
            match r {
                Ok(()) => final(self)@ == old(self)@.update(
                    user_id - 1,
                    (User { last_login: Some(stamp), ..old(self).user(user_id) }),
                ),
                Err(e) => {
                    &&& e == ErrorKind::NotFound
                    &&& final(self)@ == old(self)@
                },
            },
    {
        let i = match self.slot(user_id) {
            Some(i) => i,
            None => {
                return Err(ErrorKind::NotFound);
            },
        };
        let mut u = self.users[i].clone();
        u.last_login = Some(stamp);
        self.users.set(i, u);
        Ok(())
    }

    /// Overwrites the legacy credit counter; prepaid minutes are untouched.
    pub fn update_balance(&mut self, user_id: i64, balance: i64) -> (r: Result<User, ErrorKind>)
        requires
            old(self).wf(),
        ensures
            final(self).wf(),
            r is Ok <==> old(self).has_user(user_id),
            match r {
                Ok(u) => {
                    &&& u == (User { balance: balance, ..old(self).user(user_id) })
                    &&& final(self)@ == old(self)@.update(user_id - 1, u)
                },
                Err(e) => {
                    &&& e == ErrorKind::NotFound
                    &&& final(self)@ == old(self)@
                },
            },
    {
        let i = match self.slot(user_id) {
            Some(i) => i,
            None => {
                return Err(ErrorKind::NotFound);
            },
        };
        let mut u = self.users[i].clone();
        u.balance = balance;
        let out = u.clone();
        self.users.set(i, u);
        Ok(out)
    }

    /// All users, in deterministic order by username.
    pub fn get_all_users(&self) -> (r: UsersResponse)
        ensures
            r.users@.to_multiset() == self@.to_multiset(),
            r.users@.len() == self@.len(),
            sorted_by_username(r.users@),
    {
        let copy = clone_users(&self.users);
        UsersResponse {
            users: sort_users_by_username(copy),
            message: "Users retrieved successfully".to_owned(),
        }
    }

    /// The up-to-ten users with the highest lifetime hours, in non-increasing
    /// order: a prefix of some non-increasing arrangement of all users.
    pub fn get_top_users(&self) -> (r: Vec<User>)
        ensures
            r@.len() == if self@.len() < 10 {
                self@.len() as int
            } else {
                10int
            },
            sorted_by_lifetime_desc(r@),
            exists|s: Seq<User>|
                s.to_multiset() == self@.to_multiset() && sorted_by_lifetime_desc(s) && r@
                    == s.subrange(0, r@.len() as int),
    {
        let copy = clone_users(&self.users);
        let mut sorted = sort_users_by_lifetime_desc(copy);
        let ghost full = sorted@;
        if sorted.len() > 10 {
            sorted.truncate(10);
        }
        proof {
            assert(sorted@ == full.subrange(0, sorted@.len() as int));
        }
        sorted
    }
}

/// Combined regular and bonus minutes are never negative under the ledger's
/// well-formedness invariant, which every operation preserves; a failed
/// debit leaves balances unchanged.
pub proof fn lemma_balance_nonnegative(l: AccountLedger, user_id: i64)
    requires
        l.wf(),
        l.has_user(user_id),
    ensures
        l.user(user_id).minutes_balance >= 0,
        l.user(user_id).bonus_minutes >= 0,
        l.user(user_id).minutes_balance + l.user(user_id).bonus_minutes >= 0,
{
}

/// An element-wise copy whose view equals the input's.
fn clone_users(v: &Vec<User>) -> (r: Vec<User>)
    ensures
        r@ == v@,
{
    let r = v.clone();
    proof {
        assert forall|i: int| 0 <= i < v@.len() implies r@[i] == v@[i] by {
            assert(cloned::<User>(v@[i], r@[i]));
        }
        assert(r@ =~= v@);
    }
    r
}

/// Selection sort by username: the same users (as a multiset) in
/// non-decreasing username order.
fn sort_users_by_username(input: Vec<User>) -> (r: Vec<User>)
    ensures
        r@.to_multiset() == input@.to_multiset(),
        r@.len() == input@.len(),
        sorted_by_username(r@),
{
    let ghost orig = input@;
    let mut rest = input;
    let mut out: Vec<User> = Vec::new();
    proof {
        assert(out@.to_multiset().add(rest@.to_multiset()) =~= orig.to_multiset());
    }
    while rest.len() > 0
        invariant
            out@.to_multiset().add(rest@.to_multiset()) == orig.to_multiset(),
            out@.len() + rest@.len() == orig.len(),
            sorted_by_username(out@),
            forall|i: int, j: int|
                0 <= i < out@.len() && 0 <= j < rest@.len() ==> lex_le(
                    username_bytes(#[trigger] out@[i]),
                    username_bytes(#[trigger] rest@[j]),
                ),
        decreases rest@.len(),
    {
        let mi = min_username_index(&rest);
        let ghost pre = rest@;
        let u = rest.remove(mi);
        proof {
            assert(pre.remove(mi as int).to_multiset() =~= pre.to_multiset().remove(u));
            assert(out@.push(u).to_multiset() =~= out@.to_multiset().insert(u));
            assert(out@.to_multiset().insert(u).add(pre.to_multiset().remove(u))
                =~= orig.to_multiset());
        }
        out.push(u);
    }
    proof {
        assert(rest@.to_multiset() =~= Multiset::empty());
        assert(out@.to_multiset().add(Multiset::empty()) =~= out@.to_multiset());
    }
    out
}

/// The position of a user whose username is lexicographically least.
fn min_username_index(v: &Vec<User>) -> (r: usize)
    requires
        v@.len() > 0,
    ensures
        r < v@.len(),
        forall|j: int|
            0 <= j < v@.len() ==> lex_le(username_bytes(v@[r as int]), username_bytes(#[trigger] v@[j])),
{
    let mut mi: usize = 0;
    let mut k: usize = 1;
    proof {
        lemma_lex_le_refl(username_bytes(v@[0]));
    }
    while k < v.len()
        invariant
            0 < v@.len(),
            mi < k <= v@.len(),
            forall|j: int|
                0 <= j < k ==> lex_le(username_bytes(v@[mi as int]), username_bytes(#[trigger] v@[j])),
        decreases v@.len() - k,
    {
        if str_le(v[k].username.as_str(), v[mi].username.as_str()) {
            proof {
                assert forall|j: int| 0 <= j < k + 1 implies lex_le(
                    username_bytes(v@[k as int]),
                    username_bytes(v@[j]),
                ) by {
                    if j < k {
                        lemma_lex_le_trans(
                            username_bytes(v@[k as int]),
                            username_bytes(v@[mi as int]),
                            username_bytes(v@[j]),
                        );
                    } else {
                        lemma_lex_le_refl(username_bytes(v@[k as int]));
                    }
                }
            }
            mi = k;
        } else {
            proof {
                lemma_lex_le_total(username_bytes(v@[mi as int]), username_bytes(v@[k as int]));
            }
        }
        k = k + 1;
    }
    mi
}

/// Selection sort by lifetime hours, largest first.
fn sort_users_by_lifetime_desc(input: Vec<User>) -> (r: Vec<User>)
    ensures
        r@.to_multiset() == input@.to_multiset(),
        r@.len() == input@.len(),
        sorted_by_lifetime_desc(r@),
{
    let ghost orig = input@;
    let mut rest = input;
    let mut out: Vec<User> = Vec::new();
    proof {
        assert(out@.to_multiset().add(rest@.to_multiset()) =~= orig.to_multiset());
    }
    while rest.len() > 0
        invariant
            out@.to_multiset().add(rest@.to_multiset()) == orig.to_multiset(),
            out@.len() + rest@.len() == orig.len(),
            sorted_by_lifetime_desc(out@),
            forall|i: int, j: int|
                0 <= i < out@.len() && 0 <= j < rest@.len() ==> (#[trigger] out@[i].lifetime_hours)
                    >= (#[trigger] rest@[j].lifetime_hours),
        decreases rest@.len(),
    {
        let mi = max_lifetime_index(&rest);
        let ghost pre = rest@;
        let u = rest.remove(mi);
        proof {
            assert(pre.remove(mi as int).to_multiset() =~= pre.to_multiset().remove(u));
            assert(out@.push(u).to_multiset() =~= out@.to_multiset().insert(u));
            assert(out@.to_multiset().insert(u).add(pre.to_multiset().remove(u))
                =~= orig.to_multiset());
        }
        out.push(u);
    }
    proof {
        assert(rest@.to_multiset() =~= Multiset::empty());
        assert(out@.to_multiset().add(Multiset::empty()) =~= out@.to_multiset());
    }
    out
}

/// The position of a user whose lifetime hours are greatest.
fn max_lifetime_index(v: &Vec<User>) -> (r: usize)
    requires
        v@.len() > 0,
    ensures
        r < v@.len(),
        forall|j: int|
            0 <= j < v@.len() ==> v@[r as int].lifetime_hours >= (#[trigger] v@[j].lifetime_hours),
{
    let mut mi: usize = 0;
    let mut k: usize = 1;
    while k < v.len()
        invariant
            0 < v@.len(),
            mi < k <= v@.len(),
            forall|j: int|
                0 <= j < k ==> v@[mi as int].lifetime_hours >= (#[trigger] v@[j].lifetime_hours),
        decreases v@.len() - k,
    {
        if v[k].lifetime_hours > v[mi].lifetime_hours {
            mi = k;
        }
        k = k + 1;
    }
    mi
}

} // verus!
