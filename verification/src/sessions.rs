//! Session engine: orchestrates machine reservation, balance authorization,
//! time metering and release, spanning the ledger and the registry in one
//! logical transaction per call.
//!
//! Invariants carried by every operation: at most one active session per
//! machine and per user, and every active session's machine is registered
//! and reserved. Ending is terminal; an ended session is never mutated
//! again. If starting fails after the machine was reserved, the reservation
//! is compensated before the error surfaces, so a reservation never outlives
//! a failed session creation. The debit, lifetime credit, session
//! finalization and machine release of a successful end are applied
//! together; any failure leaves all three components untouched.
//! Session ids are dense: the session with id `k` sits at position `k - 1`.

use vstd::prelude::*;

use crate::errors::ErrorKind;
use crate::ledger::{debited, AccountLedger};
use crate::machines::MachineRegistry;
use crate::models::{Machine, Occupancy, Session, SessionStatus, User};

verus! {

broadcast use vstd::seq_lib::group_to_multiset_ensures;

/// Wrapper for one session plus a human-readable note.
#[derive(Debug)]
pub struct SessionResponse {
    pub session: Session,
    pub message: String,
}

/// Wrapper for a session listing plus a human-readable note.
#[derive(Debug)]
pub struct SessionsResponse {
    pub sessions: Vec<Session>,
    pub message: String,
}

/// Whole minutes billed for a session running from `started` to `now`:
/// elapsed seconds divided by sixty and rounded up, and at least one minute
/// whatever the duration.
pub open spec fn billed_minutes(started: int, now: int) -> int
    recommends
        0 <= started <= now,
{
    let elapsed = now - started;
    let m = if elapsed % 60 == 0 {
        elapsed / 60
    } else {
        elapsed / 60 + 1
    };
    if m < 1 {
        1
    } else {
        m
    }
}

/// Whole hours credited to the lifetime total for a number of billed
/// minutes: the minutes divided by sixty and rounded up.
pub open spec fn billed_hours(minutes: int) -> int
    recommends
        1 <= minutes,
{
    if minutes % 60 == 0 {
        minutes / 60
    } else {
        minutes / 60 + 1
    }
}

/// The hours credited for a session never exceed the minutes billed, which
/// is what keeps the ledger's bounded-sum invariant intact across an end.
pub proof fn lemma_billed_hours_le_minutes(minutes: int)
    requires
        1 <= minutes,
    ensures
        1 <= billed_hours(minutes) <= minutes,
{
}

/// The user after a successful session end: debited of the billed minutes
/// and credited with the billed hours.
pub open spec fn settled(u: User, minutes: int) -> User {
    User {
        lifetime_hours: (u.lifetime_hours + billed_hours(minutes)) as i64,
        ..debited(u, minutes)
    }
}

/// Computes `billed_minutes` on machine integers.
pub fn minutes_elapsed(started_at: i64, now: i64) -> (r: i64)
    requires
        0 <= started_at <= now,
    ensures
        r == billed_minutes(started_at as int, now as int),
        1 <= r,
{
    let elapsed = now - started_at;
    let q = elapsed / 60;
    let rem = elapsed % 60;
    let m = if rem == 0 {
        q
    } else {
        q + 1
    };
    if m < 1 {
        1
    } else {
        m
    }
}

/// Computes `billed_hours` on machine integers.
fn hours_for(minutes: i64) -> (r: i64)
    requires
        1 <= minutes,
    ensures
        r == billed_hours(minutes as int),
        1 <= r <= minutes,
{
    proof {
        lemma_billed_hours_le_minutes(minutes as int);
    }
    let q = minutes / 60;
    let rem = minutes % 60;
    if rem == 0 {
        q
    } else {
        q + 1
    }
}

/// A stored session is well-formed for its position: dense id, a
/// non-negative start, and fields coherent with its status.
pub open spec fn session_wf(s: Session, i: int) -> bool {
    &&& s.id == i + 1
    &&& 0 <= s.started_at
    &&& match s.status {
        SessionStatus::Active => s.ended_at is None && s.minutes_consumed == 0,
        SessionStatus::Ended => (s.ended_at matches Some(e) && s.started_at <= e)
            && 1 <= s.minutes_consumed,
    }
}

/// The sessions of `s` that are still active, in stored order.
pub open spec fn active_of(s: Seq<Session>) -> Seq<Session> {
    s.filter(|x: Session| x.status is Active)
}

/// Adjacent sessions appear in non-increasing start-time order.
pub open spec fn sorted_by_started_desc(s: Seq<Session>) -> bool {
    forall|i: int| 0 <= i && i + 1 < s.len() ==> (#[trigger] s[i].started_at) >= s[i + 1].started_at
}

/// Owns all session records.
pub struct SessionManager {
    sessions: Vec<Session>,
}

impl View for SessionManager {
    type V = Seq<Session>;

    closed spec fn view(&self) -> Seq<Session> {
        self.sessions@
    }
}

impl SessionManager {
    /// Every stored session is well-formed, and no two distinct active
    /// sessions share a machine or a user.
    pub open spec fn wf(self) -> bool {
        &&& forall|i: int| 0 <= i < self@.len() ==> session_wf(#[trigger] self@[i], i)
        &&& forall|i: int, j: int|
            0 <= i < j < self@.len() && (#[trigger] self@[i]).status is Active && (
            #[trigger] self@[j]).status is Active ==> self@[i].machine_id != self@[j].machine_id
                && self@[i].user_id != self@[j].user_id
    }

    pub open spec fn has_session(self, id: i64) -> bool {
        1 <= id <= self@.len()
    }

    pub open spec fn session(self, id: i64) -> Session {
        self@[id - 1]
    }

    /// Some active session is occupying this user.
    pub open spec fn user_active(self, user_id: i64) -> bool {
        exists|i: int|
            0 <= i < self@.len() && (#[trigger] self@[i]).status is Active && self@[i].user_id
                == user_id
    }

    /// Every active session's machine is registered and reserved. This is
    /// the cross-component invariant that `start` and `end` preserve; it is
    /// what makes machine exclusivity hold across interleavings of calls.
    pub open spec fn consistent_with(self, reg: MachineRegistry) -> bool {
        forall|i: int|
            0 <= i < self@.len() && (#[trigger] self@[i]).status is Active ==> reg.has_machine(
                self@[i].machine_id,
            ) && reg.machine(self@[i].machine_id).occupancy is Reserved
    }

    /// The decision cascade of `start`: authorization first, then the
    /// machine, then the one-active-session-per-user rule.
    pub open spec fn start_error(
        self,
        ledger: AccountLedger,
        reg: MachineRegistry,
        user_id: i64,
        machine_id: i64,
    ) -> Option<ErrorKind> {
        match ledger.authorize(user_id) {
            Err(e) => Some(e),
            Ok(()) => if !reg.has_machine(machine_id) {
                Some(ErrorKind::NotFound)
            } else if reg.machine(machine_id).liveness is Offline {
                Some(ErrorKind::Unavailable)
            } else if reg.machine(machine_id).occupancy is Reserved {
                Some(ErrorKind::Conflict)
            } else if self.user_active(user_id) {
                Some(ErrorKind::Conflict)
            } else {
                None
            },
        }
    }

    /// The decision cascade of `end`.
    pub open spec fn end_error(self, ledger: AccountLedger, session_id: i64, now: int) -> Option<
        ErrorKind,
    > {
        if !self.has_session(session_id) {
            Some(ErrorKind::NotFound)
        } else if self.session(session_id).status is Ended {
            Some(ErrorKind::AlreadyEnded)
        } else if !ledger.has_user(self.session(session_id).user_id) {
            Some(ErrorKind::NotFound)
        } else if billed_minutes(self.session(session_id).started_at as int, now) > ledger.user(
            self.session(session_id).user_id,
        ).minutes_balance + ledger.user(self.session(session_id).user_id).bonus_minutes {
            Some(ErrorKind::InsufficientBalance)
        } else {
            None
        }
    }

    pub fn new() -> (r: SessionManager)
        ensures
            r.wf(),
            r@.len() == 0,
    {
        SessionManager { sessions: Vec::new() }
    }

    /// The position of a session id, if present.
    fn slot(&self, session_id: i64) -> (r: Option<usize>)
        ensures
            match r {
                Some(i) => self.has_session(session_id) && i as int == session_id - 1,
                None => !self.has_session(session_id),
            },
    {
        if session_id >= 1 && ((session_id - 1) as u64) < (self.sessions.len() as u64) {
            Some((session_id - 1) as usize)
        } else {
            None
        }
    }

    fn user_has_active(&self, user_id: i64) -> (r: bool)
        ensures
            r == self.user_active(user_id),
    {
        let n = self.sessions.len();
        let mut i: usize = 0;
        while i < n
            invariant
                n == self.sessions@.len(),
                i <= n,
                forall|j: int|
                    0 <= j < i ==> !((#[trigger] self.sessions@[j]).status is Active
                        && self.sessions@[j].user_id == user_id),
            decreases n - i,
        {
            if matches!(self.sessions[i].status, SessionStatus::Active) && self.sessions[i].user_id
                == user_id {
                proof {
                    assert((self@[i as int]).status is Active && self@[i as int].user_id == user_id);
                }
                return true;
            }
            i = i + 1;
        }
        false
    }

    /// Starts a session: authorizes the user, reserves the machine, then
    /// creates the active session record. Fails exactly as the decision
    /// cascade says; on any failure no component is changed — in particular,
    /// a reservation made before a late failure has been compensated by a
    /// release. Never touches balances.
    pub fn start(
        &mut self,
        ledger: &mut AccountLedger,
        registry: &mut MachineRegistry,
        user_id: i64,
        machine_id: i64,
        now: i64,
    ) -> (r: Result<Session, ErrorKind>)
        requires
            old(self).wf(),
            old(ledger).wf(),
            old(registry).wf(),
            old(self).consistent_with(*old(registry)),
            0 <= now,
            old(self)@.len() < i64::MAX,
        ensures
            final(self).wf(),
            final(ledger).wf(),
            final(registry).wf(),
            final(self).consistent_with(*final(registry)),
            final(ledger)@ == old(ledger)@,
            r is Ok <==> old(self).start_error(*old(ledger), *old(registry), user_id, machine_id)
                is None,
            match r {
                Ok(s) => {
                    &&& s.id == old(self)@.len() + 1
                    &&& s.user_id == user_id
                    &&& s.machine_id == machine_id
                    &&& s.started_at == now
                    &&& s.ended_at is None
                    &&& s.minutes_consumed == 0
                    &&& s.status is Active
                    &&& final(self)@ == old(self)@.push(s)
                    &&& final(registry)@ == old(registry)@.update(
                        machine_id - 1,
                        (Machine {
                            occupancy: Occupancy::Reserved,
                            ..old(registry).machine(machine_id)
                        }),
                    )
                },
                Err(e) => {
                    &&& Some(e) == old(self).start_error(
                        *old(ledger),
                        *old(registry),
                        user_id,
                        machine_id,
                    )
                    &&& final(self)@ == old(self)@
                    &&& final(registry)@ == old(registry)@
                },
            },
    {
        match ledger.authorize_session_start(user_id) {
            Err(e) => {
                return Err(e);
            },
            Ok(()) => {},
        }
        match registry.reserve(machine_id) {
            Err(e) => {
                return Err(e);
            },
            Ok(_) => {},
        }
        if self.user_has_active(user_id) {
            // The session record cannot be created: compensate the
            // reservation before surfacing the conflict.
            let rel = registry.release(machine_id);
            proof {
                assert(rel is Ok);
                assert(registry@[machine_id - 1] == old(registry)@[machine_id - 1]);
                assert(registry@ =~= old(registry)@);
            }
            return Err(ErrorKind::Conflict);
        }
        let id = (self.sessions.len() as i64) + 1;
        let s = Session {
            id,
            user_id,
            machine_id,
            started_at: now,
            ended_at: None,
            minutes_consumed: 0,
            status: SessionStatus::Active,
        };
        let out = s.clone();
        self.sessions.push(s);
        proof {
            assert(registry@[machine_id - 1] == (Machine {
                occupancy: Occupancy::Reserved,
                ..old(registry).machine(machine_id)
            }));
        }
        Ok(out)
    }

    /// Ends an active session: bills at least one whole minute, debits the
    /// user (regular minutes first), credits whole lifetime hours, finalizes
    /// the record and releases the machine — all together, or, on any
    /// failure, not at all: an unpayable session stays active and its
    /// machine stays reserved. `now` must not precede the session's start,
    /// which the process clock guarantees. No user's lifetime hours ever
    /// decrease.
    pub fn end(
        &mut self,
        ledger: &mut AccountLedger,
        registry: &mut MachineRegistry,
        session_id: i64,
        now: i64,
    ) -> (r: Result<Session, ErrorKind>)
        requires
            old(self).wf(),
            old(ledger).wf(),
            old(registry).wf(),
            old(self).consistent_with(*old(registry)),
            0 <= now,
            old(self).has_session(session_id) && old(self).session(session_id).status is Active
                ==> old(self).session(session_id).started_at <= now,
        ensures
            final(self).wf(),
            final(ledger).wf(),
            final(registry).wf(),
            final(self).consistent_with(*final(registry)),
            forall|uid: i64| #![auto]
                old(ledger).has_user(uid) ==> final(ledger).has_user(uid) && final(ledger).user(
                    uid,
                ).lifetime_hours >= old(ledger).user(uid).lifetime_hours,
            r is Ok <==> old(self).end_error(*old(ledger), session_id, now as int) is None,
            match r {
                Ok(s) => {
                    &&& s.id == old(self).session(session_id).id
                    &&& s.user_id == old(self).session(session_id).user_id
                    &&& s.machine_id == old(self).session(session_id).machine_id
                    &&& s.started_at == old(self).session(session_id).started_at
                    &&& s.status is Ended
                    &&& s.ended_at == Some(now)
                    &&& s.minutes_consumed == billed_minutes(
                        old(self).session(session_id).started_at as int,
                        now as int,
                    )
                    &&& final(self)@ == old(self)@.update(session_id - 1, s)
                    &&& final(ledger)@ == old(ledger)@.update(
                        s.user_id - 1,
                        settled(old(ledger).user(s.user_id), s.minutes_consumed as int),
                    )
                    &&& final(registry)@ == old(registry)@.update(
                        s.machine_id - 1,
                        (Machine {
                            occupancy: Occupancy::Available,
                            ..old(registry).machine(s.machine_id)
                        }),
                    )
                },
                Err(e) => {
                    &&& Some(e) == old(self).end_error(*old(ledger), session_id, now as int)
                    &&& final(self)@ == old(self)@
                    &&& final(ledger)@ == old(ledger)@
                    &&& final(registry)@ == old(registry)@
                },
            },
    {
        let i = match self.slot(session_id) {
            Some(i) => i,
            None => {
                return Err(ErrorKind::NotFound);
            },
        };
        let s0 = self.sessions[i].clone();
        if matches!(s0.status, SessionStatus::Ended) {
            return Err(ErrorKind::AlreadyEnded);
        }
        let uid = s0.user_id;
        let mid = s0.machine_id;
        let minutes = minutes_elapsed(s0.started_at, now);
        match ledger.debit(uid, minutes) {
            Err(e) => {
                return Err(e);
            },
            Ok(_) => {},
        }
        let hours = hours_for(minutes);
        match ledger.credit_lifetime_hours(uid, hours) {
            Ok(_) => {},
            Err(_) => {
                return unreached();
            },
        }
        proof {
            assert(ledger@[uid - 1] == settled(old(ledger).user(uid), minutes as int));
            assert(ledger@ =~= old(ledger)@.update(
                uid - 1,
                settled(old(ledger).user(uid), minutes as int),
            ));
        }
        let mut s2 = s0;
        s2.status = SessionStatus::Ended;
        s2.ended_at = Some(now);
        s2.minutes_consumed = minutes;
        let out = s2.clone();
        self.sessions.set(i, s2);
        let rel = registry.release(mid);
        proof {
            assert(rel is Ok);
            assert(registry@[mid - 1] == (Machine {
                occupancy: Occupancy::Available,
                ..old(registry).machine(mid)
            }));
        }
        Ok(out)
    }

    /// A read-only fetch of one session.
    pub fn get_session(&self, session_id: i64) -> (r: Result<SessionResponse, ErrorKind>)
        ensures
            r is Ok <==> self.has_session(session_id),
            match r {
                Ok(resp) => resp.session == self.session(session_id),
                Err(e) => e == ErrorKind::NotFound,
            },
    {
        match self.slot(session_id) {
            Some(i) => Ok(
                SessionResponse {
                    session: self.sessions[i].clone(),
                    message: "Session details retrieved successfully".to_owned(),
                },
            ),
            None => Err(ErrorKind::NotFound),
        }
    }

    /// All currently active sessions, most recently started first.
    pub fn get_active_sessions(&self) -> (r: SessionsResponse)
        ensures
            r.sessions@.to_multiset() == active_of(self@).to_multiset(),
            sorted_by_started_desc(r.sessions@),
    {
        let n = self.sessions.len();
        let mut picked: Vec<Session> = Vec::new();
        let mut i: usize = 0;
        proof {
            assert(self@.subrange(0, 0) =~= Seq::<Session>::empty());
            lemma_active_of_empty();
        }
        while i < n
            invariant
                n == self@.len(),
                i <= n,
                picked@ == active_of(self@.subrange(0, i as int)),
                n == self.sessions@.len(),
                self.sessions@ == self@,
            decreases n - i,
        {
            let ghost pre = self@.subrange(0, i as int);
            let s = &self.sessions[i];
            proof {
                assert(self@.subrange(0, i + 1) =~= pre.push(self@[i as int]));
                lemma_active_of_push(pre, self@[i as int]);
            }
            if matches!(s.status, SessionStatus::Active) {
                picked.push(s.clone());
            }
            i = i + 1;
        }
        proof {
            assert(self@.subrange(0, n as int) =~= self@);
        }
        let sorted = sort_sessions_by_started_desc(picked);
        SessionsResponse {
            sessions: sorted,
            message: "Active sessions retrieved successfully".to_owned(),
        }
    }
}

/// No two distinct sessions are ever simultaneously active on the same
/// machine, nor for the same user, in a well-formed session store.
pub proof fn lemma_machine_exclusivity(sm: SessionManager, i: int, j: int)
    requires
        sm.wf(),
        0 <= i < sm@.len(),
        0 <= j < sm@.len(),
        i != j,
        sm@[i].status is Active,
        sm@[j].status is Active,
    ensures
        sm@[i].machine_id != sm@[j].machine_id,
        sm@[i].user_id != sm@[j].user_id,
{
}

proof fn lemma_active_of_empty()
    ensures
        active_of(Seq::<Session>::empty()) =~= Seq::<Session>::empty(),
{
    reveal(Seq::filter);
}

proof fn lemma_active_of_push(s: Seq<Session>, x: Session)
    ensures
        x.status is Active ==> active_of(s.push(x)) =~= active_of(s).push(x),
        !(x.status is Active) ==> active_of(s.push(x)) =~= active_of(s),
{
    reveal(Seq::filter);
    assert(s.push(x).drop_last() =~= s);
    assert(s.push(x).last() == x);
}

/// Selection sort by start time, latest first.
fn sort_sessions_by_started_desc(input: Vec<Session>) -> (r: Vec<Session>)
    ensures
        r@.to_multiset() == input@.to_multiset(),
        r@.len() == input@.len(),
        sorted_by_started_desc(r@),
{
    let ghost orig = input@;
    let mut rest = input;
    let mut out: Vec<Session> = Vec::new();
    proof {
        assert(out@.to_multiset().add(rest@.to_multiset()) =~= orig.to_multiset());
    }
    while rest.len() > 0
        invariant
            out@.to_multiset().add(rest@.to_multiset()) == orig.to_multiset(),
            out@.len() + rest@.len() == orig.len(),
            sorted_by_started_desc(out@),
            forall|i: int, j: int|
                0 <= i < out@.len() && 0 <= j < rest@.len() ==> (#[trigger] out@[i].started_at)
                    >= (#[trigger] rest@[j].started_at),
        decreases rest@.len(),
    {
        let mi = max_started_index(&rest);
        let ghost pre = rest@;
        let s = rest.remove(mi);
        proof {
            assert(pre.remove(mi as int).to_multiset() =~= pre.to_multiset().remove(s));
            assert(out@.push(s).to_multiset() =~= out@.to_multiset().insert(s));
            assert(out@.to_multiset().insert(s).add(pre.to_multiset().remove(s))
                =~= orig.to_multiset());
        }
        out.push(s);
    }
    proof {
        assert(rest@.to_multiset() =~= vstd::multiset::Multiset::empty());
        assert(out@.to_multiset().add(vstd::multiset::Multiset::empty()) =~= out@.to_multiset());
    }
    out
}

/// The position of a session whose start time is greatest.
fn max_started_index(v: &Vec<Session>) -> (r: usize)
    requires
        v@.len() > 0,
    ensures
        r < v@.len(),
        forall|j: int| 0 <= j < v@.len() ==> v@[r as int].started_at >= (#[trigger] v@[j].started_at),
{
    let mut mi: usize = 0;
    let mut k: usize = 1;
    while k < v.len()
        invariant
            0 < v@.len(),
            mi < k <= v@.len(),
            forall|j: int| 0 <= j < k ==> v@[mi as int].started_at >= (#[trigger] v@[j].started_at),
        decreases v@.len() - k,
    {
        if v[k].started_at > v[mi].started_at {
            mi = k;
        }
        k = k + 1;
    }
    mi
}

} // verus!
