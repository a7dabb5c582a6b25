//! Entity and request/response records.
//!
//! Timestamps are Unix seconds held in `i64` fields; formatted date strings
//! appear only where the record keeps one for display (`created_at`,
//! `last_login`). Occupancy and liveness of a machine are independent axes:
//! a reserved machine can still report heartbeats.

use vstd::prelude::*;

verus! {

/// A registered account. Owned by `AccountLedger`; balances are mutated only
/// through ledger operations.
#[derive(Debug)]
pub struct User {
    pub id: i64,
    pub username: String,
    pub email: Option<String>,
    pub role: String,
    /// Non-zero when the user is banned (kept as an integer flag, as stored).
    pub banned: i64,
    pub created_at: String,
    pub last_login: Option<String>,
    pub balance: i64,
    /// Prepaid regular minutes; debited before bonus minutes.
    pub minutes_balance: i64,
    /// Promotional minutes; debited only after regular minutes run out.
    pub bonus_minutes: i64,
    /// Cumulative whole hours ever consumed; never decreases.
    pub lifetime_hours: i64,
    pub password_hash: Option<String>,
}

impl User {
    pub fn is_banned(&self) -> (r: bool)
        ensures
            r == (self.banned != 0),
    {
        self.banned != 0
    }

    pub fn get_role(&self) -> (r: &str)
        ensures
            r@ == self.role@,
    {
        self.role.as_str()
    }
}

impl Clone for User {
    fn clone(&self) -> (r: Self)
        ensures
            r == *self,
    {
        User {
            id: self.id,
            username: self.username.clone(),
            email: clone_opt_string(&self.email),
            role: self.role.clone(),
            banned: self.banned,
            created_at: self.created_at.clone(),
            last_login: clone_opt_string(&self.last_login),
            balance: self.balance,
            minutes_balance: self.minutes_balance,
            bonus_minutes: self.bonus_minutes,
            lifetime_hours: self.lifetime_hours,
            password_hash: clone_opt_string(&self.password_hash),
        }
    }
}

fn clone_opt_string(s: &Option<String>) -> (r: Option<String>)
    ensures
        r == *s,
{
    match s {
        Some(v) => Some(v.clone()),
        None => None,
    }
}

/// Registration payload for the consolidated user schema.
#[derive(Debug)]
pub struct RegisterReq {
    pub username: String,
    pub email: String,
    pub password: String,
    pub role: Option<String>,
}

/// Minimal creation payload kept for the plain user-creation route.
#[derive(Debug)]
pub struct CreateUser {
    pub username: String,
    pub email: String,
}

/// Login payload.
#[derive(Debug)]
pub struct LoginReq {
    pub username: String,
    pub password: String,
}

/// Direct balance update payload.
#[derive(Debug)]
pub struct UpdateBalance {
    pub balance: i64,
    pub minutes_balance: i64,
}

/// Successful login: a signed token plus the authenticated user record.
#[derive(Debug)]
pub struct LoginResponse {
    pub token: String,
    pub user: User,
}

/// Whether a machine is currently assigned to an active session.
#[derive(Clone, Copy, Debug, PartialEq, Eq, Structural)]
pub enum Occupancy {
    Available,
    Reserved,
}

/// Whether a machine has recently reported a heartbeat; independent of
/// occupancy.
#[derive(Clone, Copy, Debug, PartialEq, Eq, Structural)]
pub enum Liveness {
    Online,
    Offline,
}

/// A physical machine. Owned by `MachineRegistry`.
#[derive(Debug)]
pub struct Machine {
    pub id: i64,
    pub name: String,
    pub occupancy: Occupancy,
    pub liveness: Liveness,
    /// Unix seconds of the last heartbeat or registration.
    pub last_seen_at: i64,
}

impl Clone for Machine {
    fn clone(&self) -> (r: Self)
        ensures
            r == *self,
    {
        Machine {
            id: self.id,
            name: self.name.clone(),
            occupancy: self.occupancy,
            liveness: self.liveness,
            last_seen_at: self.last_seen_at,
        }
    }
}

#[derive(Debug)]
pub struct RegisterMachineReq {
    pub name: String,
}

#[derive(Debug)]
pub struct HeartbeatReq {
    pub machine_id: i64,
}

/// Session lifecycle: `Ended` is terminal.
#[derive(Clone, Copy, Debug, PartialEq, Eq, Structural)]
pub enum SessionStatus {
    Active,
    Ended,
}

/// One timed occupancy of a machine by a user, billed in whole minutes.
/// Owned by `SessionManager`; mutated exactly once, by ending it.
#[derive(Debug)]
pub struct Session {
    pub id: i64,
    pub user_id: i64,
    pub machine_id: i64,
    /// Unix seconds at which the session started.
    pub started_at: i64,
    /// Unix seconds at which the session ended; absent while active.
    pub ended_at: Option<i64>,
    /// Whole minutes billed; 0 until the session is ended.
    pub minutes_consumed: i64,
    pub status: SessionStatus,
}

impl Clone for Session {
    fn clone(&self) -> (r: Self)
        ensures
            r == *self,
    {
        Session {
            id: self.id,
            user_id: self.user_id,
            machine_id: self.machine_id,
            started_at: self.started_at,
            ended_at: self.ended_at,
            minutes_consumed: self.minutes_consumed,
            status: self.status,
        }
    }
}

#[derive(Debug)]
pub struct StartSessionReq {
    pub user_id: i64,
    pub machine_id: i64,
}

#[derive(Debug)]
pub struct EndSessionReq {
    pub session_id: i64,
}

} // verus!
