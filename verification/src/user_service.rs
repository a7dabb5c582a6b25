//! User registration and login against the ledger. Password hashing and
//! checking are delegated to bcrypt behind trusted wrappers; the decisions
//! around the calls — uniqueness, credential comparison, token issuance and
//! the login-time bookkeeping — are verified.

use vstd::prelude::*;

use crate::auth::{create_token, decimal_of, hs256_token};
use crate::clock::{datetime_string_of, format_timestamp};
use crate::ledger::AccountLedger;
use crate::models::{LoginReq, LoginResponse, RegisterReq, User};

verus! {

/// Why a user-service operation failed.
#[derive(Clone, Copy, Debug, PartialEq, Eq, Structural)]
pub enum ServiceError {
    /// The username or email is already taken.
    Conflict,
    /// No such user, or the password does not match.
    InvalidCredentials,
    /// Hashing, verification or token creation failed.
    Internal,
}

/// Whether bcrypt accepts `password` against `hash`. Named rather than
/// spelled out: the result depends on the two strings alone.
pub uninterp spec fn bcrypt_matches(password: Seq<char>, hash: Seq<char>) -> bool;

/// Relies on bcrypt::hash with the default cost: the produced hash embeds a
/// fresh random salt, so nothing is promised of its text, but bcrypt::verify
/// accepts the hashed password against it.
#[verifier::external_body]
fn bcrypt_hash_password(password: &str) -> (r: Result<String, ServiceError>)
    ensures
        r matches Ok(h) ==> bcrypt_matches(password@, h@),
        r matches Err(e) ==> e == ServiceError::Internal,
{
    bcrypt::hash(password, bcrypt::DEFAULT_COST).map_err(|_| ServiceError::Internal)
}

/// Relies on bcrypt::verify: deterministic in the password and the hash;
/// fails only on a malformed hash.
#[verifier::external_body]
fn bcrypt_verify_password(password: &str, hash: &str) -> (r: Result<bool, ServiceError>)
    ensures
        r matches Ok(b) ==> b == bcrypt_matches(password@, hash@),
        r matches Err(e) ==> e == ServiceError::Internal,
{
    bcrypt::verify(password, hash).map_err(|_| ServiceError::Internal)
}

/// The hash a stored user's password is checked against: the recorded hash,
/// or the empty string where none was recorded.
pub open spec fn stored_hash(u: User) -> Seq<char> {
    match u.password_hash {
        Some(h) => h@,
        None => Seq::empty(),
    }
}

/// Registers a user: hashes the password, then creates the record with the
/// starting balances. Fails `Conflict` only when the username or email is
/// already taken; a failed call leaves the ledger unchanged.
pub fn create_user(ledger: &mut AccountLedger, req: RegisterReq, now: i64) -> (r: Result<
    User,
    ServiceError,
>)
    requires
        old(ledger).wf(),
        old(ledger)@.len() < i64::MAX,
        0 <= now <= 253_402_207_200,
    ensures
        final(ledger).wf(),
        r is Err ==> final(ledger)@ == old(ledger)@,
        r == Err::<User, ServiceError>(ServiceError::Conflict) ==> old(ledger).identity_taken(
            req.username@,
            req.email@,
        ),
        match r {
            Ok(u) => {
                &&& !old(ledger).identity_taken(req.username@, req.email@)
                &&& final(ledger)@ == old(ledger)@.push(u)
                &&& u.id == old(ledger)@.len() + 1
                &&& u.username == req.username
                &&& u.email == Some(req.email)
                &&& u.role@ == (match req.role {
                    Some(ro) => ro@,
                    None => "user"@,
                })
                &&& u.banned == 0
                &&& u.created_at@ == datetime_string_of(now as int)
                &&& u.last_login is None
                &&& u.balance == 60
                &&& u.minutes_balance == 60
                &&& u.bonus_minutes == 0
                &&& u.lifetime_hours == 0
                &&& (u.password_hash matches Some(h) && bcrypt_matches(req.password@, h@))
            },
            Err(_) => true,
        },
{
    let hash = match bcrypt_hash_password(req.password.as_str()) {
        Ok(h) => h,
        Err(e) => {
            return Err(e);
        },
    };
    let role = match req.role {
        Some(ro) => ro,
        None => "user".to_owned(),
    };
    let stamp = format_timestamp(now);
    match ledger.register_user(req.username, req.email, role, Some(hash), stamp) {
        Ok(u) => Ok(u),
        Err(_) => Err(ServiceError::Conflict),
    }
}

/// Authenticates a user: looks the username up, checks the password against
/// the stored bcrypt hash, issues a token, and records the login time. A
/// failed call leaves the ledger unchanged; on success only the user's
/// `last_login` changes, and the response carries the record as it stood
/// before the call together with a token over its identity.
pub fn authenticate_user(
    ledger: &mut AccountLedger,
    jwt_secret: &str,
    req: LoginReq,
    now: i64,
) -> (r: Result<LoginResponse, ServiceError>)
    requires
        old(ledger).wf(),
        0 <= now <= 253_402_207_200,
        now + 3600 <= usize::MAX,
    ensures
        final(ledger).wf(),
        r is Err ==> final(ledger)@ == old(ledger)@,
        r == Err::<LoginResponse, ServiceError>(ServiceError::InvalidCredentials) ==> (forall|
            j: int,
        |
            0 <= j < old(ledger)@.len() ==> (#[trigger] old(ledger)@[j].username@) != req.username@)
            || (exists|i: int|
            0 <= i < old(ledger)@.len() && (#[trigger] old(ledger)@[i].username@) == req.username@
                && !bcrypt_matches(req.password@, stored_hash(old(ledger)@[i]))),
        match r {
            Ok(resp) => exists|i: int|
                {
                    &&& 0 <= i < old(ledger)@.len()
                    &&& (#[trigger] old(ledger)@[i].username@) == req.username@
                    &&& resp.user == old(ledger)@[i]
                    &&& bcrypt_matches(req.password@, stored_hash(old(ledger)@[i]))
                    &&& resp.token@ == hs256_token(
                        decimal_of(old(ledger)@[i].id as int),
                        old(ledger)@[i].username@,
                        old(ledger)@[i].role@,
                        now + 3600,
                        now as int,
                        jwt_secret@,
                    )
                    &&& final(ledger)@ == old(ledger)@.update(
                        i,
                        (User { last_login: final(ledger)@[i].last_login, ..old(ledger)@[i] }),
                    )
                    &&& (final(ledger)@[i].last_login matches Some(s) && s@ == datetime_string_of(
                        now as int,
                    ))
                },
            Err(_) => true,
        },
{
    let idx = match ledger.find_by_username(&req.username) {
        Some(i) => i,
        None => {
            return Err(ServiceError::InvalidCredentials);
        },
    };
    let user = ledger.user_at(idx);
    let verified = match &user.password_hash {
        Some(h) => bcrypt_verify_password(req.password.as_str(), h.as_str()),
        None => bcrypt_verify_password(req.password.as_str(), ""),
    };
    let ok = match verified {
        Ok(b) => b,
        Err(e) => {
            return Err(e);
        },
    };
    proof {
        reveal_strlit("");
        assert(""@ =~= Seq::<char>::empty());
        assert(ok == bcrypt_matches(req.password@, stored_hash(old(ledger)@[idx as int])));
    }
    if !ok {
        return Err(ServiceError::InvalidCredentials);
    }
    let token = match create_token(
        user.id,
        user.username.as_str(),
        user.role.as_str(),
        jwt_secret,
        now as u64,
    ) {
        Ok(t) => t,
        Err(_) => {
            return Err(ServiceError::Internal);
        },
    };
    let stamp = format_timestamp(now);
    let uid = user.id;
    match ledger.set_last_login(uid, stamp) {
        Ok(()) => {},
        Err(_) => {
            return unreached();
        },
    }
    Ok(LoginResponse { token, user })
}

} // verus!
