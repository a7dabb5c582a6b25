use godfather_backend::errors::ErrorKind;
use godfather_backend::ledger::AccountLedger;
use godfather_backend::machines::MachineRegistry;
use godfather_backend::models::{Occupancy, SessionStatus};
use godfather_backend::sessions::{minutes_elapsed, SessionManager};

const T0: i64 = 1_700_000_000;

fn setup_one_user_one_machine() -> (AccountLedger, MachineRegistry, SessionManager) {
    let mut ledger = AccountLedger::new();
    ledger
        .register_user(
            "alice".to_string(),
            "alice@example.com".to_string(),
            "user".to_string(),
            None,
            "2024-01-01 00:00:00".to_string(),
        )
        .unwrap();
    let mut registry = MachineRegistry::new();
    registry.register("m1".to_string(), T0).unwrap();
    (ledger, registry, SessionManager::new())
}

#[test]
fn start_creates_active_session_and_reserves_machine() {
    let (mut ledger, mut registry, mut sm) = setup_one_user_one_machine();
    let s = sm.start(&mut ledger, &mut registry, 1, 1, T0).unwrap();
    assert_eq!(s.id, 1);
    assert_eq!(s.user_id, 1);
    assert_eq!(s.machine_id, 1);
    assert_eq!(s.started_at, T0);
    assert!(s.ended_at.is_none());
    assert_eq!(s.minutes_consumed, 0);
    assert!(matches!(s.status, SessionStatus::Active));
    assert_eq!(registry.reserve(1).unwrap_err(), ErrorKind::Conflict);
    // Balances are untouched by start.
    assert_eq!(ledger.get_balance(1).unwrap().total_minutes, 60);
}

#[test]
fn full_session_bills_rounded_up_minutes_and_credits_lifetime() {
    // A user with 60 prepaid minutes runs a session for 125 seconds:
    // 3 minutes are billed, one lifetime hour is credited, and the machine
    // is available again.
    let (mut ledger, mut registry, mut sm) = setup_one_user_one_machine();
    sm.start(&mut ledger, &mut registry, 1, 1, T0).unwrap();
    let ended = sm.end(&mut ledger, &mut registry, 1, T0 + 125).unwrap();
    assert!(matches!(ended.status, SessionStatus::Ended));
    assert_eq!(ended.minutes_consumed, 3);
    assert_eq!(ended.ended_at, Some(T0 + 125));
    let b = ledger.get_balance(1).unwrap();
    assert_eq!(b.normal_minutes, 57);
    assert_eq!(b.bonus_minutes, 0);
    assert_eq!(ledger.get_user(1).unwrap().lifetime_hours, 1);
    // Machine is available again.
    assert!(registry.reserve(1).is_ok());
}

#[test]
fn start_with_zero_balance_fails_without_any_mutation() {
    let (mut ledger, mut registry, mut sm) = setup_one_user_one_machine();
    ledger.debit(1, 60).unwrap();
    let r = sm.start(&mut ledger, &mut registry, 1, 1, T0);
    assert_eq!(r.unwrap_err(), ErrorKind::InsufficientBalance);
    // No session was created and the machine is still available.
    assert!(sm.get_session(1).is_err());
    assert!(registry.reserve(1).is_ok());
    assert_eq!(ledger.get_balance(1).unwrap().total_minutes, 0);
}

#[test]
fn start_for_banned_user_fails_banned() {
    let (mut ledger, mut registry, mut sm) = setup_one_user_one_machine();
    ledger.ban_user(1).unwrap();
    assert_eq!(sm.start(&mut ledger, &mut registry, 1, 1, T0).unwrap_err(), ErrorKind::Banned);
}

#[test]
fn start_unknown_user_or_machine_fails_not_found() {
    let (mut ledger, mut registry, mut sm) = setup_one_user_one_machine();
    assert_eq!(sm.start(&mut ledger, &mut registry, 5, 1, T0).unwrap_err(), ErrorKind::NotFound);
    assert_eq!(sm.start(&mut ledger, &mut registry, 1, 5, T0).unwrap_err(), ErrorKind::NotFound);
}

#[test]
fn start_on_offline_machine_fails_unavailable() {
    let (mut ledger, mut registry, mut sm) = setup_one_user_one_machine();
    registry.mark_offline(1).unwrap();
    assert_eq!(sm.start(&mut ledger, &mut registry, 1, 1, T0).unwrap_err(), ErrorKind::Unavailable);
}

#[test]
fn competing_starts_for_one_machine_admit_exactly_one() {
    let (mut ledger, mut registry, mut sm) = setup_one_user_one_machine();
    ledger
        .register_user(
            "bob".to_string(),
            "bob@example.com".to_string(),
            "user".to_string(),
            None,
            "2024-01-01 00:00:00".to_string(),
        )
        .unwrap();
    let first = sm.start(&mut ledger, &mut registry, 1, 1, T0);
    let second = sm.start(&mut ledger, &mut registry, 2, 1, T0 + 1);
    assert!(first.is_ok());
    assert_eq!(second.unwrap_err(), ErrorKind::Conflict);
    let active = sm.get_active_sessions();
    assert_eq!(active.sessions.len(), 1);
    assert_eq!(active.sessions[0].machine_id, 1);
}

#[test]
fn failed_start_after_reserve_releases_the_machine() {
    // Alice is already running a session on m1 and asks for m2: the start
    // reserves m2, then hits the one-session-per-user rule, compensates by
    // releasing m2, and surfaces a conflict. Bob can then take m2.
    let (mut ledger, mut registry, mut sm) = setup_one_user_one_machine();
    registry.register("m2".to_string(), T0).unwrap();
    ledger
        .register_user(
            "bob".to_string(),
            "bob@example.com".to_string(),
            "user".to_string(),
            None,
            "2024-01-01 00:00:00".to_string(),
        )
        .unwrap();
    sm.start(&mut ledger, &mut registry, 1, 1, T0).unwrap();
    let r = sm.start(&mut ledger, &mut registry, 1, 2, T0 + 1);
    assert_eq!(r.unwrap_err(), ErrorKind::Conflict);
    // m2 is available again: the reservation did not outlive the failure.
    let bob = sm.start(&mut ledger, &mut registry, 2, 2, T0 + 2);
    assert!(bob.is_ok());
}

#[test]
fn five_second_session_bills_exactly_one_minute() {
    let (mut ledger, mut registry, mut sm) = setup_one_user_one_machine();
    sm.start(&mut ledger, &mut registry, 1, 1, T0).unwrap();
    let ended = sm.end(&mut ledger, &mut registry, 1, T0 + 5).unwrap();
    assert_eq!(ended.minutes_consumed, 1);
    assert_eq!(ledger.get_balance(1).unwrap().normal_minutes, 59);
}

#[test]
fn zero_second_session_still_bills_one_minute() {
    let (mut ledger, mut registry, mut sm) = setup_one_user_one_machine();
    sm.start(&mut ledger, &mut registry, 1, 1, T0).unwrap();
    let ended = sm.end(&mut ledger, &mut registry, 1, T0).unwrap();
    assert_eq!(ended.minutes_consumed, 1);
}

#[test]
fn billed_minutes_round_up_at_exact_boundaries() {
    assert_eq!(minutes_elapsed(0, 0), 1);
    assert_eq!(minutes_elapsed(0, 5), 1);
    assert_eq!(minutes_elapsed(0, 59), 1);
    assert_eq!(minutes_elapsed(0, 60), 1);
    assert_eq!(minutes_elapsed(0, 61), 2);
    assert_eq!(minutes_elapsed(0, 125), 3);
    assert_eq!(minutes_elapsed(0, 3600), 60);
    assert_eq!(minutes_elapsed(100, 225), 3);
}

#[test]
fn ending_twice_fails_already_ended() {
    let (mut ledger, mut registry, mut sm) = setup_one_user_one_machine();
    sm.start(&mut ledger, &mut registry, 1, 1, T0).unwrap();
    sm.end(&mut ledger, &mut registry, 1, T0 + 10).unwrap();
    let r = sm.end(&mut ledger, &mut registry, 1, T0 + 20);
    assert_eq!(r.unwrap_err(), ErrorKind::AlreadyEnded);
}

#[test]
fn ending_unknown_session_fails_not_found() {
    let (mut ledger, mut registry, mut sm) = setup_one_user_one_machine();
    let r = sm.end(&mut ledger, &mut registry, 4, T0);
    assert_eq!(r.unwrap_err(), ErrorKind::NotFound);
}

#[test]
fn unpayable_end_fails_closed_keeping_session_and_reservation() {
    // The user cannot cover two hours: the end fails, the session stays
    // active, the machine stays reserved and no charge is recorded.
    let (mut ledger, mut registry, mut sm) = setup_one_user_one_machine();
    ledger.debit(1, 59).unwrap();
    sm.start(&mut ledger, &mut registry, 1, 1, T0).unwrap();
    let r = sm.end(&mut ledger, &mut registry, 1, T0 + 2 * 3600);
    assert_eq!(r.unwrap_err(), ErrorKind::InsufficientBalance);
    let still = sm.get_session(1).unwrap().session;
    assert!(matches!(still.status, SessionStatus::Active));
    assert_eq!(registry.reserve(1).unwrap_err(), ErrorKind::Conflict);
    assert_eq!(ledger.get_balance(1).unwrap().total_minutes, 1);
    assert_eq!(ledger.get_user(1).unwrap().lifetime_hours, 0);
}

#[test]
fn machine_is_reusable_across_consecutive_sessions() {
    let (mut ledger, mut registry, mut sm) = setup_one_user_one_machine();
    sm.start(&mut ledger, &mut registry, 1, 1, T0).unwrap();
    sm.end(&mut ledger, &mut registry, 1, T0 + 30).unwrap();
    let again = sm.start(&mut ledger, &mut registry, 1, 1, T0 + 60).unwrap();
    assert_eq!(again.id, 2);
    let m = &registry.list()[0];
    assert!(matches!(m.occupancy, Occupancy::Reserved));
}

#[test]
fn lifetime_hours_accumulate_monotonically_across_sessions() {
    let (mut ledger, mut registry, mut sm) = setup_one_user_one_machine();
    let mut last = 0i64;
    for k in 0..3i64 {
        let t = T0 + k * 10_000;
        sm.start(&mut ledger, &mut registry, 1, 1, t).unwrap();
        sm.end(&mut ledger, &mut registry, (k + 1) as i64, t + 61).unwrap();
        let lh = ledger.get_user(1).unwrap().lifetime_hours;
        assert!(lh >= last);
        last = lh;
    }
    assert_eq!(last, 3);
}

#[test]
fn active_sessions_are_listed_latest_first() {
    let (mut ledger, mut registry, mut sm) = setup_one_user_one_machine();
    registry.register("m2".to_string(), T0).unwrap();
    registry.register("m3".to_string(), T0).unwrap();
    for (name, email) in [("bob", "bob@example.com"), ("carol", "carol@example.com")] {
        ledger
            .register_user(
                name.to_string(),
                email.to_string(),
                "user".to_string(),
                None,
                "2024-01-01 00:00:00".to_string(),
            )
            .unwrap();
    }
    sm.start(&mut ledger, &mut registry, 1, 1, T0 + 10).unwrap();
    sm.start(&mut ledger, &mut registry, 2, 2, T0 + 30).unwrap();
    sm.start(&mut ledger, &mut registry, 3, 3, T0 + 20).unwrap();
    sm.end(&mut ledger, &mut registry, 2, T0 + 40).unwrap();
    let resp = sm.get_active_sessions();
    let starts: Vec<i64> = resp.sessions.iter().map(|s| s.started_at).collect();
    assert_eq!(starts, vec![T0 + 20, T0 + 10]);
}

#[test]
fn get_session_fetches_without_mutating() {
    let (mut ledger, mut registry, mut sm) = setup_one_user_one_machine();
    sm.start(&mut ledger, &mut registry, 1, 1, T0).unwrap();
    let r = sm.get_session(1).unwrap();
    assert_eq!(r.session.id, 1);
    assert!(matches!(r.session.status, SessionStatus::Active));
    assert_eq!(sm.get_session(2).unwrap_err(), ErrorKind::NotFound);
}
