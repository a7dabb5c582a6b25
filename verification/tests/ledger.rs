use godfather_backend::errors::ErrorKind;
use godfather_backend::ledger::AccountLedger;

fn ledger_with_user(name: &str) -> AccountLedger {
    let mut l = AccountLedger::new();
    l.register_user(
        name.to_string(),
        format!("{}@example.com", name),
        "user".to_string(),
        None,
        "2024-01-01 00:00:00".to_string(),
    )
    .unwrap();
    l
}

#[test]
fn register_user_starts_with_sixty_minutes() {
    let l = ledger_with_user("alice");
    let u = l.get_user(1).unwrap();
    assert_eq!(u.id, 1);
    assert_eq!(u.minutes_balance, 60);
    assert_eq!(u.bonus_minutes, 0);
    assert_eq!(u.balance, 60);
    assert_eq!(u.lifetime_hours, 0);
    assert_eq!(u.banned, 0);
    assert!(!u.is_banned());
    assert_eq!(u.get_role(), "user");
}

#[test]
fn register_user_duplicate_username_is_conflict() {
    let mut l = ledger_with_user("alice");
    let r = l.register_user(
        "alice".to_string(),
        "other@example.com".to_string(),
        "user".to_string(),
        None,
        "2024-01-01 00:00:00".to_string(),
    );
    assert_eq!(r.unwrap_err(), ErrorKind::Conflict);
}

#[test]
fn register_user_duplicate_email_is_conflict() {
    let mut l = ledger_with_user("alice");
    let r = l.register_user(
        "bob".to_string(),
        "alice@example.com".to_string(),
        "user".to_string(),
        None,
        "2024-01-01 00:00:00".to_string(),
    );
    assert_eq!(r.unwrap_err(), ErrorKind::Conflict);
}

#[test]
fn debit_takes_regular_minutes_first() {
    let mut l = ledger_with_user("alice");
    l.add_bonus(1, 10).unwrap();
    let (nm, nb) = l.debit(1, 25).unwrap();
    assert_eq!((nm, nb), (35, 10));
}

#[test]
fn debit_spills_into_bonus_minutes() {
    let mut l = ledger_with_user("alice");
    l.add_bonus(1, 10).unwrap();
    let (nm, nb) = l.debit(1, 64).unwrap();
    assert_eq!((nm, nb), (0, 6));
}

#[test]
fn debit_exceeding_funds_fails_and_leaves_balances_unchanged() {
    let mut l = ledger_with_user("alice");
    l.add_bonus(1, 10).unwrap();
    let r = l.debit(1, 71);
    assert_eq!(r.unwrap_err(), ErrorKind::InsufficientBalance);
    let b = l.get_balance(1).unwrap();
    assert_eq!(b.normal_minutes, 60);
    assert_eq!(b.bonus_minutes, 10);
    assert_eq!(b.total_minutes, 70);
}

#[test]
fn debit_everything_reaches_exactly_zero() {
    let mut l = ledger_with_user("alice");
    let (nm, nb) = l.debit(1, 60).unwrap();
    assert_eq!((nm, nb), (0, 0));
    // The combined balance never goes negative: the next debit fails.
    assert_eq!(l.debit(1, 1).unwrap_err(), ErrorKind::InsufficientBalance);
}

#[test]
fn debit_unknown_user_is_not_found() {
    let mut l = AccountLedger::new();
    assert_eq!(l.debit(1, 5).unwrap_err(), ErrorKind::NotFound);
}

#[test]
fn add_bonus_rejects_non_positive_amounts() {
    let mut l = ledger_with_user("alice");
    assert_eq!(l.add_bonus(1, 0).unwrap_err(), ErrorKind::InvalidInput);
    assert_eq!(l.add_bonus(1, -5).unwrap_err(), ErrorKind::InvalidInput);
}

#[test]
fn add_bonus_unknown_user_is_not_found() {
    let mut l = AccountLedger::new();
    assert_eq!(l.add_bonus(9, 5).unwrap_err(), ErrorKind::NotFound);
}

#[test]
fn add_bonus_credits_and_reports_totals() {
    let mut l = ledger_with_user("alice");
    let b = l.add_bonus(1, 15).unwrap();
    assert_eq!(b.user_id, 1);
    assert_eq!(b.normal_minutes, 60);
    assert_eq!(b.bonus_minutes, 15);
    assert_eq!(b.total_minutes, 75);
}

#[test]
fn get_balance_reports_combined_total() {
    let mut l = ledger_with_user("alice");
    l.add_bonus(1, 5).unwrap();
    let b = l.get_balance(1).unwrap();
    assert_eq!(b.total_minutes, 65);
    assert_eq!(l.get_balance(2).unwrap_err(), ErrorKind::NotFound);
}

#[test]
fn authorize_rejects_banned_and_broke_users() {
    let mut l = ledger_with_user("alice");
    assert!(l.authorize_session_start(1).is_ok());
    assert_eq!(l.authorize_session_start(2).unwrap_err(), ErrorKind::NotFound);
    l.ban_user(1).unwrap();
    assert_eq!(l.authorize_session_start(1).unwrap_err(), ErrorKind::Banned);
    l.unban_user(1).unwrap();
    l.debit(1, 60).unwrap();
    assert_eq!(l.authorize_session_start(1).unwrap_err(), ErrorKind::InsufficientBalance);
}

#[test]
fn ban_and_unban_flip_the_flag() {
    let mut l = ledger_with_user("alice");
    let banned = l.ban_user(1).unwrap();
    assert_eq!(banned.user.banned, 1);
    assert!(l.get_user(1).unwrap().is_banned());
    let unbanned = l.unban_user(1).unwrap();
    assert_eq!(unbanned.user.banned, 0);
    assert!(!l.get_user(1).unwrap().is_banned());
    assert_eq!(l.ban_user(2).unwrap_err(), ErrorKind::NotFound);
}

#[test]
fn credit_lifetime_hours_never_decreases() {
    let mut l = ledger_with_user("alice");
    let lh1 = l.credit_lifetime_hours(1, 2).unwrap();
    assert_eq!(lh1, 2);
    let lh2 = l.credit_lifetime_hours(1, 0).unwrap();
    assert_eq!(lh2, 2);
    let lh3 = l.credit_lifetime_hours(1, 5).unwrap();
    assert_eq!(lh3, 7);
    assert!(lh1 <= lh2 && lh2 <= lh3);
}

#[test]
fn update_balance_only_touches_the_credit_counter() {
    let mut l = ledger_with_user("alice");
    let u = l.update_balance(1, 999).unwrap();
    assert_eq!(u.balance, 999);
    assert_eq!(u.minutes_balance, 60);
}

#[test]
fn get_all_users_is_sorted_by_username() {
    let mut l = AccountLedger::new();
    for name in ["carol", "alice", "bob"] {
        l.register_user(
            name.to_string(),
            format!("{}@example.com", name),
            "user".to_string(),
            None,
            "2024-01-01 00:00:00".to_string(),
        )
        .unwrap();
    }
    let resp = l.get_all_users();
    let names: Vec<String> = resp.users.into_iter().map(|u| u.username).collect();
    assert_eq!(names, vec!["alice".to_string(), "bob".to_string(), "carol".to_string()]);
    assert!(!resp.message.is_empty());
}

#[test]
fn get_top_users_returns_ten_highest_lifetimes() {
    let mut l = AccountLedger::new();
    for i in 0..12i64 {
        l.register_user(
            format!("user{:02}", i),
            format!("user{:02}@example.com", i),
            "user".to_string(),
            None,
            "2024-01-01 00:00:00".to_string(),
        )
        .unwrap();
        l.credit_lifetime_hours(i + 1, i).unwrap();
    }
    let top = l.get_top_users();
    assert_eq!(top.len(), 10);
    let hours: Vec<i64> = top.iter().map(|u| u.lifetime_hours).collect();
    assert_eq!(hours, vec![11, 10, 9, 8, 7, 6, 5, 4, 3, 2]);
}

#[test]
fn find_by_username_finds_first_match() {
    let l = ledger_with_user("alice");
    assert_eq!(l.find_by_username(&"alice".to_string()), Some(0));
    assert_eq!(l.find_by_username(&"bob".to_string()), None);
}
