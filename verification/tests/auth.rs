use godfather_backend::auth::{
    create_token, extract_bearer_token, get_profile, i64_to_decimal, is_admin, verify_token,
    AuthError, JwtClaims,
};
use godfather_backend::clock::{format_timestamp, SystemClock};

#[test]
fn decimal_rendering_matches_expected_strings() {
    assert_eq!(i64_to_decimal(0), "0");
    assert_eq!(i64_to_decimal(7), "7");
    assert_eq!(i64_to_decimal(42), "42");
    assert_eq!(i64_to_decimal(1234567890), "1234567890");
    assert_eq!(i64_to_decimal(i64::MAX), "9223372036854775807");
}

#[test]
fn token_round_trip_preserves_claims() {
    let mut clock = SystemClock::new();
    let now = clock.now() as u64;
    let token = create_token(17, "alice", "admin", "s3cret", now).unwrap();
    let claims = verify_token(&token, "s3cret").unwrap();
    assert_eq!(claims.sub, "17");
    assert_eq!(claims.username, "alice");
    assert_eq!(claims.role, "admin");
    assert_eq!(claims.iat, now as usize);
    assert_eq!(claims.exp, (now + 3600) as usize);
}

#[test]
fn token_with_wrong_secret_is_rejected() {
    let mut clock = SystemClock::new();
    let now = clock.now() as u64;
    let token = create_token(1, "alice", "user", "right", now).unwrap();
    assert_eq!(verify_token(&token, "wrong").unwrap_err(), AuthError::Unauthorized);
}

#[test]
fn expired_token_is_rejected() {
    // Issued shortly after the epoch: its one-hour expiry is long past.
    let token = create_token(1, "alice", "user", "secret", 1000).unwrap();
    assert_eq!(verify_token(&token, "secret").unwrap_err(), AuthError::Unauthorized);
}

#[test]
fn garbage_token_is_rejected() {
    assert_eq!(verify_token("not-a-token", "secret").unwrap_err(), AuthError::Unauthorized);
}

#[test]
fn bearer_prefix_is_stripped_exactly() {
    assert_eq!(extract_bearer_token("Bearer abc.def.ghi").unwrap(), "abc.def.ghi");
    assert_eq!(extract_bearer_token("Bearer ").unwrap(), "");
    assert_eq!(extract_bearer_token("Basic abc").unwrap_err(), AuthError::Unauthorized);
    assert_eq!(extract_bearer_token("Bear").unwrap_err(), AuthError::Unauthorized);
    assert_eq!(extract_bearer_token("bearer abc").unwrap_err(), AuthError::Unauthorized);
}

#[test]
fn admin_check_goes_by_role_string() {
    let admin = JwtClaims {
        sub: "1".to_string(),
        username: "root".to_string(),
        role: "admin".to_string(),
        exp: 10,
        iat: 5,
    };
    let user = JwtClaims {
        sub: "2".to_string(),
        username: "alice".to_string(),
        role: "user".to_string(),
        exp: 10,
        iat: 5,
    };
    assert!(is_admin(&admin));
    assert!(!is_admin(&user));
}

#[test]
fn profile_copies_the_claims() {
    let claims = JwtClaims {
        sub: "9".to_string(),
        username: "carol".to_string(),
        role: "user".to_string(),
        exp: 10,
        iat: 5,
    };
    let p = get_profile(&claims);
    assert_eq!(p.user_id, "9");
    assert_eq!(p.username, "carol");
    assert_eq!(p.role, "user");
    assert!(!p.message.is_empty());
}

#[test]
fn timestamps_format_as_utc_datetimes() {
    assert_eq!(format_timestamp(0), "1970-01-01 00:00:00");
    assert_eq!(format_timestamp(1_700_000_000), "2023-11-14 22:13:20");
}

#[test]
fn system_clock_is_non_negative_and_monotonic() {
    let mut clock = SystemClock::new();
    let t1 = clock.now();
    let t2 = clock.now();
    assert!(t1 >= 0);
    assert!(t2 >= t1);
}
