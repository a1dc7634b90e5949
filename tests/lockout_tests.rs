use rust_admin::auth::{login_rejection, open_session, unknown_account};
use rust_admin::errors::ServiceError;
use rust_admin::auth::{attempt_login, check_password, hash_password, issue_token};
use rust_admin::lockout::{
    conclude_attempt, lock_remaining_minutes, refresh_counters, register_failure,
    register_success, LockoutPolicy, LockoutState, Verdict,
};

fn fresh() -> LockoutState {
    LockoutState {
        failed_login_attempts: 0,
        last_failed_login: None,
        locked_until: None,
        last_login: None,
    }
}

fn policy(max: u32) -> LockoutPolicy {
    LockoutPolicy { max_attempts: max, lockout_duration: 300, reset_attempts_after: 3600 }
}

#[test]
fn default_policy_values() {
    let p = LockoutPolicy::default_policy();
    assert_eq!(p.max_attempts, 5);
    assert_eq!(p.lockout_duration, 300);
    assert_eq!(p.reset_attempts_after, 3600);
}

#[test]
fn failure_below_threshold_adds_one_without_lock() {
    let mut s = fresh();
    s.failed_login_attempts = 2;
    s.last_failed_login = Some(1_000);
    let r = conclude_attempt(&s, 1_010, &policy(5), Some(false), true);
    assert_eq!(r.state.failed_login_attempts, 3);
    assert_eq!(r.state.locked_until, None);
    assert_eq!(r.state.last_failed_login, Some(1_010));
    assert_eq!(r.verdict, Verdict::WrongPassword { remaining_attempts: 2 });
}

#[test]
fn threshold_failure_locks_and_blocks_later_attempts() {
    let mut s = fresh();
    s.failed_login_attempts = 4;
    s.last_failed_login = Some(1_000);
    let r = conclude_attempt(&s, 1_100, &policy(5), Some(false), true);
    assert_eq!(r.state.locked_until, Some(1_400));
    assert_eq!(r.verdict, Verdict::LockedOut { lockout_minutes: 5 });
    for v in [Some(true), Some(false), None] {
        let again = conclude_attempt(&r.state, 1_399, &policy(5), v, true);
        assert_eq!(again.state, r.state);
        assert_eq!(again.verdict, Verdict::StillLocked { remaining_minutes: 1 });
    }
}

#[test]
fn remaining_minutes_round_up() {
    let mut s = fresh();
    s.locked_until = Some(1_000);
    assert_eq!(lock_remaining_minutes(&s, 1_000), None);
    assert_eq!(lock_remaining_minutes(&s, 999), Some(1));
    assert_eq!(lock_remaining_minutes(&s, 940), Some(1));
    assert_eq!(lock_remaining_minutes(&s, 939), Some(2));
    assert_eq!(lock_remaining_minutes(&s, 700), Some(5));
}

#[test]
fn expired_lock_restarts_counter() {
    let s = LockoutState {
        failed_login_attempts: 5,
        last_failed_login: Some(1_000),
        locked_until: Some(1_300),
        last_login: None,
    };
    let refreshed = refresh_counters(&s, 1_300, &policy(5));
    assert_eq!(refreshed.failed_login_attempts, 0);
    assert_eq!(refreshed.locked_until, None);
    let r = conclude_attempt(&s, 1_300, &policy(5), Some(false), true);
    assert_eq!(r.state.failed_login_attempts, 1);
    assert_eq!(r.verdict, Verdict::WrongPassword { remaining_attempts: 4 });
}

#[test]
fn stale_failures_decay() {
    let s = LockoutState {
        failed_login_attempts: 3,
        last_failed_login: Some(0),
        locked_until: None,
        last_login: None,
    };
    assert_eq!(refresh_counters(&s, 3_600, &policy(5)).failed_login_attempts, 3);
    assert_eq!(refresh_counters(&s, 3_601, &policy(5)).failed_login_attempts, 0);
}

#[test]
fn success_clears_lockout_fields() {
    let s = LockoutState {
        failed_login_attempts: 3,
        last_failed_login: Some(50),
        locked_until: None,
        last_login: Some(10),
    };
    let r = conclude_attempt(&s, 100, &policy(5), Some(true), true);
    assert_eq!(r.verdict, Verdict::Accepted);
    assert_eq!(r.state, register_success(100));
    assert_eq!(r.state.failed_login_attempts, 0);
    assert_eq!(r.state.last_failed_login, None);
    assert_eq!(r.state.locked_until, None);
    assert_eq!(r.state.last_login, Some(100));
}

#[test]
fn disabled_account_is_refused_with_right_password() {
    let r = conclude_attempt(&fresh(), 100, &policy(5), Some(true), false);
    assert_eq!(r.verdict, Verdict::Disabled);
    assert_eq!(r.state.failed_login_attempts, 0);
}

#[test]
fn verifier_failure_is_internal() {
    let mut s = fresh();
    s.failed_login_attempts = 1;
    s.last_failed_login = Some(90);
    let r = conclude_attempt(&s, 100, &policy(5), None, true);
    assert_eq!(r.verdict, Verdict::VerifierFailed);
    assert_eq!(r.state, s);
}

#[test]
fn register_failure_counts_and_locks() {
    let r = register_failure(&fresh(), 10, &policy(1));
    assert_eq!(r.state.failed_login_attempts, 1);
    assert_eq!(r.state.locked_until, Some(310));
    assert_eq!(r.verdict, Verdict::LockedOut { lockout_minutes: 5 });
}

#[test]
fn check_password_reads_bcrypt_hashes() {
    let hash = bcrypt::hash("correct horse", 4).unwrap();
    assert_eq!(check_password("correct horse", &hash), Some(true));
    assert_eq!(check_password("wrong", &hash), Some(false));
    assert_eq!(check_password("correct horse", "not a hash"), None);
}

#[test]
fn alice_locked_after_three_failures_then_recovers() {
    let hash = bcrypt::hash("alice-secret", 4).unwrap();
    let p = LockoutPolicy { max_attempts: 3, lockout_duration: 300, reset_attempts_after: 3600 };
    let mut s = fresh();
    let t0: i64 = 1_700_000_000;
    let r1 = attempt_login(&s, t0, &p, "wrong1", &hash, true);
    assert_eq!(r1.verdict, Verdict::WrongPassword { remaining_attempts: 2 });
    s = r1.state;
    let r2 = attempt_login(&s, t0 + 1, &p, "wrong2", &hash, true);
    assert_eq!(r2.verdict, Verdict::WrongPassword { remaining_attempts: 1 });
    s = r2.state;
    let r3 = attempt_login(&s, t0 + 2, &p, "wrong3", &hash, true);
    assert_eq!(r3.verdict, Verdict::LockedOut { lockout_minutes: 300 / 60 });
    s = r3.state;
    assert_eq!(s.locked_until, Some(t0 + 2 + 300));
    let r4 = attempt_login(&s, t0 + 3, &p, "alice-secret", &hash, true);
    assert!(matches!(r4.verdict, Verdict::StillLocked { .. }));
    assert_eq!(r4.state, s);
    let r5 = attempt_login(&s, t0 + 2 + 300, &p, "alice-secret", &hash, true);
    assert_eq!(r5.verdict, Verdict::Accepted);
    assert_eq!(r5.state.failed_login_attempts, 0);
    assert_eq!(r5.state.last_failed_login, None);
    assert_eq!(r5.state.locked_until, None);
    assert_eq!(r5.state.last_login, Some(t0 + 302));
}

#[test]
fn rejection_messages_carry_numbers() {
    assert_eq!(
        login_rejection(&Verdict::LockedOut { lockout_minutes: 5 }),
        Some(ServiceError::Authentication("登录失败次数过多，账户已被锁定 5 分钟".to_string()))
    );
    assert_eq!(
        login_rejection(&Verdict::StillLocked { remaining_minutes: 12 }),
        Some(ServiceError::Authentication("账户已被锁定，请在 12 分钟后重试".to_string()))
    );
    assert_eq!(
        login_rejection(&Verdict::WrongPassword { remaining_attempts: 2 }),
        Some(ServiceError::Authentication("用户名或密码错误，还有 2 次尝试机会".to_string()))
    );
    assert_eq!(
        login_rejection(&Verdict::Disabled),
        Some(ServiceError::Authentication("账户已被禁用".to_string()))
    );
    assert!(matches!(login_rejection(&Verdict::VerifierFailed), Some(ServiceError::Internal(_))));
    assert_eq!(login_rejection(&Verdict::Accepted), None);
    assert_eq!(unknown_account(), ServiceError::Authentication("用户名或密码错误".to_string()));
    let s1 = open_session(9, &Verdict::Accepted).unwrap();
    let s2 = open_session(9, &Verdict::Accepted).unwrap();
    assert_eq!(s1.user_id, 9);
    assert!(!s1.token.is_empty());
    assert_ne!(s1.token, s2.token);
    assert!(open_session(9, &Verdict::Disabled).is_err());
}

#[test]
fn new_password_hash_verifies() {
    let hash = hash_password("s3cret").unwrap();
    assert_ne!(hash, "s3cret");
    assert_eq!(check_password("s3cret", &hash), Some(true));
    assert_eq!(check_password("other", &hash), Some(false));
}

#[test]
fn tokens_are_uuid_texts() {
    let t = issue_token();
    assert_eq!(t.len(), 36);
    assert!(uuid::Uuid::parse_str(&t).is_ok());
    assert_ne!(t, issue_token());
}
