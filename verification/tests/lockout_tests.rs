use venomous_dashboard_auth::lockout::{LockStatus, LockoutState, LOCK_WINDOW_SECONDS};
use venomous_dashboard_auth::AccountLock;

fn locked_at(t: i64) -> LockoutState {
    let mut state = LockoutState::new();
    for _ in 0..AccountLock::MAX_FAILED_ATTEMPTS {
        state.record_failure(t);
    }
    state
}

#[test]
fn window_is_thirty_minutes() {
    assert_eq!(AccountLock::MAX_FAILED_ATTEMPTS, 5);
    assert_eq!(AccountLock::AUTO_UNLOCK_MINUTES, 30);
    assert_eq!(LOCK_WINDOW_SECONDS, 1800);
}

#[test]
fn new_state_is_zeroed() {
    let state = LockoutState::new();
    assert_eq!(
        state,
        LockoutState { failure_count: 0, locked: false, last_attempt_at: None }
    );
    assert!(!state.is_locked(0));
    assert_eq!(state.remaining_seconds(0), None);
    assert_eq!(state.remaining_minutes(0), None);
}

#[test]
fn fourth_failure_leaves_account_open() {
    let mut state = LockoutState::new();
    for i in 0..4 {
        state.record_failure(1000 + i);
    }
    assert_eq!(
        state,
        LockoutState { failure_count: 4, locked: false, last_attempt_at: Some(1003) }
    );
    assert!(!state.is_locked(1003));
    assert!(!state.check(1003));
}

#[test]
fn fifth_failure_locks() {
    let mut state = LockoutState::new();
    for i in 0..5 {
        state.record_failure(1000 + i);
    }
    assert_eq!(
        state,
        LockoutState { failure_count: 5, locked: true, last_attempt_at: Some(1004) }
    );
    assert!(state.is_locked(1004));
    assert!(state.is_locked(1004 + 1799));
    assert!(!state.is_locked(1004 + 1800));
}

#[test]
fn check_within_window_changes_nothing() {
    let mut state = locked_at(5000);
    let before = state;
    assert!(state.check(5000 + 1799));
    assert_eq!(state, before);
    assert_eq!(state.failure_count, 5);
}

#[test]
fn check_at_deadline_unlocks() {
    let mut state = locked_at(5000);
    assert!(!state.check(5000 + 1800));
    assert_eq!(
        state,
        LockoutState { failure_count: 0, locked: false, last_attempt_at: Some(5000) }
    );
}

#[test]
fn remaining_time_counts_down() {
    let state = locked_at(10_000);
    assert_eq!(state.remaining_seconds(10_000), Some(1800));
    assert_eq!(state.remaining_minutes(10_000), Some(30));
    assert_eq!(state.remaining_seconds(10_001), Some(1799));
    assert_eq!(state.remaining_minutes(10_001), Some(29));
    assert_eq!(state.remaining_seconds(11_740), Some(60));
    assert_eq!(state.remaining_minutes(11_740), Some(1));
    assert_eq!(state.remaining_seconds(11_799), Some(1));
    assert_eq!(state.remaining_minutes(11_799), Some(1));
    assert_eq!(state.remaining_seconds(11_800), None);
    assert_eq!(state.remaining_minutes(11_800), None);
}

#[test]
fn remaining_time_at_extreme_timestamps() {
    let state = LockoutState { failure_count: 5, locked: true, last_attempt_at: Some(i64::MAX) };
    assert!(state.is_locked(i64::MAX));
    assert_eq!(
        state.remaining_seconds(i64::MIN),
        Some((i64::MAX as i128) + 1800 - (i64::MIN as i128))
    );
    assert_eq!(
        state.remaining_minutes(i64::MIN),
        Some((((i64::MAX as i128) + 1800 - (i64::MIN as i128)) / 60) as i64)
    );
}

#[test]
fn lock_without_time_never_expires() {
    let mut state = LockoutState { failure_count: 5, locked: true, last_attempt_at: None };
    assert!(state.is_locked(0));
    assert!(state.is_locked(i64::MAX));
    assert_eq!(state.remaining_minutes(0), None);
    assert!(state.check(i64::MAX));
    assert_eq!(state.failure_count, 5);
}

#[test]
fn flag_below_threshold_does_not_lock() {
    let state = LockoutState { failure_count: 3, locked: true, last_attempt_at: Some(100) };
    assert!(!state.is_locked(100));
    assert_eq!(state.remaining_seconds(100), Some(1800));
}

#[test]
fn success_resets_count() {
    let mut state = LockoutState::new();
    state.record_failure(10);
    state.record_failure(20);
    state.record_success();
    assert_eq!(
        state,
        LockoutState { failure_count: 0, locked: false, last_attempt_at: Some(20) }
    );
    state.record_failure(30);
    state.record_login(40);
    assert_eq!(
        state,
        LockoutState { failure_count: 0, locked: false, last_attempt_at: Some(40) }
    );
}

#[test]
fn admin_unlock_is_idempotent() {
    let mut state = locked_at(777);
    state.admin_unlock();
    let once = state;
    assert_eq!(once, LockoutState { failure_count: 0, locked: false, last_attempt_at: Some(777) });
    assert!(!state.is_locked(777));
    state.admin_unlock();
    assert_eq!(state, once);

    let mut open = LockoutState::new();
    open.admin_unlock();
    assert_eq!(open, LockoutState::new());
}

#[test]
fn failures_past_threshold_keep_lock() {
    let mut state = locked_at(100);
    state.record_failure(200);
    assert_eq!(
        state,
        LockoutState { failure_count: 6, locked: true, last_attempt_at: Some(200) }
    );
    assert!(state.is_locked(1900 + 99));
    assert!(!state.is_locked(2000));
}

#[test]
fn lock_status_report() {
    let state = locked_at(1000);
    assert_eq!(
        LockStatus::of(&state, 1000 + 90),
        LockStatus {
            is_locked: true,
            failed_attempts: 5,
            remaining_minutes: Some(28),
            auto_unlock: true
        }
    );
    assert_eq!(
        LockStatus::of(&state, 1000 + 1800),
        LockStatus { is_locked: true, failed_attempts: 5, remaining_minutes: None, auto_unlock: false }
    );
    let mut open = LockoutState::new();
    open.record_failure(5);
    assert_eq!(
        LockStatus::of(&open, 6),
        LockStatus { is_locked: false, failed_attempts: 1, remaining_minutes: None, auto_unlock: false }
    );
}

#[test]
fn lock_as_deadline() {
    assert_eq!(LockoutState::new().locked_until(), None);
    assert_eq!(locked_at(1000).locked_until(), Some(2800));
    let flagged = LockoutState { failure_count: 4, locked: true, last_attempt_at: Some(1000) };
    assert_eq!(flagged.locked_until(), None);
    let timeless = LockoutState { failure_count: 5, locked: true, last_attempt_at: None };
    assert_eq!(timeless.locked_until(), None);
    let late = LockoutState { failure_count: 5, locked: true, last_attempt_at: Some(i64::MAX) };
    assert_eq!(late.locked_until(), Some(i64::MAX as i128 + 1800));
}
