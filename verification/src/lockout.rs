//! The account lockout state machine.
//!
//! A credential is either active or locked. Failed sign-in attempts are
//! counted; the attempt that brings the count to
//! [`AccountLock::MAX_FAILED_ATTEMPTS`] locks the credential. A locked
//! credential unlocks by itself once [`LOCK_WINDOW_SECONDS`] have passed
//! since the last recorded attempt, or at once when an administrator
//! unlocks it. Times are Unix timestamps in seconds.

use vstd::prelude::*;

use crate::constants::AccountLock;

verus! {

/// Length of the lock window in seconds.
pub const LOCK_WINDOW_SECONDS: i64 = AccountLock::AUTO_UNLOCK_MINUTES * 60;

/// The lockout fields of a credential record.
#[derive(Clone, Copy, Debug, PartialEq, Eq, Structural)]
pub struct LockoutState {
    /// Failed attempts since the last reset.
    pub failure_count: i32,
    /// The stored lock flag.
    pub locked: bool,
    /// When the last attempt was recorded, if one ever was.
    pub last_attempt_at: Option<i64>,
}

impl LockoutState {
    /// The invariant that every transition keeps: the count is never
    /// negative, and a set lock flag means the threshold was reached.
    pub open spec fn wf(self) -> bool {
        &&& self.failure_count >= 0
        &&& self.locked ==> self.failure_count >= AccountLock::MAX_FAILED_ATTEMPTS
    }

    /// The state of a credential that was just created.
    pub open spec fn fresh() -> LockoutState {
        LockoutState { failure_count: 0, locked: false, last_attempt_at: None }
    }

    /// The lock flag counts only together with a count at the threshold.
    pub open spec fn lock_engaged(self) -> bool {
        self.locked && self.failure_count >= AccountLock::MAX_FAILED_ATTEMPTS
    }

    /// The first instant at which the lock has expired. `None` when no
    /// attempt time is known: such a lock never expires by itself.
    pub open spec fn unlock_deadline(self) -> Option<int> {
        match self.last_attempt_at {
            Some(t) => Some(t + LOCK_WINDOW_SECONDS),
            None => None,
        }
    }

    /// Whether a sign-in attempt at `now` is refused.
    pub open spec fn spec_is_locked(self, now: int) -> bool {
        self.lock_engaged() && match self.unlock_deadline() {
            Some(deadline) => now < deadline,
            None => true,
        }
    }

    /// Seconds left until the lock expires, where the lock flag is set, an
    /// attempt time is known and the deadline lies ahead of `now`.
    pub open spec fn spec_remaining_seconds(self, now: int) -> Option<int> {
        match self.unlock_deadline() {
            Some(deadline) if self.locked && now < deadline => Some(deadline - now),
            _ => None,
        }
    }

    /// Whole minutes of `seconds`, but never less than one.
    pub open spec fn minutes_hint(seconds: int) -> int {
        if seconds / 60 < 1 {
            1
        } else {
            seconds / 60
        }
    }

    /// The remaining time as reported to a caller: whole minutes, at least 1.
    pub open spec fn spec_remaining_minutes(self, now: int) -> Option<int> {
        match self.spec_remaining_seconds(now) {
            Some(s) => Some(Self::minutes_hint(s)),
            None => None,
        }
    }

    /// The remaining minutes as a machine number. They always fit: see
    /// [`lemma_minutes_fit`].
    pub open spec fn reported_minutes(self, now: int) -> Option<i64> {
        match self.spec_remaining_minutes(now) {
            Some(m) => Some(m as i64),
            None => None,
        }
    }

    /// The state after one more failed attempt at `now`.
    pub open spec fn after_failure(self, now: i64) -> LockoutState {
        LockoutState {
            failure_count: (self.failure_count + 1) as i32,
            locked: self.failure_count + 1 >= AccountLock::MAX_FAILED_ATTEMPTS,
            last_attempt_at: Some(now),
        }
    }

    /// The state after a successful sign-in at `now`: the counters are
    /// cleared and the time of the sign-in is stamped.
    pub open spec fn after_login(self, now: i64) -> LockoutState {
        LockoutState { failure_count: 0, locked: false, last_attempt_at: Some(now) }
    }

    /// The state after the counters are cleared.
    pub open spec fn after_reset(self) -> LockoutState {
        LockoutState { failure_count: 0, locked: false, last_attempt_at: self.last_attempt_at }
    }

    /// Whether the lock is engaged and its window has run out at `now`.
    pub open spec fn expired_at(self, now: int) -> bool {
        self.lock_engaged() && match self.unlock_deadline() {
            Some(deadline) => now >= deadline,
            None => false,
        }
    }

    /// The state after the lock was looked at, at `now`: an expired lock is
    /// cleared, every other state stays as it is.
    pub open spec fn after_check(self, now: int) -> LockoutState {
        if self.expired_at(now) {
            self.after_reset()
        } else {
            self
        }
    }

    /// The state after `times.len()` failed attempts in a row, made at the
    /// given times.
    pub open spec fn after_failures(self, times: Seq<i64>) -> LockoutState
        decreases times.len(),
    {
        if times.len() == 0 {
            self
        } else {
            self.after_failures(times.drop_last()).after_failure(times.last())
        }
    }

    /// The lockout fields of a new credential: no failures, not locked.
    pub fn new() -> (s: LockoutState)
        ensures
            s == Self::fresh(),
            s.wf(),
    {
        LockoutState { failure_count: 0, locked: false, last_attempt_at: None }
    }

    /// Whether a sign-in attempt at `now` must be refused. Reads only.
    pub fn is_locked(&self, now: i64) -> (r: bool)
        ensures
            r == self.spec_is_locked(now as int),
    {
        if self.locked && self.failure_count >= AccountLock::MAX_FAILED_ATTEMPTS {
            match self.last_attempt_at {
                Some(t) => (now as i128) < (t as i128) + (LOCK_WINDOW_SECONDS as i128),
                None => true,
            }
        } else {
            false
        }
    }

    /// The instant from which the lock no longer holds, for a lock that is
    /// engaged and has a time to count from: the same state, told as a
    /// deadline instead of a flag.
    pub open spec fn spec_locked_until(self) -> Option<int> {
        if self.lock_engaged() {
            self.unlock_deadline()
        } else {
            None
        }
    }

    /// The deadline of an engaged lock: see
    /// [`LockoutState::spec_locked_until`]. A sign-in at `now` is refused by
    /// such a lock exactly while `now` lies before the deadline.
    pub fn locked_until(&self) -> (r: Option<i128>)
        ensures
            match r {
                Some(t) => self.spec_locked_until() == Some(t as int),
                None => self.spec_locked_until() is None,
            },
            forall|now: int|
                r matches Some(t) ==> (#[trigger] self.spec_is_locked(now) <==> now < t),
    {
        if self.locked && self.failure_count >= AccountLock::MAX_FAILED_ATTEMPTS {
            match self.last_attempt_at {
                Some(t) => Some((t as i128) + (LOCK_WINDOW_SECONDS as i128)),
                None => None,
            }
        } else {
            None
        }
    }

    /// Seconds until the lock expires; `None` when the flag is not set, no
    /// attempt time is known or the window has run out. The result is wide
    /// enough for the distance between any two timestamps.
    pub fn remaining_seconds(&self, now: i64) -> (r: Option<i128>)
        ensures
            match r {
                Some(s) => self.spec_remaining_seconds(now as int) == Some(s as int),
                None => self.spec_remaining_seconds(now as int) is None,
            },
    {
        match self.last_attempt_at {
            Some(t) => {
                let deadline: i128 = (t as i128) + (LOCK_WINDOW_SECONDS as i128);
                if self.locked && (now as i128) < deadline {
                    Some(deadline - (now as i128))
                } else {
                    None
                }
            },
            None => None,
        }
    }

    /// The remaining time in whole minutes, reported as at least one minute
    /// even when less than a minute is left.
    pub fn remaining_minutes(&self, now: i64) -> (r: Option<i64>)
        ensures
            match r {
                Some(m) => self.spec_remaining_minutes(now as int) == Some(m as int),
                None => self.spec_remaining_minutes(now as int) is None,
            },
            r matches Some(m) ==> m >= 1,
            r == self.reported_minutes(now as int),
    {
        proof {
            lemma_minutes_fit(*self, now);
        }
        match self.remaining_seconds(now) {
            Some(s) => {
                let minutes: i128 = s / 60;
                if minutes < 1 {
                    Some(1)
                } else {
                    Some(minutes as i64)
                }
            },
            None => None,
        }
    }

    /// Records a failed attempt made at `now`: the count goes up by one, the
    /// attempt time is stamped, and the lock flag is set exactly when the new
    /// count has reached the threshold.
    pub fn record_failure(&mut self, now: i64)
        requires
            old(self).failure_count < i32::MAX,
        ensures
            *final(self) == old(self).after_failure(now),
            old(self).failure_count >= 0 ==> final(self).wf(),
    {
        let count: i32 = self.failure_count + 1;
        self.failure_count = count;
        self.last_attempt_at = Some(now);
        self.locked = count >= AccountLock::MAX_FAILED_ATTEMPTS;
    }

    /// Records a successful attempt: the count returns to zero and the
    /// credential is active.
    pub fn record_success(&mut self)
        ensures
            *final(self) == old(self).after_reset(),
            final(self).wf(),
    {
        self.failure_count = 0;
        self.locked = false;
    }

    /// Records a successful sign-in at `now`: clears the counters and stamps
    /// the time.
    pub fn record_login(&mut self, now: i64)
        ensures
            *final(self) == old(self).after_login(now),
            final(self).wf(),
    {
        self.failure_count = 0;
        self.locked = false;
        self.last_attempt_at = Some(now);
    }

    /// An administrator's unlock: clears the count and the flag whatever the
    /// state and the time. Doing it twice changes nothing more.
    pub fn admin_unlock(&mut self)
        ensures
            *final(self) == old(self).after_reset(),
            final(self).wf(),
            !final(self).locked,
            final(self).failure_count == 0,
    {
        self.failure_count = 0;
        self.locked = false;
    }

    /// Looks at the lock before an attempt at `now`. A lock whose window has
    /// run out is cleared and the attempt may go on; a lock that still holds
    /// is reported and the state stays untouched.
    pub fn check(&mut self, now: i64) -> (locked: bool)
        ensures
            locked == old(self).spec_is_locked(now as int),
            *final(self) == old(self).after_check(now as int),
            locked ==> *final(self) == *old(self),
            old(self).wf() ==> final(self).wf(),
    {
        if self.locked && self.failure_count >= AccountLock::MAX_FAILED_ATTEMPTS {
            match self.last_attempt_at {
                Some(t) => {
                    if (now as i128) >= (t as i128) + (LOCK_WINDOW_SECONDS as i128) {
                        self.record_success();
                        false
                    } else {
                        true
                    }
                },
                None => true,
            }
        } else {
            false
        }
    }
}

/// What an administrator is shown of a credential's lock.
#[derive(Clone, Copy, Debug, PartialEq, Eq, Structural)]
pub struct LockStatus {
    pub is_locked: bool,
    pub failed_attempts: i32,
    pub remaining_minutes: Option<i64>,
    pub auto_unlock: bool,
}

impl LockStatus {
    /// The report for a state at `now`: the stored flag and count, the
    /// minutes left where the flag is set and a deadline lies ahead, and
    /// whether the lock will expire by itself.
    pub open spec fn spec_of(state: LockoutState, now: int) -> LockStatus {
        let minutes = if state.locked {
            state.spec_remaining_minutes(now)
        } else {
            None
        };
        LockStatus {
            is_locked: state.locked,
            failed_attempts: state.failure_count,
            remaining_minutes: if state.locked {
                state.reported_minutes(now)
            } else {
                None
            },
            auto_unlock: state.locked && minutes is Some,
        }
    }

    pub fn of(state: &LockoutState, now: i64) -> (r: LockStatus)
        ensures
            r == Self::spec_of(*state, now as int),
    {
        let remaining_minutes = if state.locked {
            state.remaining_minutes(now)
        } else {
            None
        };
        LockStatus {
            is_locked: state.locked,
            failed_attempts: state.failure_count,
            remaining_minutes,
            auto_unlock: state.locked && remaining_minutes.is_some(),
        }
    }
}

/// The minutes left on any lock, seen from any instant, fit a 64-bit number.
pub proof fn lemma_minutes_fit(state: LockoutState, now: i64)
    ensures
        state.spec_remaining_minutes(now as int) matches Some(m) ==> 1 <= m <= i64::MAX,
{
}

/// A run of failed attempts on a fresh credential counts each attempt, as
/// long as the count fits its type.
pub proof fn lemma_failures_are_counted(times: Seq<i64>)
    requires
        times.len() <= i32::MAX,
    ensures
        LockoutState::fresh().after_failures(times).failure_count == times.len(),
        LockoutState::fresh().after_failures(times).locked <==> times.len()
            >= AccountLock::MAX_FAILED_ATTEMPTS,
        LockoutState::fresh().after_failures(times).wf(),
    decreases times.len(),
{
    if times.len() > 0 {
        lemma_failures_are_counted(times.drop_last());
    }
}

/// On a fresh credential, exactly the threshold number of failed attempts in
/// a row locks it: one attempt fewer leaves it open to a further attempt at
/// any time, and the attempt that reaches the threshold locks it from that
/// attempt on, for the length of the window.
pub proof fn law_threshold_locks(times: Seq<i64>, now: i64)
    ensures
        times.len() == AccountLock::MAX_FAILED_ATTEMPTS - 1 ==> !LockoutState::fresh().after_failures(
            times,
        ).spec_is_locked(now as int),
        times.len() == AccountLock::MAX_FAILED_ATTEMPTS ==> {
            let locked = LockoutState::fresh().after_failures(times);
            &&& locked.locked
            &&& locked.failure_count == AccountLock::MAX_FAILED_ATTEMPTS
            &&& locked.spec_is_locked(now as int) <==> now < times.last() + LOCK_WINDOW_SECONDS
        },
{
    if times.len() <= AccountLock::MAX_FAILED_ATTEMPTS {
        lemma_failures_are_counted(times);
    }
}

/// While a lock holds, looking at it changes nothing; from the end of the
/// window on, looking at it clears the count and the flag, and the
/// credential is open again.
pub proof fn law_lock_window(state: LockoutState, now: i64)
    requires
        state.lock_engaged(),
        state.last_attempt_at is Some,
    ensures
        now < state.last_attempt_at.unwrap() + LOCK_WINDOW_SECONDS ==> {
            &&& state.spec_is_locked(now as int)
            &&& state.after_check(now as int) == state
        },
        now >= state.last_attempt_at.unwrap() + LOCK_WINDOW_SECONDS ==> {
            &&& !state.spec_is_locked(now as int)
            &&& state.after_check(now as int).failure_count == 0
            &&& !state.after_check(now as int).locked
            &&& !state.after_check(now as int).spec_is_locked(now as int)
        },
{
}

/// An administrator's unlock opens the credential at every instant, and a
/// second unlock leaves the state as the first one made it.
pub proof fn law_admin_unlock(state: LockoutState, now: i64)
    ensures
        !state.after_reset().spec_is_locked(now as int),
        state.after_reset().after_reset() == state.after_reset(),
        state.after_reset().wf(),
{
}

} // verus!
