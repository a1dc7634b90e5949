//! The account lockout state machine: the per-user failure counter, the time
//! of the last failure and the end of a lockout, moved on every login attempt.
//! Times are whole seconds of the Unix epoch.
use vstd::prelude::*;

verus! {

/// Thresholds that govern lockout.
#[derive(Clone, Copy, Debug, PartialEq, Eq, Structural)]
pub struct LockoutPolicy {
    /// Consecutive failures that lock the account.
    pub max_attempts: u32,
    /// Seconds that a lockout lasts.
    pub lockout_duration: i64,
    /// Seconds without a failure after which the counter starts again from zero.
    pub reset_attempts_after: i64,
}

pub const DEFAULT_MAX_ATTEMPTS: u32 = 5;

pub const DEFAULT_LOCKOUT_DURATION: i64 = 300;

pub const DEFAULT_RESET_ATTEMPTS_AFTER: i64 = 3600;

impl LockoutPolicy {
    pub open spec fn wf(self) -> bool {
        &&& self.max_attempts >= 1
        &&& self.lockout_duration >= 0
        &&& self.reset_attempts_after >= 0
    }

    /// Five attempts, five minutes of lockout, one hour until failures decay.
    pub fn default_policy() -> (r: LockoutPolicy)
        ensures
            r.wf(),
            r.max_attempts == DEFAULT_MAX_ATTEMPTS,
            r.lockout_duration == DEFAULT_LOCKOUT_DURATION,
            r.reset_attempts_after == DEFAULT_RESET_ATTEMPTS_AFTER,
    {
        LockoutPolicy {
            max_attempts: DEFAULT_MAX_ATTEMPTS,
            lockout_duration: DEFAULT_LOCKOUT_DURATION,
            reset_attempts_after: DEFAULT_RESET_ATTEMPTS_AFTER,
        }
    }
}

/// The lockout fields of one account, always written together.
#[derive(Clone, Copy, Debug, PartialEq, Eq, Structural)]
pub struct LockoutState {
    pub failed_login_attempts: u32,
    pub last_failed_login: Option<i64>,
    pub locked_until: Option<i64>,
    pub last_login: Option<i64>,
}

/// How an attempt was answered.
#[derive(Clone, Copy, Debug, PartialEq, Eq, Structural)]
pub enum Verdict {
    /// The account is locked; the password was not looked at.
    StillLocked { remaining_minutes: i64 },
    /// This failure locked the account for the given minutes.
    LockedOut { lockout_minutes: i64 },
    /// Wrong password; this many attempts are left before a lockout.
    WrongPassword { remaining_attempts: u32 },
    /// The stored hash could not be checked: an internal failure, not a
    /// credential failure.
    VerifierFailed,
    /// The password was right but the account is disabled.
    Disabled,
    /// The password was right and the account is enabled.
    Accepted,
}

/// The state to persist after an attempt, and the verdict.
#[derive(Clone, Copy, Debug, PartialEq, Eq, Structural)]
pub struct AttemptResult {
    pub state: LockoutState,
    pub verdict: Verdict,
}

/// Whole minutes, rounded up, that cover `seconds`.
pub open spec fn ceil_minutes(seconds: int) -> int {
    (seconds + 59) / 60
}

pub open spec fn is_locked(s: LockoutState, now: i64) -> bool {
    s.locked_until is Some && now < s.locked_until->0
}

/// An expired lockout ends: the lock is cleared and the counter restarts.
pub open spec fn unlocked(s: LockoutState, now: i64) -> LockoutState {
    if s.locked_until is Some && now >= s.locked_until->0 {
        LockoutState {
            failed_login_attempts: 0,
            last_failed_login: s.last_failed_login,
            locked_until: None,
            last_login: s.last_login,
        }
    } else {
        s
    }
}

/// Failures older than the reset window no longer count.
pub open spec fn decayed(s: LockoutState, now: i64, p: LockoutPolicy) -> LockoutState {
    if s.last_failed_login is Some && now - s.last_failed_login->0 > p.reset_attempts_after {
        LockoutState {
            failed_login_attempts: 0,
            last_failed_login: s.last_failed_login,
            locked_until: s.locked_until,
            last_login: s.last_login,
        }
    } else {
        s
    }
}

/// The state on which an attempt at `now` is judged.
pub open spec fn refreshed(s: LockoutState, now: i64, p: LockoutPolicy) -> LockoutState {
    decayed(unlocked(s, now), now, p)
}

/// The counter after one more failure; it stops at its largest value.
pub open spec fn bumped(n: u32) -> u32 {
    if n < u32::MAX {
        (n + 1) as u32
    } else {
        n
    }
}

pub open spec fn after_failure(s: LockoutState, now: i64, p: LockoutPolicy) -> AttemptResult {
    let n = bumped(s.failed_login_attempts);
    if n >= p.max_attempts {
        AttemptResult {
            state: LockoutState {
                failed_login_attempts: n,
                last_failed_login: Some(now),
                locked_until: Some((now + p.lockout_duration) as i64),
                last_login: s.last_login,
            },
            verdict: Verdict::LockedOut { lockout_minutes: (p.lockout_duration / 60) as i64 },
        }
    } else {
        AttemptResult {
            state: LockoutState {
                failed_login_attempts: n,
                last_failed_login: Some(now),
                locked_until: s.locked_until,
                last_login: s.last_login,
            },
            verdict: Verdict::WrongPassword { remaining_attempts: (p.max_attempts - n) as u32 },
        }
    }
}

pub open spec fn after_success(now: i64) -> LockoutState {
    LockoutState {
        failed_login_attempts: 0,
        last_failed_login: None,
        locked_until: None,
        last_login: Some(now),
    }
}

/// One login attempt at `now`: `verification` is what checking the password
/// gave (`None` where the check itself failed) and `enabled` whether the
/// account may log in.
pub open spec fn attempt_outcome(
    s: LockoutState,
    now: i64,
    p: LockoutPolicy,
    verification: Option<bool>,
    enabled: bool,
) -> AttemptResult {
    if is_locked(s, now) {
        AttemptResult {
            state: s,
            verdict: Verdict::StillLocked {
                remaining_minutes: ceil_minutes(s.locked_until->0 - now) as i64,
            },
        }
    } else {
        let s1 = refreshed(s, now, p);
        match verification {
            None => AttemptResult { state: s1, verdict: Verdict::VerifierFailed },
            Some(false) => after_failure(s1, now, p),
            Some(true) => AttemptResult {
                state: after_success(now),
                verdict: if enabled {
                    Verdict::Accepted
                } else {
                    Verdict::Disabled
                },
            },
        }
    }
}

/// The precondition shared by the functions that may start a lockout.
pub open spec fn lockout_fits(now: i64, p: LockoutPolicy) -> bool {
    p.wf() && now + p.lockout_duration <= i64::MAX
}

/// Minutes, rounded up, until the lock ends, or `None` where the account is
/// not locked at `now`.
pub fn lock_remaining_minutes(s: &LockoutState, now: i64) -> (r: Option<i64>)
    ensures
        r is Some <==> is_locked(*s, now),
        r is Some ==> r->0 == ceil_minutes(s.locked_until->0 - now),
{
    match s.locked_until {
        Some(until) => {
            if now < until {
                let secs: i128 = until as i128 - now as i128;
                let m: i128 = (secs + 59) / 60;
                assert(m <= i64::MAX) by (nonlinear_arith)
                    requires
                        secs <= 0x1_0000_0000_0000_0000i128,
                        m == (secs + 59) / 60,
                        secs > 0,
                ;
                Some(m as i64)
            } else {
                None
            }
        },
        None => None,
    }
}

/// Steps taken before the password is looked at: an expired lock is cleared
/// with the counter, and stale failures are forgotten.
pub fn refresh_counters(s: &LockoutState, now: i64, p: &LockoutPolicy) -> (r: LockoutState)
    ensures
        r == refreshed(*s, now, *p),
{
    let mut cur = *s;
    if let Some(until) = cur.locked_until {
        if now >= until {
            cur.locked_until = None;
            cur.failed_login_attempts = 0;
        }
    }
    if let Some(last) = cur.last_failed_login {
        if (now as i128) - (last as i128) > p.reset_attempts_after as i128 {
            cur.failed_login_attempts = 0;
        }
    }
    cur
}

/// A wrong password: the counter grows, the failure time is kept, and the
/// account locks once the counter reaches the policy's threshold.
pub fn register_failure(s: &LockoutState, now: i64, p: &LockoutPolicy) -> (r: AttemptResult)
    requires
        lockout_fits(now, *p),
    ensures
        r == after_failure(*s, now, *p),
{
    let n: u32 = if s.failed_login_attempts < u32::MAX {
        s.failed_login_attempts + 1
    } else {
        s.failed_login_attempts
    };
    if n >= p.max_attempts {
        AttemptResult {
            state: LockoutState {
                failed_login_attempts: n,
                last_failed_login: Some(now),
                locked_until: Some(now + p.lockout_duration),
                last_login: s.last_login,
            },
            verdict: Verdict::LockedOut { lockout_minutes: p.lockout_duration / 60 },
        }
    } else {
        AttemptResult {
            state: LockoutState {
                failed_login_attempts: n,
                last_failed_login: Some(now),
                locked_until: s.locked_until,
                last_login: s.last_login,
            },
            verdict: Verdict::WrongPassword { remaining_attempts: p.max_attempts - n },
        }
    }
}

/// A right password clears every lockout field and records the login time.
pub fn register_success(now: i64) -> (r: LockoutState)
    ensures
        r == after_success(now),
{
    LockoutState {
        failed_login_attempts: 0,
        last_failed_login: None,
        locked_until: None,
        last_login: Some(now),
    }
}

/// Judges one attempt given what checking the password gave.
pub fn conclude_attempt(
    s: &LockoutState,
    now: i64,
    p: &LockoutPolicy,
    verification: Option<bool>,
    enabled: bool,
) -> (r: AttemptResult)
    requires
        lockout_fits(now, *p),
    ensures
        r == attempt_outcome(*s, now, *p, verification, enabled),
{
    if let Some(m) = lock_remaining_minutes(s, now) {
        return AttemptResult { state: *s, verdict: Verdict::StillLocked { remaining_minutes: m } };
    }
    let s1 = refresh_counters(s, now, p);
    match verification {
        None => AttemptResult { state: s1, verdict: Verdict::VerifierFailed },
        Some(false) => register_failure(&s1, now, p),
        Some(true) => AttemptResult {
            state: register_success(now),
            verdict: if enabled {
                Verdict::Accepted
            } else {
                Verdict::Disabled
            },
        },
    }
}

/// Below the threshold, one wrong password adds exactly one to the counter
/// that the attempt is judged on and sets no lock; where no expired lock and
/// no stale failure reset the counter first, that is the stored counter plus
/// one.
pub proof fn lemma_failure_below_threshold_counts_one(
    s: LockoutState,
    now: i64,
    p: LockoutPolicy,
    enabled: bool,
)
    requires
        s.failed_login_attempts + 1 < p.max_attempts,
        !is_locked(s, now),
    ensures
        ({
            let r = attempt_outcome(s, now, p, Some(false), enabled);
            &&& r.state.failed_login_attempts == refreshed(s, now, p).failed_login_attempts + 1
            &&& r.state.locked_until is None
            &&& refreshed(s, now, p) == s ==> r.state.failed_login_attempts
                == s.failed_login_attempts + 1
        }),
{
}

/// The failure that reaches the threshold within the reset window locks the
/// account until `now + lockout_duration`; every attempt before that time is
/// turned away whatever checking the password would give, and leaves the
/// state as it is.
pub proof fn lemma_threshold_failure_locks(
    s: LockoutState,
    now: i64,
    p: LockoutPolicy,
    enabled: bool,
    later: i64,
    verification: Option<bool>,
    enabled_later: bool,
)
    requires
        now + p.lockout_duration <= i64::MAX,
        s.failed_login_attempts + 1 == p.max_attempts,
        s.locked_until is None,
        s.last_failed_login is Some,
        now - s.last_failed_login->0 <= p.reset_attempts_after,
        now <= later < now + p.lockout_duration,
    ensures
        ({
            let r = attempt_outcome(s, now, p, Some(false), enabled);
            let again = attempt_outcome(r.state, later, p, verification, enabled_later);
            &&& r.state.locked_until == Some((now + p.lockout_duration) as i64)
            &&& r.verdict == (Verdict::LockedOut { lockout_minutes: (p.lockout_duration / 60) as i64 })
            &&& again.state == r.state
            &&& again.verdict == (Verdict::StillLocked {
                remaining_minutes: ceil_minutes(now + p.lockout_duration - later) as i64,
            })
        }),
{
}

/// Once a lock has expired, the next attempt is judged as if the counter were
/// zero and no lock were set, whatever the password.
pub proof fn lemma_expired_lock_restarts_counter(
    s: LockoutState,
    now: i64,
    p: LockoutPolicy,
    verification: Option<bool>,
    enabled: bool,
)
    requires
        s.locked_until is Some,
        now >= s.locked_until->0,
    ensures
        attempt_outcome(s, now, p, verification, enabled) == attempt_outcome(
            LockoutState {
                failed_login_attempts: 0,
                last_failed_login: s.last_failed_login,
                locked_until: None,
                last_login: s.last_login,
            },
            now,
            p,
            verification,
            enabled,
        ),
        refreshed(s, now, p).failed_login_attempts == 0,
        verification == Some(false) ==> attempt_outcome(
            s,
            now,
            p,
            verification,
            enabled,
        ).state.failed_login_attempts == 1,
{
}

/// A login that is accepted, and every attempt with the right password on an
/// account that is not locked, leaves the counter at zero and neither a
/// failure time nor a lock.
pub proof fn lemma_success_clears_lockout(
    s: LockoutState,
    now: i64,
    p: LockoutPolicy,
    verification: Option<bool>,
    enabled: bool,
)
    ensures
        ({
            let r = attempt_outcome(s, now, p, verification, enabled);
            (r.verdict == Verdict::Accepted || (verification == Some(true) && !is_locked(s, now)))
                ==> {
                &&& r.state.failed_login_attempts == 0
                &&& r.state.locked_until is None
                &&& r.state.last_failed_login is None
                &&& r.state.last_login == Some(now)
            }
        }),
{
}

/// A lock, where one is set, ends `lockout_duration` after the failure that
/// set it.
pub open spec fn lockout_consistent(s: LockoutState, p: LockoutPolicy) -> bool {
    s.locked_until is Some ==> s.last_failed_login is Some && s.locked_until->0
        == s.last_failed_login->0 + p.lockout_duration
}

/// Every attempt keeps a lock tied to the failure that set it.
pub proof fn lemma_attempt_keeps_lockout_consistent(
    s: LockoutState,
    now: i64,
    p: LockoutPolicy,
    verification: Option<bool>,
    enabled: bool,
)
    requires
        lockout_fits(now, p),
        lockout_consistent(s, p),
    ensures
        lockout_consistent(attempt_outcome(s, now, p, verification, enabled).state, p),
{
}

/// With three attempts allowed, three wrong passwords within the reset window
/// on a fresh account lock it for `lockout_duration / 60` minutes; an attempt
/// a second later is turned away whatever the password, and the right
/// password once the lock has run out is accepted and clears every lockout
/// field.
pub proof fn lemma_three_failures_lock_then_recover(
    p: LockoutPolicy,
    last_login: Option<i64>,
    t1: i64,
    t2: i64,
    t3: i64,
    later: Option<bool>,
)
    requires
        p.max_attempts == 3,
        p.lockout_duration > 1,
        t1 <= t2 <= t3,
        t3 - t1 <= p.reset_attempts_after,
        t3 + p.lockout_duration <= i64::MAX,
    ensures
        ({
            let s0 = LockoutState {
                failed_login_attempts: 0,
                last_failed_login: None,
                locked_until: None,
                last_login,
            };
            let r1 = attempt_outcome(s0, t1, p, Some(false), true);
            let r2 = attempt_outcome(r1.state, t2, p, Some(false), true);
            let r3 = attempt_outcome(r2.state, t3, p, Some(false), true);
            let until = (t3 + p.lockout_duration) as i64;
            let r4 = attempt_outcome(r3.state, (t3 + 1) as i64, p, later, true);
            let r5 = attempt_outcome(r3.state, until, p, Some(true), true);
            &&& r1.verdict == (Verdict::WrongPassword { remaining_attempts: 2 })
            &&& r2.verdict == (Verdict::WrongPassword { remaining_attempts: 1 })
            &&& r3.verdict == (Verdict::LockedOut { lockout_minutes: (p.lockout_duration / 60) as i64 })
            &&& r3.state.failed_login_attempts == 3
            &&& r3.state.locked_until == Some(until)
            &&& r4.state == r3.state
            &&& r4.verdict is StillLocked
            &&& r5.verdict == Verdict::Accepted
            &&& r5.state == after_success(until)
        }),
{
}

} // verus!
