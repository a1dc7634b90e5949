//! Authentication: the password check that feeds the lockout state machine,
//! password hashing for new accounts, and session tokens.
use vstd::prelude::*;
use crate::errors::ServiceError;
use crate::ids::parses_as_uuid;
use crate::numbers::{decimal_text, i64_text};
use crate::lockout::{
    attempt_outcome, conclude_attempt, lock_remaining_minutes, lockout_fits, AttemptResult,
    LockoutPolicy, LockoutState, Verdict,
};

verus! {

#[verifier::external_type_specification]
#[verifier::external_body]
pub struct ExBcryptError(bcrypt::BcryptError);

/// What `bcrypt::verify` gives for a password and a stored hash: whether the
/// password matches, or `None` where the hash cannot be read.
pub uninterp spec fn bcrypt_verdict(password: Seq<char>, hash: Seq<char>) -> Option<bool>;

/// Relies on `bcrypt::verify`: the verdict depends on the password and the
/// stored hash (which carries its own salt and cost) alone.
#[verifier::external_body]
fn bcrypt_verify(password: &str, hash: &str) -> (r: Result<bool, bcrypt::BcryptError>)
    ensures
        r is Ok <==> bcrypt_verdict(password@, hash@) is Some,
        r is Ok ==> bcrypt_verdict(password@, hash@) == Some(r->Ok_0),
{
    bcrypt::verify(password, hash)
}

/// Relies on `bcrypt::hash` with `bcrypt::DEFAULT_COST`: a salted hash drawn
/// with fresh randomness, or an error. The text it writes carries its salt
/// and cost, so `bcrypt::verify` recomputes it from the same password.
#[verifier::external_body]
fn bcrypt_hash(password: &str) -> (r: Result<String, bcrypt::BcryptError>)
    ensures
        r is Ok ==> bcrypt_verdict(password@, r->Ok_0@) == Some(true),
{
    bcrypt::hash(password, bcrypt::DEFAULT_COST)
}

/// Relies on `uuid::Uuid::new_v4` and its `Display`: a random identifier in
/// the hyphenated form, 36 characters that `Uuid::parse_str` reads back.
#[verifier::external_body]
pub(crate) fn random_uuid_text() -> (r: String)
    ensures
        parses_as_uuid(r@),
        r@.len() == 36,
{
    uuid::Uuid::new_v4().to_string()
}

/// Checks a password against a stored hash; `None` where the hash cannot be
/// read.
pub fn check_password(password: &str, password_hash: &str) -> (r: Option<bool>)
    ensures
        r == bcrypt_verdict(password@, password_hash@),
{
    match bcrypt_verify(password, password_hash) {
        Ok(ok) => Some(ok),
        Err(_) => None,
    }
}

/// Hashes a new password; `None` where hashing failed.
pub fn hash_password(password: &str) -> (r: Option<String>)
    ensures
        r is Some ==> bcrypt_verdict(password@, r->0@) == Some(true),
{
    match bcrypt_hash(password) {
        Ok(h) => Some(h),
        Err(_) => None,
    }
}

/// An opaque, unguessable session token: a random UUID text.
pub fn issue_token() -> (r: String)
    ensures
        parses_as_uuid(r@),
        r@.len() == 36,
{
    random_uuid_text()
}

/// One login attempt on an account: a locked account is turned away before
/// the password is looked at; otherwise the password is checked against the
/// stored hash and the lockout state moves on.
pub fn attempt_login(
    state: &LockoutState,
    now: i64,
    policy: &LockoutPolicy,
    password: &str,
    password_hash: &str,
    enabled: bool,
) -> (r: AttemptResult)
    requires
        lockout_fits(now, *policy),
    ensures
        r == attempt_outcome(
            *state,
            now,
            *policy,
            bcrypt_verdict(password@, password_hash@),
            enabled,
        ),
{
    if let Some(m) = lock_remaining_minutes(state, now) {
        return AttemptResult { state: *state, verdict: Verdict::StillLocked { remaining_minutes: m } };
    }
    let verification = check_password(password, password_hash);
    conclude_attempt(state, now, policy, verification, enabled)
}

fn framed(prefix: &str, n: i64, suffix: &str) -> (r: String)
    ensures
        r@ == prefix@ + decimal_text(n as int) + suffix@,
{
    let mut r = prefix.to_string();
    let digits = i64_text(n);
    r.append(digits.as_str());
    r.append(suffix);
    r
}

/// The answer to a login naming no known account: it does not tell whether
/// the username or the password was wrong.
pub fn unknown_account() -> (r: ServiceError)
    ensures
        r matches ServiceError::Authentication(m) && m@ == "用户名或密码错误"@,
{
    ServiceError::Authentication("用户名或密码错误".to_string())
}

/// The error that a rejecting verdict is reported as.
pub open spec fn is_rejection(verdict: Verdict, e: ServiceError) -> bool {
    match verdict {
        Verdict::StillLocked { remaining_minutes } => e matches ServiceError::Authentication(m)
            && m@ == "账户已被锁定，请在 "@ + decimal_text(remaining_minutes as int) + " 分钟后重试"@,
        Verdict::LockedOut { lockout_minutes } => e matches ServiceError::Authentication(m) && m@
            == "登录失败次数过多，账户已被锁定 "@ + decimal_text(lockout_minutes as int) + " 分钟"@,
        Verdict::WrongPassword { remaining_attempts } => e matches ServiceError::Authentication(m)
            && m@ == "用户名或密码错误，还有 "@ + decimal_text(remaining_attempts as int)
            + " 次尝试机会"@,
        Verdict::VerifierFailed => e is Internal,
        Verdict::Disabled => e matches ServiceError::Authentication(m) && m@ == "账户已被禁用"@,
        Verdict::Accepted => true,
    }
}

/// The error that a verdict other than `Accepted` is reported as.
pub fn login_rejection(verdict: &Verdict) -> (r: Option<ServiceError>)
    ensures
        r is None <==> *verdict == Verdict::Accepted,
        r is Some ==> is_rejection(*verdict, r->0),
{
    match *verdict {
        Verdict::StillLocked { remaining_minutes } => Some(
            ServiceError::Authentication(framed("账户已被锁定，请在 ", remaining_minutes, " 分钟后重试")),
        ),
        Verdict::LockedOut { lockout_minutes } => Some(
            ServiceError::Authentication(framed("登录失败次数过多，账户已被锁定 ", lockout_minutes, " 分钟")),
        ),
        Verdict::WrongPassword { remaining_attempts } => Some(
            ServiceError::Authentication(
                framed("用户名或密码错误，还有 ", remaining_attempts as i64, " 次尝试机会"),
            ),
        ),
        Verdict::VerifierFailed => Some(ServiceError::Internal("password check failed".to_string())),
        Verdict::Disabled => Some(ServiceError::Authentication("账户已被禁用".to_string())),
        Verdict::Accepted => None,
    }
}

/// An opened session: an opaque token bound to the account.
#[derive(Debug, Clone)]
pub struct Session {
    pub token: String,
    pub user_id: i64,
}

/// A session for an accepted attempt, or the error that the verdict is
/// reported as; no token is issued for any other verdict.
pub fn open_session(user_id: i64, verdict: &Verdict) -> (r: Result<Session, ServiceError>)
    ensures
        r is Ok <==> *verdict == Verdict::Accepted,
        r is Ok ==> r->Ok_0.user_id == user_id && parses_as_uuid(r->Ok_0.token@)
            && r->Ok_0.token@.len() == 36,
        r is Err ==> is_rejection(*verdict, r->Err_0),
{
    match login_rejection(verdict) {
        None => Ok(Session { token: issue_token(), user_id }),
        Some(e) => Err(e),
    }
}

} // verus!
