//! The user service's login decision: a password checked against its
//! stored bcrypt hash, and the lifetime of the token it then issues.

use vstd::prelude::*;
use vstd::string::*;

verus! {

/// bcrypt's verdict on a password and a stored hash: whether they match,
/// or `None` when the hash cannot be read.
pub uninterp spec fn bcrypt_verdict(password: Seq<char>, hash: Seq<char>) -> Option<bool>;

/// Relies on `bcrypt::verify`: whether the password matches the hash, or an
/// error for a hash it cannot read; the verdict depends on the two strings
/// alone.
#[verifier::external_body]
fn bcrypt_matches(password: &str, hash: &str) -> (verdict: Option<bool>)
    ensures
        verdict == bcrypt_verdict(password@, hash@),
{
    bcrypt::verify(password, hash).ok()
}

/// Why a login was refused.
#[derive(PartialEq, Eq, Structural, Debug)]
pub enum LoginError {
    /// The stored hash could not be checked.
    VerificationFailed,
    /// The password does not match.
    InvalidCredentials,
}

/// The text that goes with a refusal.
pub open spec fn login_reason_of(e: LoginError) -> Seq<char> {
    match e {
        LoginError::VerificationFailed => "Password verification failed"@,
        LoginError::InvalidCredentials => "Invalid credentials"@,
    }
}

impl LoginError {
    /// The refusal's text.
    pub fn reason(&self) -> (text: String)
        ensures
            text@ == login_reason_of(*self),
    {
        match self {
            LoginError::VerificationFailed => String::from_str("Password verification failed"),
            LoginError::InvalidCredentials => String::from_str("Invalid credentials"),
        }
    }
}

/// The login outcome for a verdict.
pub open spec fn credentials_outcome(verdict: Option<bool>) -> Result<(), LoginError> {
    match verdict {
        None => Err(LoginError::VerificationFailed),
        Some(false) => Err(LoginError::InvalidCredentials),
        Some(true) => Ok(()),
    }
}

/// Decides a login from bcrypt's verdict.
pub fn decide_credentials(verdict: Option<bool>) -> (outcome: Result<(), LoginError>)
    ensures
        outcome == credentials_outcome(verdict),
{
    match verdict {
        None => Err(LoginError::VerificationFailed),
        Some(false) => Err(LoginError::InvalidCredentials),
        Some(true) => Ok(()),
    }
}

/// Checks a password against its stored bcrypt hash.
pub fn check_credentials(password: &str, hash: &str) -> (outcome: Result<(), LoginError>)
    ensures
        outcome == credentials_outcome(bcrypt_verdict(password@, hash@)),
{
    decide_credentials(bcrypt_matches(password, hash))
}

/// How long an issued token lives: a day.
pub const TOKEN_LIFETIME_SECONDS: i64 = 86_400;

/// The `exp` of a token issued at `now`: a day on, clamped to `usize`.
pub open spec fn token_expiry(now: i64) -> usize {
    if now + TOKEN_LIFETIME_SECONDS < 0 {
        0
    } else if now + TOKEN_LIFETIME_SECONDS > usize::MAX {
        usize::MAX
    } else {
        (now + TOKEN_LIFETIME_SECONDS) as usize
    }
}

/// Computes the `exp` of a token issued at `now`.
pub fn token_expiry_at(now: i64) -> (exp: usize)
    ensures
        exp == token_expiry(now),
{
    if now < -TOKEN_LIFETIME_SECONDS {
        0
    } else if now > i64::MAX - TOKEN_LIFETIME_SECONDS {
        if (i64::MAX as u64) > (usize::MAX as u64) {
            usize::MAX
        } else {
            (now as u64 + TOKEN_LIFETIME_SECONDS as u64) as usize
        }
    } else {
        let t: i64 = now + TOKEN_LIFETIME_SECONDS;
        if t as u64 > usize::MAX as u64 {
            usize::MAX
        } else {
            t as usize
        }
    }
}

} // verus!
