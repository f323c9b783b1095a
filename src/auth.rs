//! Bearer-token validation at the gateway: local cache first, then the user
//! service, then the token's own claims.
//!
//! The flow runs in steps. `start_validation_at` reads the `Authorization`
//! header and consults the cache; when the cache has no live entry the
//! caller asks the user service and decodes the token, and hands both
//! results to `finish_validation`, which decides and fills the cache only
//! when the user service called the token valid and its type is the one
//! expected.

use vstd::prelude::*;
use vstd::string::*;

use crate::clock::now_seconds;
use crate::token_cache::{lookup, stored, TokenCache, TokenRecord};
use crate::views::{opt_slice, opt_str};

verus! {

/// A token's decoded payload.
pub struct Claims {
    pub sub: String,
    pub exp: usize,
    pub token_type: String,
    pub user_id: Option<String>,
}

/// A token's payload, as values.
pub struct ClaimsView {
    pub sub: Seq<char>,
    pub exp: usize,
    pub token_type: Seq<char>,
    pub user_id: Option<Seq<char>>,
}

impl View for Claims {
    type V = ClaimsView;

    open spec fn view(&self) -> ClaimsView {
        ClaimsView { sub: self.sub@, exp: self.exp, token_type: self.token_type@, user_id: opt_str(self.user_id) }
    }
}

/// The view of an optional payload.
pub open spec fn opt_claims(c: Option<Claims>) -> Option<ClaimsView> {
    match c {
        Some(v) => Some(v@),
        None => None,
    }
}

/// Why a token was refused. The reason is diagnostic; to a client every
/// refusal is the same `Unauthorized`.
#[derive(PartialEq, Eq, Structural, Debug)]
pub enum AuthError {
    MissingHeader,
    InvalidHeader,
    InvalidFormat,
    InvalidToken,
    UnparseableReply,
    ServiceUnreachable,
    DecodeFailed,
    WrongTokenType,
}

/// The text that goes with each refusal.
pub open spec fn reason_of(e: AuthError) -> Seq<char> {
    match e {
        AuthError::MissingHeader => "No authorization header"@,
        AuthError::InvalidHeader => "Invalid authorization header"@,
        AuthError::InvalidFormat => "Invalid authorization format"@,
        AuthError::InvalidToken => "Invalid token"@,
        AuthError::UnparseableReply => "Failed to parse validation response"@,
        AuthError::ServiceUnreachable => "Failed to validate token with user service"@,
        AuthError::DecodeFailed => "Failed to decode token"@,
        AuthError::WrongTokenType => "Invalid token type"@,
    }
}

impl AuthError {
    /// The refusal's text.
    pub fn reason(&self) -> (text: String)
        ensures
            text@ == reason_of(*self),
    {
        match self {
            AuthError::MissingHeader => String::from_str("No authorization header"),
            AuthError::InvalidHeader => String::from_str("Invalid authorization header"),
            AuthError::InvalidFormat => String::from_str("Invalid authorization format"),
            AuthError::InvalidToken => String::from_str("Invalid token"),
            AuthError::UnparseableReply => String::from_str("Failed to parse validation response"),
            AuthError::ServiceUnreachable => String::from_str("Failed to validate token with user service"),
            AuthError::DecodeFailed => String::from_str("Failed to decode token"),
            AuthError::WrongTokenType => String::from_str("Invalid token type"),
        }
    }
}

/// The scheme that opens an `Authorization` header carrying a bearer token.
pub open spec fn bearer_prefix() -> Seq<char> {
    seq!['B', 'e', 'a', 'r', 'e', 'r', ' ']
}

/// The token of an `Authorization` header value, if it has the bearer form.
pub open spec fn bearer_token_of(header: Seq<char>) -> Option<Seq<char>> {
    if header.len() >= 7 && header.subrange(0, 7) == bearer_prefix() {
        Some(header.subrange(7, header.len() as int))
    } else {
        None
    }
}

/// What the header yields: the token, or the refusal.
pub open spec fn header_token(header: Option<Seq<char>>) -> Result<Seq<char>, AuthError> {
    match header {
        None => Err(AuthError::MissingHeader),
        Some(h) => match bearer_token_of(h) {
            Some(t) => Ok(t),
            None => Err(AuthError::InvalidFormat),
        },
    }
}

/// The view of a token result.
pub open spec fn token_result(r: Result<String, AuthError>) -> Result<Seq<char>, AuthError> {
    match r {
        Ok(t) => Ok(t@),
        Err(e) => Err(e),
    }
}

/// Extracts the token from an `Authorization` header value: the header must
/// be present and start with `Bearer `.
pub fn bearer_token(header: Option<&str>) -> (token: Result<String, AuthError>)
    ensures
        token_result(token) == header_token(opt_slice(header)),
{
    match header {
        None => Err(AuthError::MissingHeader),
        Some(h) => {
            let prefix = "Bearer ";
            proof {
                reveal_strlit("Bearer ");
            }
            assert(prefix@ =~= bearer_prefix());
            let n = h.unicode_len();
            if n < 7 {
                return Err(AuthError::InvalidFormat);
            }
            let mut i: usize = 0;
            while i < 7
                invariant
                    i <= 7 <= n,
                    opt_slice(header) == Some(h@),
                    n == h@.len(),
                    prefix@ == bearer_prefix(),
                    forall|j: int| 0 <= j < i ==> h@[j] == bearer_prefix()[j],
                decreases 7 - i,
            {
                if h.get_char(i) != prefix.get_char(i) {
                    assert(h@.subrange(0, 7)[i as int] != bearer_prefix()[i as int]);
                    assert(h@.subrange(0, 7) != bearer_prefix());
                    assert(bearer_token_of(h@) is None);
                    return Err(AuthError::InvalidFormat);
                }
                i = i + 1;
            }
            assert(h@.subrange(0, 7) =~= bearer_prefix());
            Ok(String::from_str(h.substring_char(7, n)))
        },
    }
}

/// The `exp` claim of a cached entry: its expiry, clamped to the range of
/// `usize`.
pub open spec fn exp_of(expires_at: i64) -> usize {
    if expires_at < 0 {
        0
    } else if expires_at > usize::MAX {
        usize::MAX
    } else {
        expires_at as usize
    }
}

/// The expiry recorded for a token whose `exp` claim is `exp`, clamped to
/// the range of `i64`.
pub open spec fn expiry_of(exp: usize) -> i64 {
    if exp > i64::MAX {
        i64::MAX
    } else {
        exp as i64
    }
}

fn exp_from_expiry(expires_at: i64) -> (exp: usize)
    ensures
        exp == exp_of(expires_at),
{
    if expires_at < 0 {
        0
    } else if expires_at as u64 > usize::MAX as u64 {
        usize::MAX
    } else {
        expires_at as usize
    }
}

fn expiry_from_exp(exp: usize) -> (expires_at: i64)
    ensures
        expires_at == expiry_of(exp),
{
    if exp as u64 > i64::MAX as u64 {
        i64::MAX
    } else {
        exp as i64
    }
}

/// The payload synthesised from a live cache entry.
pub open spec fn cached_claims_of(rec: TokenRecord, token_type: Seq<char>) -> ClaimsView {
    ClaimsView { sub: rec.user_id, exp: exp_of(rec.expires_at), token_type, user_id: Some(rec.user_id) }
}

/// Where validation stands after its first step.
pub enum ValidationStep {
    /// Decided without the user service.
    Done(Result<Claims, AuthError>),
    /// The cache has no live entry: ask the user service about this token.
    AskUserService { token: String },
}

/// What the first step owes: a refusal for a bad header, the cached
/// identity for a live entry, otherwise the token to ask about.
pub open spec fn first_step_ok(
    m: Map<Seq<char>, TokenRecord>,
    header: Option<Seq<char>>,
    token_type: Seq<char>,
    now: int,
    step: ValidationStep,
) -> bool {
    match header_token(header) {
        Err(e) => step == ValidationStep::Done(Err(e)),
        Ok(t) => match lookup(m, t, now) {
            Some(rec) => step matches ValidationStep::Done(Ok(c)) && c@ == cached_claims_of(rec, token_type),
            None => step matches ValidationStep::AskUserService { token } && token@ == t,
        },
    }
}

/// First step of validation at time `now`: read the header, then consult the
/// cache.
pub fn start_validation_at(cache: &TokenCache, header: Option<&str>, token_type: &str, now: i64) -> (step:
    ValidationStep)
    requires
        cache.wf(),
    ensures
        first_step_ok(cache@, opt_slice(header), token_type@, now as int, step),
{
    let token = match bearer_token(header) {
        Ok(t) => t,
        Err(e) => {
            return ValidationStep::Done(Err(e));
        },
    };
    match cache.get_token_at(token.as_str(), now) {
        Some(info) => {
            let claims = Claims {
                sub: info.user_id.clone(),
                exp: exp_from_expiry(info.expires_at),
                token_type: String::from_str(token_type),
                user_id: Some(info.user_id),
            };
            ValidationStep::Done(Ok(claims))
        },
        None => ValidationStep::AskUserService { token },
    }
}

/// First step of validation now. Whatever the time, the step is one that
/// `start_validation_at` could give.
pub fn start_validation(cache: &TokenCache, header: Option<&str>, token_type: &str) -> (step: ValidationStep)
    requires
        cache.wf(),
    ensures
        exists|now: i64| #[trigger] first_step_ok(cache@, opt_slice(header), token_type@, now as int, step),
{
    let now = now_seconds();
    start_validation_at(cache, header, token_type, now)
}

/// What the user service said of a token.
pub enum RemoteVerdict {
    /// The service could not be reached.
    Unreachable,
    /// The service answered with a status other than success.
    Rejected,
    /// The service's body could not be read.
    Unparseable,
    /// The service's verdict; a body without one counts as `valid: false`.
    Answered { valid: bool },
}

/// The outcome of the second step.
pub open spec fn outcome_of(
    token_type: Seq<char>,
    verdict: RemoteVerdict,
    decoded: Option<ClaimsView>,
) -> Result<ClaimsView, AuthError> {
    match verdict {
        RemoteVerdict::Unreachable => Err(AuthError::ServiceUnreachable),
        RemoteVerdict::Rejected => Err(AuthError::InvalidToken),
        RemoteVerdict::Unparseable => Err(AuthError::UnparseableReply),
        RemoteVerdict::Answered { valid } => if !valid {
            Err(AuthError::InvalidToken)
        } else {
            match decoded {
                None => Err(AuthError::DecodeFailed),
                Some(c) => if c.token_type != token_type {
                    Err(AuthError::WrongTokenType)
                } else {
                    Ok(c)
                },
            }
        },
    }
}

/// The cache after the second step: an entry for the token, expiring at its
/// `exp`, when it was accepted and names a user.
pub open spec fn cache_after_reply(
    m: Map<Seq<char>, TokenRecord>,
    token: Seq<char>,
    token_type: Seq<char>,
    verdict: RemoteVerdict,
    decoded: Option<ClaimsView>,
) -> Map<Seq<char>, TokenRecord> {
    match outcome_of(token_type, verdict, decoded) {
        Ok(c) => match c.user_id {
            Some(u) => stored(m, token, u, expiry_of(c.exp)),
            None => m,
        },
        Err(_) => m,
    }
}

/// The view of a validation result.
pub open spec fn claims_result(r: Result<Claims, AuthError>) -> Result<ClaimsView, AuthError> {
    match r {
        Ok(c) => Ok(c@),
        Err(e) => Err(e),
    }
}

/// Second step of validation: decide from the user service's verdict and the
/// token's decoded payload (`None` when it could not be decoded), and cache
/// an accepted token.
pub fn finish_validation(
    cache: &mut TokenCache,
    token: &str,
    token_type: &str,
    verdict: RemoteVerdict,
    decoded: Option<Claims>,
) -> (outcome: Result<Claims, AuthError>)
    requires
        old(cache).wf(),
    ensures
        final(cache).wf(),
        claims_result(outcome) == outcome_of(token_type@, verdict, opt_claims(decoded)),
        final(cache)@ == cache_after_reply(old(cache)@, token@, token_type@, verdict, opt_claims(decoded)),
{
    match verdict {
        RemoteVerdict::Unreachable => Err(AuthError::ServiceUnreachable),
        RemoteVerdict::Rejected => Err(AuthError::InvalidToken),
        RemoteVerdict::Unparseable => Err(AuthError::UnparseableReply),
        RemoteVerdict::Answered { valid } => {
            if !valid {
                return Err(AuthError::InvalidToken);
            }
            let claims = match decoded {
                None => {
                    return Err(AuthError::DecodeFailed);
                },
                Some(c) => c,
            };
            let expected = String::from_str(token_type);
            if claims.token_type != expected {
                return Err(AuthError::WrongTokenType);
            }
            match &claims.user_id {
                Some(u) => {
                    cache.store_token(token, u.clone(), expiry_from_exp(claims.exp));
                },
                None => {},
            }
            Ok(claims)
        },
    }
}

/// The user service's refusal of a token never fills the cache: after any
/// verdict other than `valid: true`, the cache is as it was.
pub proof fn lemma_refusal_leaves_cache(
    m: Map<Seq<char>, TokenRecord>,
    token: Seq<char>,
    token_type: Seq<char>,
    verdict: RemoteVerdict,
    decoded: Option<ClaimsView>,
)
    requires
        verdict != (RemoteVerdict::Answered { valid: true }),
    ensures
        cache_after_reply(m, token, token_type, verdict, decoded) == m,
        outcome_of(token_type, verdict, decoded) is Err,
{
}

} // verus!
