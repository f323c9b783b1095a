//! The gateway's side of request fan-out: the client-facing envelope, and
//! the reply owed for each outcome of a call to a backing service.
//!
//! A backing service's status is mirrored where it is a valid HTTP status;
//! an unreachable service or an unreadable body becomes a 500 with a short
//! reason and `success: false`.

use vstd::prelude::*;
use vstd::string::*;

use crate::auth::{bearer_prefix, bearer_token, first_step_ok, header_token, outcome_of, AuthError, ClaimsView, RemoteVerdict, ValidationStep};
use crate::clock::now_seconds;
use crate::token_cache::{invalidated, lookup, stored, TokenCache, TokenRecord};
use crate::views::{opt_slice, opt_str};

verus! {

/// The client-facing envelope.
pub struct ApiResponse<T> {
    pub success: bool,
    pub data: Option<T>,
    pub message: Option<String>,
}

/// A status and an envelope, ready to send.
pub struct Reply<T> {
    pub status: u16,
    pub body: ApiResponse<T>,
}

/// `r` is the reply with these parts.
pub open spec fn reply_is<T>(
    r: Reply<T>,
    status: u16,
    success: bool,
    data: Option<T>,
    message: Option<Seq<char>>,
) -> bool {
    &&& r.status == status
    &&& r.body.success == success
    &&& r.body.data == data
    &&& opt_str(r.body.message) == message
}

/// A failure reply: no data, and a reason.
pub open spec fn failure_is<T>(r: Reply<T>, status: u16, message: Seq<char>) -> bool {
    reply_is(r, status, false, None, Some(message))
}

/// A failure reply with this status and reason.
pub fn failure_reply<T>(status: u16, message: &str) -> (r: Reply<T>)
    ensures
        failure_is(r, status, message@),
{
    Reply { status, body: ApiResponse { success: false, data: None, message: Some(String::from_str(message)) } }
}

/// A successful status (2xx).
pub open spec fn is_success_status(status: u16) -> bool {
    200 <= status <= 299
}

/// The status a backing service's status is mirrored as: itself when it is
/// a valid HTTP status (100 to 999), otherwise 500.
pub open spec fn mirrored(status: u16) -> u16 {
    if 100 <= status <= 999 {
        status
    } else {
        500
    }
}

/// Mirrors a backing service's status.
pub fn mirror_status(status: u16) -> (mirror: u16)
    ensures
        mirror == mirrored(status),
{
    if 100 <= status && status <= 999 {
        status
    } else {
        500
    }
}

/// What came back from a backing service whose body the gateway reads.
pub enum Upstream<T> {
    /// The service could not be reached.
    Unreachable,
    /// The service answered; `body` is `None` when it could not be read.
    Replied { status: u16, body: Option<T> },
}

/// What the redirect service returns for a resolved code.
pub struct RedirectResponse {
    pub short_url: String,
    pub alias: Option<String>,
    pub long_url: String,
}

/// What the shortener returns for a new mapping.
pub struct ShortenResponse {
    pub short_code: String,
    pub short_url: String,
    pub expiration_time: String,
    pub created_at: String,
}

/// The body of a shortening request.
pub struct ShortenRequest {
    pub long_url: String,
}

/// The reply owed to `GET /r/{code}` for the redirect service's outcome.
pub open spec fn redirect_reply_ok(upstream: Upstream<RedirectResponse>, r: Reply<RedirectResponse>) -> bool {
    match upstream {
        Upstream::Unreachable => failure_is(r, 500, "Failed to connect to redirect service"@),
        Upstream::Replied { status, body } => if is_success_status(status) {
            match body {
                Some(d) => reply_is(r, 200, true, Some(d), None),
                None => failure_is(r, 500, "Failed to parse redirect service response"@),
            }
        } else if status == 404 {
            failure_is(r, 404, "Shortcode not found"@)
        } else {
            failure_is(r, 500, "Redirect service error"@)
        },
    }
}

/// Replies to `GET /r/{code}` from the redirect service's outcome.
pub fn redirect_reply(upstream: Upstream<RedirectResponse>) -> (r: Reply<RedirectResponse>)
    ensures
        redirect_reply_ok(upstream, r),
{
    match upstream {
        Upstream::Unreachable => failure_reply(500, "Failed to connect to redirect service"),
        Upstream::Replied { status, body } => {
            if 200 <= status && status <= 299 {
                match body {
                    Some(d) => Reply { status: 200, body: ApiResponse { success: true, data: Some(d), message: None } },
                    None => failure_reply(500, "Failed to parse redirect service response"),
                }
            } else if status == 404 {
                failure_reply(404, "Shortcode not found")
            } else {
                failure_reply(500, "Redirect service error")
            }
        },
    }
}

/// The reply owed to `POST /shorten` for the shortener's outcome.
pub open spec fn shorten_reply_ok(upstream: Upstream<ShortenResponse>, r: Reply<ShortenResponse>) -> bool {
    match upstream {
        Upstream::Unreachable => failure_is(r, 500, "Failed to connect to shortener service"@),
        Upstream::Replied { status, body } => if is_success_status(status) {
            match body {
                Some(d) => reply_is(r, 200, true, Some(d), None),
                None => failure_is(r, 500, "Failed to parse shortener service response"@),
            }
        } else {
            failure_is(r, mirrored(status), "Shortener service error"@)
        },
    }
}

/// Replies to `POST /shorten` from the shortener's outcome.
pub fn shorten_reply(upstream: Upstream<ShortenResponse>) -> (r: Reply<ShortenResponse>)
    ensures
        shorten_reply_ok(upstream, r),
{
    match upstream {
        Upstream::Unreachable => failure_reply(500, "Failed to connect to shortener service"),
        Upstream::Replied { status, body } => {
            if 200 <= status && status <= 299 {
                match body {
                    Some(d) => Reply { status: 200, body: ApiResponse { success: true, data: Some(d), message: None } },
                    None => failure_reply(500, "Failed to parse shortener service response"),
                }
            } else {
                failure_reply(mirror_status(status), "Shortener service error")
            }
        },
    }
}

/// The reply to a request refused for its token: 401 with the reason.
pub fn unauthorized<T>(e: &AuthError) -> (r: Reply<T>)
    ensures
        failure_is(r, 401, crate::auth::reason_of(*e)),
{
    let reason = e.reason();
    Reply { status: 401, body: ApiResponse { success: false, data: None, message: Some(reason) } }
}

/// What came back from the user service when the gateway relays its body.
pub enum RelayOutcome {
    Unreachable,
    Unparseable,
    Parsed { status: u16 },
}

/// How the gateway answers a relayed call.
pub enum Relay {
    /// Send the service's body on, with this status.
    Forward { status: u16 },
    /// Send a failure envelope with this status and reason.
    Fail { status: u16, message: String },
}

/// The relay owed for the user service's outcome.
pub open spec fn relay_ok(outcome: RelayOutcome, r: Relay) -> bool {
    match outcome {
        RelayOutcome::Unreachable => r matches Relay::Fail { status, message } && status == 500
            && message@ == "Failed to connect to user service"@,
        RelayOutcome::Unparseable => r matches Relay::Fail { status, message } && status == 500
            && message@ == "Failed to parse user service response"@,
        RelayOutcome::Parsed { status } => r == Relay::Forward { status: mirrored(status) },
    }
}

/// Decides how to answer a call relayed to the user service.
pub fn relay_user_service(outcome: RelayOutcome) -> (r: Relay)
    ensures
        relay_ok(outcome, r),
{
    match outcome {
        RelayOutcome::Unreachable => Relay::Fail {
            status: 500,
            message: String::from_str("Failed to connect to user service"),
        },
        RelayOutcome::Unparseable => Relay::Fail {
            status: 500,
            message: String::from_str("Failed to parse user service response"),
        },
        RelayOutcome::Parsed { status } => Relay::Forward { status: mirror_status(status) },
    }
}

/// The reply owed to a password change: the service's status and message
/// (a default one when it gave none) once its body is read, with `success`
/// set exactly for a successful status.
pub open spec fn password_reply_ok(outcome: RelayOutcome, message: Option<Seq<char>>, r: Reply<()>) -> bool {
    match outcome {
        RelayOutcome::Unreachable => failure_is(r, 500, "Failed to connect to user service"@),
        RelayOutcome::Unparseable => failure_is(r, 500, "Failed to parse user service response"@),
        RelayOutcome::Parsed { status } => reply_is(
            r,
            mirrored(status),
            is_success_status(status),
            None,
            Some(
                match message {
                    Some(m) => m,
                    None => if is_success_status(status) {
                        "Password changed successfully"@
                    } else {
                        "Password change failed"@
                    },
                },
            ),
        ),
    }
}

/// Replies to a password change from the user service's outcome and the
/// `message` its body held.
pub fn password_change_reply(outcome: RelayOutcome, message: Option<String>) -> (r: Reply<()>)
    ensures
        password_reply_ok(outcome, opt_str(message), r),
{
    match outcome {
        RelayOutcome::Unreachable => failure_reply(500, "Failed to connect to user service"),
        RelayOutcome::Unparseable => failure_reply(500, "Failed to parse user service response"),
        RelayOutcome::Parsed { status } => {
            let succeeded = 200 <= status && status <= 299;
            let text = match message {
                Some(m) => m,
                None => if succeeded {
                    String::from_str("Password changed successfully")
                } else {
                    String::from_str("Password change failed")
                },
            };
            Reply {
                status: mirror_status(status),
                body: ApiResponse { success: succeeded, data: None, message: Some(text) },
            }
        },
    }
}

/// How long a token cached at login or refresh lives: fifteen minutes.
pub const SESSION_TTL_SECONDS: i64 = 900;

/// The expiry stamped on a token cached at `now`, clamped to `i64`.
pub open spec fn session_expiry(now: i64) -> i64 {
    if now > i64::MAX - SESSION_TTL_SECONDS {
        i64::MAX
    } else {
        (now + SESSION_TTL_SECONDS) as i64
    }
}

fn session_expiry_at(now: i64) -> (expires_at: i64)
    ensures
        expires_at == session_expiry(now),
{
    if now > i64::MAX - SESSION_TTL_SECONDS {
        i64::MAX
    } else {
        now + SESSION_TTL_SECONDS
    }
}

/// The cache after a login or refresh reply: a successful reply that names
/// an access token and a user caches that token for a session's length.
pub open spec fn cache_after_session(
    m: Map<Seq<char>, TokenRecord>,
    status: u16,
    access_token: Option<Seq<char>>,
    user_id: Option<Seq<char>>,
    now: i64,
) -> Map<Seq<char>, TokenRecord> {
    if is_success_status(status) && access_token is Some && user_id is Some {
        stored(m, access_token->0, user_id->0, session_expiry(now))
    } else {
        m
    }
}

/// Records the outcome of a login or refresh at time `now`.
pub fn record_session_at(
    cache: &mut TokenCache,
    status: u16,
    access_token: Option<&str>,
    user_id: Option<&str>,
    now: i64,
)
    requires
        old(cache).wf(),
    ensures
        final(cache).wf(),
        final(cache)@ == cache_after_session(old(cache)@, status, opt_slice(access_token), opt_slice(user_id), now),
{
    if 200 <= status && status <= 299 {
        match (access_token, user_id) {
            (Some(t), Some(u)) => cache.store_token(t, String::from_str(u), session_expiry_at(now)),
            _ => {},
        }
    }
}

/// Records the outcome of a login or refresh now.
pub fn record_session(cache: &mut TokenCache, status: u16, access_token: Option<&str>, user_id: Option<&str>)
    requires
        old(cache).wf(),
    ensures
        final(cache).wf(),
        exists|now: i64|
            final(cache)@ == #[trigger] cache_after_session(
                old(cache)@,
                status,
                opt_slice(access_token),
                opt_slice(user_id),
                now,
            ),
{
    let now = now_seconds();
    record_session_at(cache, status, access_token, user_id, now);
}

/// The reason given when logout finds no usable token.
pub open spec fn logout_refusal_of(e: AuthError) -> Seq<char> {
    match e {
        AuthError::MissingHeader => "No authorization token provided"@,
        AuthError::InvalidHeader => "Invalid authorization header"@,
        _ => "Invalid authorization format"@,
    }
}

/// The 401 reply to a logout whose token cannot be taken.
pub fn logout_refusal(e: &AuthError) -> (r: Reply<()>)
    ensures
        failure_is(r, 401, logout_refusal_of(*e)),
{
    match e {
        AuthError::MissingHeader => failure_reply(401, "No authorization token provided"),
        AuthError::InvalidHeader => failure_reply(401, "Invalid authorization header"),
        _ => failure_reply(401, "Invalid authorization format"),
    }
}

/// Logout's first step: take the bearer token and invalidate it in the
/// cache, before the user service hears of it. A bad header is refused
/// with 401 and leaves the cache alone.
pub fn begin_logout(cache: &mut TokenCache, header: Option<&str>) -> (r: Result<String, Reply<()>>)
    requires
        old(cache).wf(),
    ensures
        final(cache).wf(),
        match header_token(opt_slice(header)) {
            Ok(t) => r matches Ok(token) && token@ == t && final(cache)@ == invalidated(old(cache)@, t),
            Err(e) => r matches Err(reply) && failure_is(reply, 401, logout_refusal_of(e))
                && final(cache)@ == old(cache)@,
        },
{
    match bearer_token(header) {
        Ok(token) => {
            cache.invalidate_token(token.as_str());
            Ok(token)
        },
        Err(e) => Err(logout_refusal(&e)),
    }
}

/// After logout, the token is never served from the cache: validating it
/// goes to the user service, and if that service cannot be reached the
/// token is refused.
pub proof fn lemma_logout_refuses_token(
    m: Map<Seq<char>, TokenRecord>,
    token: Seq<char>,
    token_type: Seq<char>,
    now: int,
    step: ValidationStep,
    decoded: Option<ClaimsView>,
)
    requires
        first_step_ok(invalidated(m, token), Some(bearer_prefix() + token), token_type, now, step),
    ensures
        step is AskUserService,
        outcome_of(token_type, RemoteVerdict::Unreachable, decoded) is Err,
{
    let header = bearer_prefix() + token;
    assert(header.subrange(0, 7) =~= bearer_prefix());
    assert(header.subrange(7, header.len() as int) =~= token);
}

/// The reply to a logout whose token was taken: success, whatever the user
/// service made of it.
pub fn logout_reply() -> (r: Reply<()>)
    ensures
        reply_is(r, 200, true, None, Some("Logout successful"@)),
{
    Reply {
        status: 200,
        body: ApiResponse { success: true, data: None, message: Some(String::from_str("Logout successful")) },
    }
}

/// The body of `POST /users`.
pub struct UserRegistrationRequest {
    pub username: String,
    pub email: String,
    pub password: String,
}

/// An account as the user service shows it.
pub struct UserResponse {
    pub id: String,
    pub email: String,
    pub username: String,
    pub created_at: String,
    pub updated_at: String,
}

/// The body of `POST /auth/login`.
pub struct LoginRequest {
    pub username: String,
    pub password: String,
}

/// The `data` of a successful login or refresh.
pub struct LoginResponse {
    pub access_token: String,
    pub refresh_token: String,
    pub user_id: String,
}

/// The body of `POST /auth/refresh`.
pub struct RefreshTokenRequest {
    pub refresh_token: String,
}

/// The body of `PUT /users/{user_id}`.
pub struct UpdateUserRequest {
    pub username: Option<String>,
    pub email: Option<String>,
}

/// The body of `PUT /users/{user_id}/password`.
pub struct ChangePasswordRequest {
    pub current_password: String,
    pub new_password: String,
}

/// The body of `POST /auth/validate-token`.
pub struct ValidateTokenRequest {
    pub token: String,
}

/// The answer of `POST /auth/validate-token`.
pub struct ValidateTokenResponse {
    pub valid: bool,
    pub user_id: Option<String>,
}

/// The answer's parts, as values.
pub open spec fn verdict_is(d: Option<ValidateTokenResponse>, valid: bool, user_id: Option<Seq<char>>) -> bool {
    d matches Some(v) && v.valid == valid && opt_str(v.user_id) == user_id
}

/// The endpoint's answer from the cache at `now`: valid, with the cached
/// user, when the token has a live entry; `None` sends the question on.
pub fn validate_endpoint_cached(cache: &TokenCache, request: &ValidateTokenRequest, now: i64) -> (r: Option<
    Reply<ValidateTokenResponse>,
>)
    requires
        cache.wf(),
    ensures
        match lookup(cache@, request.token@, now as int) {
            Some(rec) => r matches Some(reply) && reply.status == 200 && reply.body.success
                && reply.body.message is None && verdict_is(reply.body.data, true, Some(rec.user_id)),
            None => r is None,
        },
{
    match cache.get_token_at(request.token.as_str(), now) {
        Some(info) => Some(
            Reply {
                status: 200,
                body: ApiResponse {
                    success: true,
                    data: Some(ValidateTokenResponse { valid: true, user_id: Some(info.user_id) }),
                    message: None,
                },
            },
        ),
        None => None,
    }
}

/// What the user service said to a relayed validation.
pub enum ValidationReply {
    Unreachable,
    Unparseable,
    /// A readable body, with `data.valid` and `data.user_id` where present.
    Parsed { status: u16, valid: Option<bool>, user_id: Option<String> },
}

/// The reply a token accepted by the user service names a user with.
pub open spec fn accepted_user(reply: ValidationReply) -> Option<Seq<char>> {
    match reply {
        ValidationReply::Parsed { valid: Some(true), user_id: Some(u), .. } => Some(u@),
        _ => None,
    }
}

/// The endpoint's answer from the user service's reply, at `now`. Only a
/// reply with `valid: true` and a user fills the cache; any other readable
/// reply is relayed with its status, and `success` set exactly for a
/// successful status.
pub fn validate_endpoint_reply(
    cache: &mut TokenCache,
    request: &ValidateTokenRequest,
    reply: ValidationReply,
    now: i64,
) -> (r: Reply<ValidateTokenResponse>)
    requires
        old(cache).wf(),
    ensures
        final(cache).wf(),
        final(cache)@ == match accepted_user(reply) {
            Some(u) => stored(old(cache)@, request.token@, u, session_expiry(now)),
            None => old(cache)@,
        },
        match reply {
            ValidationReply::Unreachable => failure_is(r, 500, "Failed to connect to user service"@),
            ValidationReply::Unparseable => failure_is(r, 500, "Failed to parse user service response"@),
            ValidationReply::Parsed { status, valid, user_id } => match accepted_user(reply) {
                Some(u) => r.status == 200 && r.body.success && r.body.message is None
                    && verdict_is(r.body.data, true, Some(u)),
                None => r.status == mirrored(status) && r.body.success == is_success_status(status) && r.body.message is None
                    && verdict_is(r.body.data, valid == Some(true), opt_str(user_id)),
            },
        },
{
    match reply {
        ValidationReply::Unreachable => failure_reply(500, "Failed to connect to user service"),
        ValidationReply::Unparseable => failure_reply(500, "Failed to parse user service response"),
        ValidationReply::Parsed { status, valid, user_id } => {
            let is_valid = match valid {
                Some(v) => v,
                None => false,
            };
            if is_valid {
                match &user_id {
                    Some(u) => {
                        cache.store_token(request.token.as_str(), u.clone(), session_expiry_at(now));
                        return Reply {
                            status: 200,
                            body: ApiResponse {
                                success: true,
                                data: Some(ValidateTokenResponse { valid: true, user_id: Some(u.clone()) }),
                                message: None,
                            },
                        };
                    },
                    None => {},
                }
            }
            Reply {
                status: mirror_status(status),
                body: ApiResponse {
                    success: 200 <= status && status <= 299,
                    data: Some(ValidateTokenResponse { valid: is_valid, user_id }),
                    message: None,
                },
            }
        },
    }
}

} // verus!
