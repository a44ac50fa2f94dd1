//! Decisions of the authentication endpoints. Login, token refresh and
//! revocation are step machines: each function takes the step that was just
//! carried out and its outcome, and names the next step. The caller carries the
//! steps out (database, password hashing, token signing) and reports their
//! outcomes.
use crate::common::errors::{spec_status, ApiError};
use vstd::prelude::*;
use vstd::string::*;

verus! {

/// Whether a login asks for a long session, which also hands out a refresh
/// token cookie: its scope is exactly "long".
pub fn wants_refresh_cookie(scope: &Option<String>) -> (r: bool)
    ensures
        r == (scope matches Some(s) && s@ == "long"@),
{
    match scope {
        Some(s) => *s == "long".to_owned(),
        None => false,
    }
}

/// The error with which a login or token refresh with bad credentials is refused.
pub fn invalid_credentials() -> (e: ApiError)
    ensures
        e matches ApiError::Unauthorized(m) && m@ == "Invalid credentials!"@,
{
    ApiError::Unauthorized("Invalid credentials!".to_owned())
}

/// The fewest characters that a new password may have.
pub const PASSWORD_MIN_CHARS: usize = 8;

/// Whether an error is the refusal of a new password that is too short: a bad
/// request, "Invalid password format".
pub open spec fn is_invalid_password(e: ApiError) -> bool {
    e matches ApiError::BadRequest(m) && m@ == "Invalid password format"@
}

/// Checks a new password before it replaces the user's: one of fewer than
/// eight characters is refused as a bad request.
pub fn check_new_password(password: &str) -> (r: Result<(), ApiError>)
    ensures
        r is Ok <==> password@.len() >= PASSWORD_MIN_CHARS,
        r matches Err(e) ==> is_invalid_password(e),
{
    if password.unicode_len() < PASSWORD_MIN_CHARS {
        Err(ApiError::BadRequest("Invalid password format".to_owned()))
    } else {
        Ok(())
    }
}

/// Whether an error is the refusal of a login without a readable User-Agent
/// header: a bad request, "Missing User-Agent header".
pub open spec fn is_missing_user_agent(e: ApiError) -> bool {
    e matches ApiError::BadRequest(m) && m@ == "Missing User-Agent header"@
}

/// The refusal of a long-session login without a readable User-Agent header.
pub fn missing_user_agent() -> (e: ApiError)
    ensures
        is_missing_user_agent(e),
{
    ApiError::BadRequest("Missing User-Agent header".to_owned())
}

/// The outcome of a step.
pub enum Outcome {
    /// A lookup found (`true`) or did not find what it looked for.
    Found(bool),
    /// A check passed (`true`) or failed.
    Passed(bool),
    /// A step finished, with the error it failed with, if any.
    Completed(Option<ApiError>),
    /// A refresh token was found or not; when found, whether it belongs to
    /// the requesting user.
    Token(Option<bool>),
}

/// The error of a refused login or refresh: "Invalid credentials!".
pub open spec fn is_invalid_credentials(e: ApiError) -> bool {
    e matches ApiError::Unauthorized(m) && m@ == "Invalid credentials!"@
}

/// Steps of a login.
pub enum LoginStep {
    /// Look the active user up by login.
    FindUser,
    /// Check the password against the user's stored hash.
    VerifyPassword,
    /// Read the access token settings.
    LoadJwtConfig,
    /// Sign an access token for the user.
    GenerateToken,
    /// Read the refresh token settings.
    LoadRefreshConfig,
    /// Read the User-Agent header.
    ReadUserAgent,
    /// Store a refresh token for the user and build its cookie.
    StoreRefreshToken,
    /// Answer with the access token, and the refresh cookie when `with_cookie`.
    Respond { with_cookie: bool },
    /// Answer with an error.
    Fail(ApiError),
}

/// The step after `step` of a login that asks for a long session when
/// `long_session`, given its outcome.
pub open spec fn spec_login_next(step: LoginStep, outcome: Outcome, long_session: bool) -> Option<
    LoginStep,
> {
    match (step, outcome) {
        (LoginStep::FindUser, Outcome::Found(true)) => Some(LoginStep::VerifyPassword),
        (LoginStep::VerifyPassword, Outcome::Passed(true)) => Some(LoginStep::LoadJwtConfig),
        (LoginStep::LoadJwtConfig, Outcome::Completed(None)) => Some(LoginStep::GenerateToken),
        (LoginStep::LoadJwtConfig, Outcome::Completed(Some(e))) => Some(LoginStep::Fail(e)),
        (LoginStep::GenerateToken, Outcome::Passed(true)) => Some(
            if long_session {
                LoginStep::LoadRefreshConfig
            } else {
                LoginStep::Respond { with_cookie: false }
            },
        ),
        (LoginStep::LoadRefreshConfig, Outcome::Completed(None)) => Some(LoginStep::ReadUserAgent),
        (LoginStep::LoadRefreshConfig, Outcome::Completed(Some(e))) => Some(LoginStep::Fail(e)),
        (LoginStep::ReadUserAgent, Outcome::Passed(true)) => Some(LoginStep::StoreRefreshToken),
        (LoginStep::StoreRefreshToken, Outcome::Completed(None)) => Some(
            LoginStep::Respond { with_cookie: true },
        ),
        (LoginStep::StoreRefreshToken, Outcome::Completed(Some(e))) => Some(LoginStep::Fail(e)),
        _ => None,
    }
}

/// Whether `next` is the login step after `step` with `outcome`: a missing
/// user, a wrong password or a token that cannot be signed are refused with
/// "Invalid credentials!"; failures to read settings or to store the refresh
/// token answer with their own error; a missing User-Agent header is a bad
/// request, "Missing User-Agent header"; an outcome that does not answer the
/// step is an internal error.
pub open spec fn login_next_is(
    step: LoginStep,
    outcome: Outcome,
    long_session: bool,
    next: LoginStep,
) -> bool {
    match spec_login_next(step, outcome, long_session) {
        Some(s) => next == s,
        None => match (step, outcome) {
            (LoginStep::FindUser, Outcome::Found(false)) => next matches LoginStep::Fail(e)
                && is_invalid_credentials(e),
            (LoginStep::VerifyPassword, Outcome::Passed(false)) => next matches LoginStep::Fail(e)
                && is_invalid_credentials(e),
            (LoginStep::GenerateToken, Outcome::Passed(false)) => next matches LoginStep::Fail(e)
                && is_invalid_credentials(e),
            (LoginStep::ReadUserAgent, Outcome::Passed(false)) => next matches LoginStep::Fail(e)
                && is_missing_user_agent(e),
            _ => next == LoginStep::Fail(ApiError::InternalServerError),
        },
    }
}

/// The step of a login after `step`, given its outcome.
pub fn login_next(step: LoginStep, outcome: Outcome, long_session: bool) -> (next: LoginStep)
    ensures
        login_next_is(step, outcome, long_session, next),
{
    match (step, outcome) {
        (LoginStep::FindUser, Outcome::Found(found)) => if found {
            LoginStep::VerifyPassword
        } else {
            LoginStep::Fail(invalid_credentials())
        },
        (LoginStep::VerifyPassword, Outcome::Passed(valid)) => if valid {
            LoginStep::LoadJwtConfig
        } else {
            LoginStep::Fail(invalid_credentials())
        },
        (LoginStep::LoadJwtConfig, Outcome::Completed(error)) => match error {
            None => LoginStep::GenerateToken,
            Some(e) => LoginStep::Fail(e),
        },
        (LoginStep::GenerateToken, Outcome::Passed(signed)) => if !signed {
            LoginStep::Fail(invalid_credentials())
        } else if long_session {
            LoginStep::LoadRefreshConfig
        } else {
            LoginStep::Respond { with_cookie: false }
        },
        (LoginStep::LoadRefreshConfig, Outcome::Completed(error)) => match error {
            None => LoginStep::ReadUserAgent,
            Some(e) => LoginStep::Fail(e),
        },
        (LoginStep::ReadUserAgent, Outcome::Passed(present)) => if present {
            LoginStep::StoreRefreshToken
        } else {
            LoginStep::Fail(missing_user_agent())
        },
        (LoginStep::StoreRefreshToken, Outcome::Completed(error)) => match error {
            None => LoginStep::Respond { with_cookie: true },
            Some(e) => LoginStep::Fail(e),
        },
        _ => LoginStep::Fail(ApiError::InternalServerError),
    }
}

/// Steps of a refresh of the access token with a refresh token.
pub enum RefreshStep {
    /// Read the token identifier out of the refresh token's claims.
    ReadJti,
    /// Look the active user up by the token's public identifier.
    FindUser,
    /// Look the stored refresh token up by its identifier.
    FindToken,
    /// Check that the stored token has not been revoked.
    CheckRevoked,
    /// Revoke the stored token and store a new one in its place.
    RotateToken,
    /// Read the access token settings.
    LoadJwtConfig,
    /// Sign an access token for the user.
    GenerateToken,
    /// Read the refresh token settings.
    LoadRefreshConfig,
    /// Sign the new refresh token and build its cookie.
    IssueRefreshCookie,
    /// Answer with the access token and the new refresh cookie.
    Respond,
    /// Answer with an error.
    Fail(ApiError),
}

/// The step after `step` of a refresh, given its outcome, when it is not a refusal.
pub open spec fn spec_refresh_next(step: RefreshStep, outcome: Outcome) -> Option<RefreshStep> {
    match (step, outcome) {
        (RefreshStep::ReadJti, Outcome::Completed(None)) => Some(RefreshStep::FindUser),
        (RefreshStep::ReadJti, Outcome::Completed(Some(e))) => Some(RefreshStep::Fail(e)),
        (RefreshStep::FindUser, Outcome::Found(true)) => Some(RefreshStep::FindToken),
        (RefreshStep::FindToken, Outcome::Found(true)) => Some(RefreshStep::CheckRevoked),
        (RefreshStep::CheckRevoked, Outcome::Passed(true)) => Some(RefreshStep::RotateToken),
        (RefreshStep::RotateToken, Outcome::Completed(None)) => Some(RefreshStep::LoadJwtConfig),
        (RefreshStep::RotateToken, Outcome::Completed(Some(e))) => Some(RefreshStep::Fail(e)),
        (RefreshStep::LoadJwtConfig, Outcome::Completed(None)) => Some(RefreshStep::GenerateToken),
        (RefreshStep::LoadJwtConfig, Outcome::Completed(Some(e))) => Some(RefreshStep::Fail(e)),
        (RefreshStep::GenerateToken, Outcome::Passed(true)) => Some(RefreshStep::LoadRefreshConfig),
        (RefreshStep::LoadRefreshConfig, Outcome::Completed(None)) => Some(
            RefreshStep::IssueRefreshCookie,
        ),
        (RefreshStep::LoadRefreshConfig, Outcome::Completed(Some(e))) => Some(RefreshStep::Fail(e)),
        (RefreshStep::IssueRefreshCookie, Outcome::Completed(None)) => Some(RefreshStep::Respond),
        (RefreshStep::IssueRefreshCookie, Outcome::Completed(Some(e))) => Some(
            RefreshStep::Fail(e),
        ),
        _ => None,
    }
}

/// Whether `next` is the refresh step after `step` with `outcome`: an unknown
/// user or a token that cannot be signed are refused with "Invalid
/// credentials!", an unknown or revoked refresh token with "Invalid refresh
/// token!";
/// other failures answer with their own error; an outcome that does not
/// answer the step is an internal error.
pub open spec fn refresh_next_is(step: RefreshStep, outcome: Outcome, next: RefreshStep) -> bool {
    match spec_refresh_next(step, outcome) {
        Some(s) => next == s,
        None => match (step, outcome) {
            (RefreshStep::FindUser, Outcome::Found(false)) => next matches RefreshStep::Fail(e)
                && is_invalid_credentials(e),
            (RefreshStep::FindToken, Outcome::Found(false)) => next matches RefreshStep::Fail(
                ApiError::Unauthorized(m),
            ) && m@ == "Invalid refresh token!"@,
            (RefreshStep::CheckRevoked, Outcome::Passed(false)) => next matches RefreshStep::Fail(
                ApiError::Unauthorized(m),
            ) && m@ == "Invalid refresh token!"@,
            (RefreshStep::GenerateToken, Outcome::Passed(false)) => next matches RefreshStep::Fail(e)
                && is_invalid_credentials(e),
            _ => next == RefreshStep::Fail(ApiError::InternalServerError),
        },
    }
}

/// The step of a refresh after `step`, given its outcome.
pub fn refresh_next(step: RefreshStep, outcome: Outcome) -> (next: RefreshStep)
    ensures
        refresh_next_is(step, outcome, next),
{
    match (step, outcome) {
        (RefreshStep::ReadJti, Outcome::Completed(error)) => match error {
            None => RefreshStep::FindUser,
            Some(e) => RefreshStep::Fail(e),
        },
        (RefreshStep::FindUser, Outcome::Found(found)) => if found {
            RefreshStep::FindToken
        } else {
            RefreshStep::Fail(invalid_credentials())
        },
        (RefreshStep::FindToken, Outcome::Found(found)) => if found {
            RefreshStep::CheckRevoked
        } else {
            RefreshStep::Fail(ApiError::Unauthorized("Invalid refresh token!".to_owned()))
        },
        (RefreshStep::CheckRevoked, Outcome::Passed(live)) => if live {
            RefreshStep::RotateToken
        } else {
            RefreshStep::Fail(ApiError::Unauthorized("Invalid refresh token!".to_owned()))
        },
        (RefreshStep::RotateToken, Outcome::Completed(error)) => match error {
            None => RefreshStep::LoadJwtConfig,
            Some(e) => RefreshStep::Fail(e),
        },
        (RefreshStep::LoadJwtConfig, Outcome::Completed(error)) => match error {
            None => RefreshStep::GenerateToken,
            Some(e) => RefreshStep::Fail(e),
        },
        (RefreshStep::GenerateToken, Outcome::Passed(signed)) => if signed {
            RefreshStep::LoadRefreshConfig
        } else {
            RefreshStep::Fail(invalid_credentials())
        },
        (RefreshStep::LoadRefreshConfig, Outcome::Completed(error)) => match error {
            None => RefreshStep::IssueRefreshCookie,
            Some(e) => RefreshStep::Fail(e),
        },
        (RefreshStep::IssueRefreshCookie, Outcome::Completed(error)) => match error {
            None => RefreshStep::Respond,
            Some(e) => RefreshStep::Fail(e),
        },
        _ => RefreshStep::Fail(ApiError::InternalServerError),
    }
}

/// Steps of a revocation of a refresh token.
pub enum RevokeStep {
    /// Look the requesting user up by the access token's public identifier.
    FindUser,
    /// Look the refresh token up by its identifier.
    FindToken,
    /// Check whether the requester may edit users.
    CheckPermission,
    /// Mark the refresh token revoked.
    RevokeToken,
    /// Answer with status "Ok".
    Respond,
    /// Answer with an error.
    Fail(ApiError),
}

/// The step after `step` of a revocation, given its outcome, when it is not a refusal.
pub open spec fn spec_revoke_next(step: RevokeStep, outcome: Outcome) -> Option<RevokeStep> {
    match (step, outcome) {
        (RevokeStep::FindUser, Outcome::Found(true)) => Some(RevokeStep::FindToken),
        (RevokeStep::FindToken, Outcome::Token(Some(own))) => Some(
            if own {
                RevokeStep::RevokeToken
            } else {
                RevokeStep::CheckPermission
            },
        ),
        (RevokeStep::CheckPermission, Outcome::Completed(Some(e))) => Some(RevokeStep::Fail(e)),
        (RevokeStep::CheckPermission, Outcome::Passed(true)) => Some(RevokeStep::RevokeToken),
        (RevokeStep::CheckPermission, Outcome::Passed(false)) => Some(
            RevokeStep::Fail(ApiError::Forbidden),
        ),
        (RevokeStep::RevokeToken, Outcome::Completed(None)) => Some(RevokeStep::Respond),
        (RevokeStep::RevokeToken, Outcome::Completed(Some(e))) => Some(RevokeStep::Fail(e)),
        _ => None,
    }
}

/// Whether `next` is the revocation step after `step` with `outcome`: an
/// unknown requester is refused with "Invalid credentials!", an unknown token
/// is not found ("JTI"); a user revokes their own tokens, and another user's
/// only with the right to edit users, else the request is forbidden.
pub open spec fn revoke_next_is(step: RevokeStep, outcome: Outcome, next: RevokeStep) -> bool {
    match spec_revoke_next(step, outcome) {
        Some(s) => next == s,
        None => match (step, outcome) {
            (RevokeStep::FindUser, Outcome::Found(false)) => next matches RevokeStep::Fail(e)
                && is_invalid_credentials(e),
            (RevokeStep::FindToken, Outcome::Token(None)) => next matches RevokeStep::Fail(
                ApiError::NotFound(m),
            ) && m@ == "JTI"@,
            _ => next == RevokeStep::Fail(ApiError::InternalServerError),
        },
    }
}

/// The step of a revocation after `step`, given its outcome.
pub fn revoke_next(step: RevokeStep, outcome: Outcome) -> (next: RevokeStep)
    ensures
        revoke_next_is(step, outcome, next),
{
    match (step, outcome) {
        (RevokeStep::FindUser, Outcome::Found(found)) => if found {
            RevokeStep::FindToken
        } else {
            RevokeStep::Fail(invalid_credentials())
        },
        (RevokeStep::FindToken, Outcome::Token(token)) => match token {
            None => RevokeStep::Fail(ApiError::NotFound("JTI".to_owned())),
            Some(own) => if own {
                RevokeStep::RevokeToken
            } else {
                RevokeStep::CheckPermission
            },
        },
        (RevokeStep::CheckPermission, Outcome::Completed(Some(e))) => RevokeStep::Fail(e),
        (RevokeStep::CheckPermission, Outcome::Passed(permitted)) => if permitted {
            RevokeStep::RevokeToken
        } else {
            RevokeStep::Fail(ApiError::Forbidden)
        },
        (RevokeStep::RevokeToken, Outcome::Completed(error)) => match error {
            None => RevokeStep::Respond,
            Some(e) => RevokeStep::Fail(e),
        },
        _ => RevokeStep::Fail(ApiError::InternalServerError),
    }
}

/// A login signs an access token only right after the password was verified.
pub proof fn lemma_login_token_needs_password(step: LoginStep, outcome: Outcome, long: bool, next: LoginStep)
    requires
        login_next_is(step, outcome, long, next),
        next == LoginStep::LoadJwtConfig,
    ensures
        step == LoginStep::VerifyPassword,
        outcome == Outcome::Passed(true),
{
}

/// A login with a wrong password is refused with "Invalid credentials!".
pub proof fn lemma_login_wrong_password_refused(long: bool, next: LoginStep)
    requires
        login_next_is(LoginStep::VerifyPassword, Outcome::Passed(false), long, next),
    ensures
        next matches LoginStep::Fail(e) && is_invalid_credentials(e),
{
}

/// A login stores a refresh token and sets its cookie only when it asked for
/// a long session: the settings of refresh tokens are read only then.
pub proof fn lemma_login_cookie_needs_long_session(step: LoginStep, outcome: Outcome, long: bool, next: LoginStep)
    requires
        login_next_is(step, outcome, long, next),
        next == LoginStep::LoadRefreshConfig,
    ensures
        long,
        step == LoginStep::GenerateToken,
{
}

/// A login answers without a refresh cookie only when no long session was
/// asked for.
pub proof fn lemma_login_short_session_has_no_cookie(step: LoginStep, outcome: Outcome, long: bool, next: LoginStep)
    requires
        login_next_is(step, outcome, long, next),
        next == (LoginStep::Respond { with_cookie: false }),
    ensures
        !long,
{
}

/// A refresh replaces the stored token only after it was found and seen not to
/// be revoked.
pub proof fn lemma_refresh_rotates_found_token(step: RefreshStep, outcome: Outcome, next: RefreshStep)
    requires
        refresh_next_is(step, outcome, next),
        next == RefreshStep::RotateToken,
    ensures
        step == RefreshStep::CheckRevoked,
        outcome == Outcome::Passed(true),
{
}

/// A revoked refresh token is refused with status 401 and is not rotated.
pub proof fn lemma_refresh_refuses_revoked_token(next: RefreshStep)
    requires
        refresh_next_is(RefreshStep::CheckRevoked, Outcome::Passed(false), next),
    ensures
        next matches RefreshStep::Fail(e) && spec_status(e) == 401,
{
}

/// A long-session login without a readable User-Agent header is refused as a
/// bad request, with status 400.
pub proof fn lemma_login_missing_user_agent_is_bad_request(long: bool, next: LoginStep)
    requires
        login_next_is(LoginStep::ReadUserAgent, Outcome::Passed(false), long, next),
    ensures
        next matches LoginStep::Fail(e) && is_missing_user_agent(e) && spec_status(e) == 400,
{
}

/// Another user's refresh token is revoked only when the requester may edit
/// users: a token is revoked either right after it was found to be the
/// requester's own, or after a permission check that passed.
pub proof fn lemma_revoke_needs_ownership_or_right(step: RevokeStep, outcome: Outcome, next: RevokeStep)
    requires
        revoke_next_is(step, outcome, next),
        next == RevokeStep::RevokeToken,
    ensures
        (step == RevokeStep::FindToken && outcome == Outcome::Token(Some(true))) || (step
            == RevokeStep::CheckPermission && outcome == Outcome::Passed(true)),
{
}

/// A login answers with a refresh cookie only right after the refresh token
/// was stored, and answers without one only right after the access token was
/// signed for a login that asked for no long session.
pub proof fn lemma_login_responds_only_after_success(
    step: LoginStep,
    outcome: Outcome,
    long: bool,
    with_cookie: bool,
)
    requires
        login_next_is(step, outcome, long, LoginStep::Respond { with_cookie }),
    ensures
        with_cookie ==> step == LoginStep::StoreRefreshToken && outcome == Outcome::Completed(None),
        !with_cookie ==> step == LoginStep::GenerateToken && outcome == Outcome::Passed(true) && !long,
{
}

/// A login step that fails with an error of its own (reading the settings,
/// storing the refresh token) is answered with that very error.
pub proof fn lemma_login_failures_answered_as_is(step: LoginStep, e: ApiError, long: bool, next: LoginStep)
    requires
        step == LoginStep::LoadJwtConfig || step == LoginStep::LoadRefreshConfig || step
            == LoginStep::StoreRefreshToken,
        login_next_is(step, Outcome::Completed(Some(e)), long, next),
    ensures
        next == LoginStep::Fail(e),
{
}

/// A refresh answers with new tokens only right after the new refresh cookie
/// was issued.
pub proof fn lemma_refresh_responds_only_after_success(step: RefreshStep, outcome: Outcome)
    requires
        refresh_next_is(step, outcome, RefreshStep::Respond),
    ensures
        step == RefreshStep::IssueRefreshCookie,
        outcome == Outcome::Completed(None),
{
}

/// A refresh step that fails with an error of its own (reading the jti,
/// rotating the token, reading the settings, issuing the cookie) is answered
/// with that very error.
pub proof fn lemma_refresh_failures_answered_as_is(step: RefreshStep, e: ApiError, next: RefreshStep)
    requires
        step == RefreshStep::ReadJti || step == RefreshStep::RotateToken || step
            == RefreshStep::LoadJwtConfig || step == RefreshStep::LoadRefreshConfig || step
            == RefreshStep::IssueRefreshCookie,
        refresh_next_is(step, Outcome::Completed(Some(e)), next),
    ensures
        next == RefreshStep::Fail(e),
{
}

/// A revocation answers with success only right after the token was revoked,
/// and a failed permission check or revocation is answered with its own error.
pub proof fn lemma_revoke_responds_only_after_success(
    step: RevokeStep,
    outcome: Outcome,
    e: ApiError,
    next: RevokeStep,
)
    ensures
        revoke_next_is(step, outcome, RevokeStep::Respond) ==> step == RevokeStep::RevokeToken
            && outcome == Outcome::Completed(None),
        (step == RevokeStep::CheckPermission || step == RevokeStep::RevokeToken) && revoke_next_is(
            step,
            Outcome::Completed(Some(e)),
            next,
        ) ==> next == RevokeStep::Fail(e),
        revoke_next_is(RevokeStep::CheckPermission, Outcome::Passed(false), next) ==> next
            == RevokeStep::Fail(ApiError::Forbidden) && spec_status(ApiError::Forbidden) == 403,
{
}

/// A new password is refused exactly when it has fewer than eight
/// characters.
pub proof fn lemma_password_limit(password: Seq<char>, r: Result<(), ApiError>)
    requires
        r is Ok <==> password.len() >= PASSWORD_MIN_CHARS,
    ensures
        PASSWORD_MIN_CHARS == 8,
        r is Ok <==> password.len() >= 8,
{
}

} // verus!
