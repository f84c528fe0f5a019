//! The login flows: asking for a code, completing a login with one, and the
//! session cookie that a completed login sets.

use crate::error::ApiError;
use crate::otp::{deref_otp, generate_otp, issue_plan_of, fresh_code_for, IssuePlan, Otp, OtpIssue, OtpVerdict, OTP_LIFETIME_SECS};
use crate::session::{mint_session_token, session_claims_of, SESSION_LIFETIME_SECS};
use crate::users::User;
use vstd::prelude::*;

verus! {

/// The cookie that carries a session token.
pub struct SessionCookie {
    pub name: String,
    pub value: String,
    pub path: String,
    pub http_only: bool,
    pub secure: bool,
    pub max_age_secs: u64,
}

/// Handles a request for a code on behalf of `user`, the account looked up
/// by the requested email, whose live code is `existing`: an unknown account
/// is `NotFound`, a request within the cooldown is `RateLimited`, and
/// otherwise a fresh code for the account is to be stored and delivered.
pub fn request_otp(user: Option<&User>, existing: Option<&Otp>, now: i64) -> (r: Result<
    OtpIssue,
    ApiError,
>)
    requires
        now <= i64::MAX - OTP_LIFETIME_SECS,
    ensures
        match user {
            None => r == Err::<OtpIssue, ApiError>(ApiError::NotFound),
            Some(u) => match issue_plan_of(deref_otp(existing), now) {
                IssuePlan::RateLimited { retry_after_seconds } => r == Err::<OtpIssue, ApiError>(
                    ApiError::RateLimited { retry_after_seconds },
                ),
                IssuePlan::Fresh => r matches Ok(OtpIssue::Send(otp)) && fresh_code_for(
                    otp,
                    u.id@,
                    now,
                ),
                IssuePlan::ReplaceStale { stale_otp_id } => r matches Ok(
                    OtpIssue::Replace { stale_otp_id: id, otp },
                ) && id == stale_otp_id && fresh_code_for(otp, u.id@, now),
            },
        },
{
    match user {
        None => Err(ApiError::NotFound),
        Some(u) => match generate_otp(u.id.as_str(), existing, now) {
            OtpIssue::RateLimited { retry_after_seconds } => Err(
                ApiError::RateLimited { retry_after_seconds },
            ),
            issue => Ok(issue),
        },
    }
}

/// The answer to a login with a code, given the verdict on the code: a
/// session token for `user_id` issued at `now` when the code was consumed,
/// `Expired` for an expired code, `Unauthorized` for a wrong or absent one.
pub fn login_response(user_id: &str, verdict: OtpVerdict, now: u64, secret: &[u8]) -> (r: Result<
    String,
    ApiError,
>)
    requires
        now <= u64::MAX - SESSION_LIFETIME_SECS,
    ensures
        verdict == OtpVerdict::Consumed ==> (r matches Ok(token) && session_claims_of(
            token@,
            secret@,
        ) == Some((user_id@, now as int, now + SESSION_LIFETIME_SECS))),
        verdict == OtpVerdict::Expired ==> r == Err::<String, ApiError>(ApiError::Expired),
        verdict == OtpVerdict::Mismatch || verdict == OtpVerdict::NotFound ==> r == Err::<
            String,
            ApiError,
        >(ApiError::Unauthorized),
{
    match verdict {
        OtpVerdict::Consumed => Ok(mint_session_token(user_id, now, secret)),
        OtpVerdict::Expired => Err(ApiError::Expired),
        _ => Err(ApiError::Unauthorized),
    }
}

/// Whether a login with this verdict is recorded as a success.
pub fn login_succeeded(verdict: OtpVerdict) -> (r: bool)
    ensures
        r == (verdict == OtpVerdict::Consumed),
{
    verdict == OtpVerdict::Consumed
}

/// The cookie that hands `token` to the client: named `token`, for every
/// path, hidden from scripts, sent only over TLS, living as long as the token.
pub fn session_cookie(token: String) -> (r: SessionCookie)
    ensures
        r.name@ == "token"@,
        r.value == token,
        r.path@ == "/"@,
        r.http_only,
        r.secure,
        r.max_age_secs == SESSION_LIFETIME_SECS,
{
    SessionCookie {
        name: "token".to_owned(),
        value: token,
        path: "/".to_owned(),
        http_only: true,
        secure: true,
        max_age_secs: SESSION_LIFETIME_SECS,
    }
}

/// The cookie that logging out sets: the same cookie, emptied and expired.
pub fn cleared_session_cookie() -> (r: SessionCookie)
    ensures
        r.name@ == "token"@,
        r.value@.len() == 0,
        r.path@ == "/"@,
        r.http_only,
        r.secure,
        r.max_age_secs == 0,
{
    SessionCookie {
        name: "token".to_owned(),
        value: String::new(),
        path: "/".to_owned(),
        http_only: true,
        secure: true,
        max_age_secs: 0,
    }
}

} // verus!
