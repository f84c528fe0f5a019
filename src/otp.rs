//! One-time codes: issuance with a re-issue cooldown, and single-use validation.

use rand::Rng;
use vstd::prelude::*;

verus! {

/// How long a freshly issued code stays consumable, in seconds.
pub const OTP_LIFETIME_SECS: i64 = 120;

/// How long a user must wait after one issuance before another, in seconds.
pub const OTP_COOLDOWN_SECS: i64 = 120;

/// Smallest code that issuance draws.
pub const OTP_CODE_MIN: i32 = 100_000;

/// Largest code that issuance draws.
pub const OTP_CODE_MAX: i32 = 999_999;

/// A code as the store holds it; times are Unix seconds.
pub struct Otp {
    pub otp_id: String,
    pub otp_code: i32,
    pub user_id: String,
    pub created_at: i64,
    pub expires_at: i64,
}

/// A code about to be stored.
pub struct NewOtp {
    pub otp_code: i32,
    pub user_id: String,
    pub created_at: i64,
    pub expires_at: i64,
}

/// What to do with a request for a new code, given the user's live code.
pub enum IssuePlan {
    /// The user has no code: issue one.
    Fresh,
    /// The user's code is past its cooldown: delete it, then issue one.
    ReplaceStale { stale_otp_id: String },
    /// The user's code is too recent: refuse, and say how long to wait.
    RateLimited { retry_after_seconds: i64 },
}

/// The outcome of submitting a code.
#[derive(PartialEq, Eq, Structural, Clone, Copy, Debug)]
pub enum OtpVerdict {
    /// The code matched and is now spent.
    Consumed,
    /// The code's lifetime had ended; it is swept.
    Expired,
    /// The code did not match; it stays for another try.
    Mismatch,
    /// The user has no live code.
    NotFound,
}

/// Seconds left of the cooldown of a code created at `created_at`.
pub open spec fn cooldown_left(created_at: i64, now: i64) -> int {
    created_at + OTP_COOLDOWN_SECS - now
}

/// Whether a code created at `created_at` still blocks a new issuance at `now`.
pub open spec fn in_cooldown(created_at: i64, now: i64) -> bool {
    now - created_at < OTP_COOLDOWN_SECS
}

/// The verdict on `submitted` against the user's live code at `now`.
pub open spec fn verdict_of(live: Option<Otp>, submitted: i32, now: i64) -> OtpVerdict {
    match live {
        None => OtpVerdict::NotFound,
        Some(code) => if now > code.expires_at {
            OtpVerdict::Expired
        } else if code.otp_code != submitted {
            OtpVerdict::Mismatch
        } else {
            OtpVerdict::Consumed
        },
    }
}

impl OtpVerdict {
    /// Whether the store must delete the live code after this verdict.
    pub open spec fn spec_removes_code(self) -> bool {
        self == OtpVerdict::Consumed || self == OtpVerdict::Expired
    }

    /// Whether the store must delete the live code after this verdict.
    #[verifier::when_used_as_spec(spec_removes_code)]
    pub fn removes_code(self) -> (r: bool)
        ensures
            r == self.spec_removes_code(),
    {
        match self {
            OtpVerdict::Consumed | OtpVerdict::Expired => true,
            _ => false,
        }
    }
}

/// The code behind an optional reference.
pub open spec fn deref_otp(live: Option<&Otp>) -> Option<Otp> {
    match live {
        Some(code) => Some(*code),
        None => None,
    }
}

/// The user's live code once the store has acted on `verdict`.
pub open spec fn live_after(live: Option<Otp>, verdict: OtpVerdict) -> Option<Otp> {
    if verdict.removes_code() {
        None
    } else {
        live
    }
}

/// The retry delay reported for a code created at `created_at`, capped to `i64`.
pub open spec fn retry_after(created_at: i64, now: i64) -> i64 {
    if cooldown_left(created_at, now) <= i64::MAX {
        cooldown_left(created_at, now) as i64
    } else {
        i64::MAX
    }
}

/// The decision on a request for a new code at `now`.
pub open spec fn issue_plan_of(existing: Option<Otp>, now: i64) -> IssuePlan {
    match existing {
        None => IssuePlan::Fresh,
        Some(code) => if in_cooldown(code.created_at, now) {
            IssuePlan::RateLimited { retry_after_seconds: retry_after(code.created_at, now) }
        } else {
            IssuePlan::ReplaceStale { stale_otp_id: code.otp_id }
        },
    }
}

/// Decides a request for a new code at `now`, given the user's live code.
pub fn plan_issue(existing: Option<&Otp>, now: i64) -> (r: IssuePlan)
    ensures
        r == issue_plan_of(deref_otp(existing), now),
        (existing matches Some(code) && code.created_at <= now && in_cooldown(
            code.created_at,
            now,
        )) ==> (r matches IssuePlan::RateLimited { retry_after_seconds }
            && 0 < retry_after_seconds <= OTP_COOLDOWN_SECS),
{
    match existing {
        None => IssuePlan::Fresh,
        Some(code) => {
            let elapsed: i128 = now as i128 - code.created_at as i128;
            if elapsed < OTP_COOLDOWN_SECS as i128 {
                let left: i128 = OTP_COOLDOWN_SECS as i128 - elapsed;
                let retry_after_seconds: i64 = if left <= i64::MAX as i128 {
                    left as i64
                } else {
                    i64::MAX
                };
                IssuePlan::RateLimited { retry_after_seconds }
            } else {
                IssuePlan::ReplaceStale { stale_otp_id: code.otp_id.clone() }
            }
        },
    }
}

/// Relies on rand's `rng().random_range(lo..=hi)`: a value drawn from the
/// inclusive range. It panics only on an empty range, which `requires` excludes.
#[verifier::external_body]
fn draw_in_range(lo: i32, hi: i32) -> (r: i32)
    requires
        lo <= hi,
    ensures
        lo <= r <= hi,
{
    rand::rng().random_range(lo..=hi)
}

/// Whether `otp` is a well-formed fresh code for `user_id` issued at `now`.
pub open spec fn fresh_code_for(otp: NewOtp, user_id: Seq<char>, now: i64) -> bool {
    &&& otp.user_id@ == user_id
    &&& OTP_CODE_MIN <= otp.otp_code <= OTP_CODE_MAX
    &&& otp.created_at == now
    &&& otp.expires_at == now + OTP_LIFETIME_SECS
}

/// A new random six-digit code for `user_id`, issued at `now`.
pub fn send_new_otp(user_id: &str, now: i64) -> (r: NewOtp)
    requires
        now <= i64::MAX - OTP_LIFETIME_SECS,
    ensures
        fresh_code_for(r, user_id@, now),
{
    let otp_code = draw_in_range(OTP_CODE_MIN, OTP_CODE_MAX);
    NewOtp {
        otp_code,
        user_id: user_id.to_owned(),
        created_at: now,
        expires_at: now + OTP_LIFETIME_SECS,
    }
}

/// The work that a request for a new code calls for.
pub enum OtpIssue {
    /// Store and deliver `otp`; the user had no code.
    Send(NewOtp),
    /// Delete the stale code, then store and deliver `otp`.
    Replace { stale_otp_id: String, otp: NewOtp },
    /// Refuse: the cooldown has `retry_after_seconds` left.
    RateLimited { retry_after_seconds: i64 },
}

/// Handles a request for a new code for `user_id` at `now`: refuses within the
/// cooldown, otherwise draws a fresh code (replacing a stale one, if any).
pub fn generate_otp(user_id: &str, existing: Option<&Otp>, now: i64) -> (r: OtpIssue)
    requires
        now <= i64::MAX - OTP_LIFETIME_SECS,
    ensures
        match issue_plan_of(deref_otp(existing), now) {
            IssuePlan::Fresh => r matches OtpIssue::Send(otp) && fresh_code_for(otp, user_id@, now),
            IssuePlan::ReplaceStale { stale_otp_id } => r matches OtpIssue::Replace {
                stale_otp_id: id,
                otp,
            } && id == stale_otp_id && fresh_code_for(otp, user_id@, now),
            IssuePlan::RateLimited { retry_after_seconds } => r == (OtpIssue::RateLimited {
                retry_after_seconds,
            }),
        },
{
    match plan_issue(existing, now) {
        IssuePlan::Fresh => OtpIssue::Send(send_new_otp(user_id, now)),
        IssuePlan::ReplaceStale { stale_otp_id } => OtpIssue::Replace {
            stale_otp_id,
            otp: send_new_otp(user_id, now),
        },
        IssuePlan::RateLimited { retry_after_seconds } => OtpIssue::RateLimited {
            retry_after_seconds,
        },
    }
}

/// Judges `submitted` against the user's live code at `now`.
pub fn validate_otp(live: Option<&Otp>, submitted: i32, now: i64) -> (r: OtpVerdict)
    ensures
        r == verdict_of(deref_otp(live), submitted, now),
        live is None ==> r == OtpVerdict::NotFound,
        live matches Some(code) && now > code.expires_at ==> r == OtpVerdict::Expired,
{
    match live {
        None => OtpVerdict::NotFound,
        Some(code) => {
            if now > code.expires_at {
                OtpVerdict::Expired
            } else if code.otp_code != submitted {
                OtpVerdict::Mismatch
            } else {
                OtpVerdict::Consumed
            }
        },
    }
}

/// The verdict once the store has tried to delete the code.
pub open spec fn settled(verdict: OtpVerdict, removed: bool) -> OtpVerdict {
    if verdict == OtpVerdict::Consumed && !removed {
        OtpVerdict::NotFound
    } else {
        verdict
    }
}

/// The verdict once the store has tried to delete the code: a consumption
/// stands only if this request's delete removed the code; a request that lost
/// a race to a concurrent consumption sees `NotFound`.
pub fn settle_verdict(verdict: OtpVerdict, removed: bool) -> (r: OtpVerdict)
    ensures
        r == settled(verdict, removed),
{
    match verdict {
        OtpVerdict::Consumed => if removed {
            OtpVerdict::Consumed
        } else {
            OtpVerdict::NotFound
        },
        other => other,
    }
}

/// The whole minutes, rounded up, that `seconds` span.
pub fn minutes_rounded_up(seconds: i64) -> (r: i64)
    requires
        seconds >= 0,
    ensures
        r * 60 >= seconds,
        r * 60 < seconds + 60,
{
    let whole = seconds / 60;
    let rest = seconds % 60;
    assert(whole * 60 + rest == seconds && 0 <= rest < 60) by (nonlinear_arith)
        requires
            whole == seconds / 60,
            rest == seconds % 60,
            seconds >= 0,
    ;
    if rest == 0 {
        whole
    } else {
        whole + 1
    }
}

/// A consumed code cannot be consumed twice: once the store has acted on a
/// `Consumed` verdict, any later submission of the same code finds no code.
pub proof fn lemma_code_consumed_once(live: Option<Otp>, submitted: i32, first: i64, later: i64)
    requires
        verdict_of(live, submitted, first) == OtpVerdict::Consumed,
    ensures
        verdict_of(live_after(live, OtpVerdict::Consumed), submitted, later) == OtpVerdict::NotFound,
{
}

/// Two concurrent submissions of one code cannot both consume it: the store
/// deletes the code for at most one of them, and only that one's consumption
/// stands.
pub proof fn lemma_one_consumption_wins(
    first: OtpVerdict,
    second: OtpVerdict,
    first_removed: bool,
    second_removed: bool,
)
    requires
        !(first_removed && second_removed),
    ensures
        !(settled(first, first_removed) == OtpVerdict::Consumed && settled(second, second_removed)
            == OtpVerdict::Consumed),
{
}

/// A code submitted after its expiry is reported `Expired`, never `Consumed`,
/// and is swept, so that no later submission can consume it either.
pub proof fn lemma_expired_code_never_authenticates(
    code: Otp,
    submitted: i32,
    now: i64,
    later: i64,
)
    requires
        now > code.expires_at,
    ensures
        verdict_of(Some(code), submitted, now) == OtpVerdict::Expired,
        verdict_of(live_after(Some(code), OtpVerdict::Expired), submitted, later)
            == OtpVerdict::NotFound,
{
}

} // verus!
