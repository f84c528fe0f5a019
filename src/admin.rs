//! Administrative views over the security log: per-user login statistics,
//! login history, and paging of flagged entries.

use crate::security::UserSecurityLog;
use vstd::prelude::*;

verus! {

/// The window, in seconds, over which recent failures are summed.
pub const RECENT_WINDOW_SECS: i64 = 86_400;

/// How many of the latest entries the statistics look at.
pub const STATS_RECENT_ENTRIES: i64 = 10;

/// Page size of the login history when the query names none.
pub const HISTORY_PAGE_DEFAULT: i64 = 50;

/// Page size of the flagged entries when the query names none.
pub const FLAGGED_PAGE_DEFAULT: i64 = 100;

/// The text `s` in lower case.
pub uninterp spec fn lower_of(s: Seq<char>) -> Seq<char>;

/// Relies on std's `str::to_lowercase`: the lower-case form, which depends on
/// the characters alone.
#[verifier::external_body]
fn lowercase(s: &str) -> (r: String)
    ensures
        r@ == lower_of(s@),
{
    s.to_lowercase()
}

/// The key under which an account is looked up by email: the email in lower
/// case, so that lookups ignore case.
pub fn lookup_email(email: &str) -> (r: String)
    ensures
        r@ == lower_of(email@),
{
    lowercase(email)
}

/// A request for one user's login history.
pub struct LoginHistoryQuery {
    pub email: String,
    pub limit: Option<i64>,
    pub offset: Option<i64>,
    pub days_back: Option<i32>,
}

/// A request for a page of flagged entries.
pub struct FlaggedUserQuery {
    pub limit: Option<i64>,
    pub offset: Option<i64>,
}

/// Login statistics of one user; times are Unix seconds.
pub struct UserLoginStats {
    pub user_id: String,
    pub total_logins: i64,
    pub successful_logins: i64,
    pub failed_logins: i64,
    pub last_successful_login: Option<i64>,
    pub last_failed_login: Option<i64>,
    pub is_flagged_for_review: bool,
    pub recent_failed_attempts: i32,
}

/// One line of a login history; `timestamp` is in Unix seconds.
pub struct UserLoginHistoryItem {
    pub id: String,
    pub timestamp: i64,
    pub ip_address: String,
    pub city: String,
    pub country: String,
    pub was_successful: bool,
    pub failed_login_attempts: i32,
    pub flagged_for_review: bool,
}

/// Where a page stands within all results.
#[derive(PartialEq, Eq, Structural, Clone, Copy, Debug)]
pub struct Pagination {
    pub total: i64,
    pub limit: i64,
    pub offset: i64,
    pub has_more: bool,
}

/// The time of the first entry (latest first) that records a success.
pub open spec fn first_success_time(logs: Seq<UserSecurityLog>) -> Option<i64>
    decreases logs.len(),
{
    if logs.len() == 0 {
        None
    } else if logs[0].failed_login_attempts == 0 {
        logs[0].created_at
    } else {
        first_success_time(logs.skip(1))
    }
}

/// The time of the first entry (latest first) that records a failure.
pub open spec fn first_failure_time(logs: Seq<UserSecurityLog>) -> Option<i64>
    decreases logs.len(),
{
    if logs.len() == 0 {
        None
    } else if logs[0].failed_login_attempts > 0 {
        logs[0].created_at
    } else {
        first_failure_time(logs.skip(1))
    }
}

/// Whether any entry is flagged for review.
pub open spec fn any_flagged(logs: Seq<UserSecurityLog>) -> bool {
    exists|i: int| 0 <= i < logs.len() && #[trigger] logs[i].flagged_for_review
}

/// Whether an entry is a failure within the recent window before `now`.
pub open spec fn is_recent_failure(log: UserSecurityLog, now: i64) -> bool {
    &&& log.created_at matches Some(t) && t > now - RECENT_WINDOW_SECS
    &&& log.failed_login_attempts > 0
}

/// The sum of the failure markers of the recent failures.
pub open spec fn recent_failure_sum(logs: Seq<UserSecurityLog>, now: i64) -> int
    decreases logs.len(),
{
    if logs.len() == 0 {
        0
    } else {
        recent_failure_sum(logs.drop_last(), now) + if is_recent_failure(logs.last(), now) {
            logs.last().failed_login_attempts as int
        } else {
            0int
        }
    }
}

/// `x` capped at the largest `i32`.
pub open spec fn cap_i32(x: int) -> int {
    if x <= i32::MAX {
        x
    } else {
        i32::MAX as int
    }
}

/// The statistics of `user_id` from the store's counts of all entries
/// (`total`) and of failures (`failed`), and its latest entries, latest first.
/// The recent failure count is capped at the largest `i32`.
pub fn login_stats(
    user_id: String,
    total: i64,
    failed: i64,
    recent: &Vec<UserSecurityLog>,
    now: i64,
) -> (r: UserLoginStats)
    requires
        i64::MIN <= total - failed <= i64::MAX,
    ensures
        r.user_id == user_id,
        r.total_logins == total,
        r.failed_logins == failed,
        r.successful_logins == total - failed,
        r.last_successful_login == first_success_time(recent@),
        r.last_failed_login == first_failure_time(recent@),
        r.is_flagged_for_review == any_flagged(recent@),
        r.recent_failed_attempts == cap_i32(recent_failure_sum(recent@, now)),
{
    UserLoginStats {
        user_id,
        total_logins: total,
        successful_logins: total - failed,
        failed_logins: failed,
        last_successful_login: last_success(recent),
        last_failed_login: last_failure(recent),
        is_flagged_for_review: has_flagged(recent),
        recent_failed_attempts: recent_failures(recent, now),
    }
}

fn last_success(logs: &Vec<UserSecurityLog>) -> (r: Option<i64>)
    ensures
        r == first_success_time(logs@),
{
    let mut i: usize = 0;
    assert(logs@.skip(0) =~= logs@);
    while i < logs.len()
        invariant
            i <= logs@.len(),
            first_success_time(logs@) == first_success_time(logs@.skip(i as int)),
        decreases logs@.len() - i,
    {
        assert(logs@.skip(i as int).skip(1) =~= logs@.skip(i + 1));
        assert(logs@.skip(i as int)[0] == logs@[i as int]);
        if logs[i].failed_login_attempts == 0 {
            return logs[i].created_at;
        }
        i = i + 1;
    }
    None
}

fn last_failure(logs: &Vec<UserSecurityLog>) -> (r: Option<i64>)
    ensures
        r == first_failure_time(logs@),
{
    let mut i: usize = 0;
    assert(logs@.skip(0) =~= logs@);
    while i < logs.len()
        invariant
            i <= logs@.len(),
            first_failure_time(logs@) == first_failure_time(logs@.skip(i as int)),
        decreases logs@.len() - i,
    {
        assert(logs@.skip(i as int).skip(1) =~= logs@.skip(i + 1));
        assert(logs@.skip(i as int)[0] == logs@[i as int]);
        if logs[i].failed_login_attempts > 0 {
            return logs[i].created_at;
        }
        i = i + 1;
    }
    None
}

fn has_flagged(logs: &Vec<UserSecurityLog>) -> (r: bool)
    ensures
        r == any_flagged(logs@),
{
    let mut i: usize = 0;
    while i < logs.len()
        invariant
            i <= logs@.len(),
            forall|k: int| 0 <= k < i ==> !(#[trigger] logs@[k]).flagged_for_review,
        decreases logs@.len() - i,
    {
        if logs[i].flagged_for_review {
            return true;
        }
        i = i + 1;
    }
    false
}

fn recent_failures(logs: &Vec<UserSecurityLog>, now: i64) -> (r: i32)
    ensures
        r == cap_i32(recent_failure_sum(logs@, now)),
{
    let cutoff: i128 = now as i128 - RECENT_WINDOW_SECS as i128;
    let mut acc: i32 = 0;
    let mut i: usize = 0;
    while i < logs.len()
        invariant
            i <= logs@.len(),
            cutoff == now - RECENT_WINDOW_SECS,
            acc == cap_i32(recent_failure_sum(logs@.take(i as int), now)),
            recent_failure_sum(logs@.take(i as int), now) >= 0,
        decreases logs@.len() - i,
    {
        let log = &logs[i];
        assert(logs@.take(i + 1).drop_last() =~= logs@.take(i as int));
        assert(logs@.take(i + 1).last() == logs@[i as int]);
        let counts = match log.created_at {
            Some(t) => t as i128 > cutoff && log.failed_login_attempts > 0,
            None => false,
        };
        if counts {
            let sum: i64 = acc as i64 + log.failed_login_attempts as i64;
            acc = if sum > i32::MAX as i64 {
                i32::MAX
            } else {
                sum as i32
            };
        }
        i = i + 1;
    }
    assert(logs@.take(logs@.len() as int) =~= logs@);
    acc
}

/// Whether `item` is the history line of `log`, dated `now` when the entry
/// carries no time.
pub open spec fn history_line(item: UserLoginHistoryItem, log: UserSecurityLog, now: i64) -> bool {
    &&& item.id == log.log_id
    &&& item.timestamp == match log.created_at {
        Some(t) => t,
        None => now,
    }
    &&& item.ip_address == log.ip_address
    &&& item.city == log.city
    &&& item.country == log.country
    &&& item.was_successful == (log.failed_login_attempts == 0)
    &&& item.failed_login_attempts == log.failed_login_attempts
    &&& item.flagged_for_review == log.flagged_for_review
}

/// The history line of one entry.
pub fn history_item(log: &UserSecurityLog, now: i64) -> (r: UserLoginHistoryItem)
    ensures
        history_line(r, *log, now),
{
    UserLoginHistoryItem {
        id: log.log_id.clone(),
        timestamp: match log.created_at {
            Some(t) => t,
            None => now,
        },
        ip_address: log.ip_address.clone(),
        city: log.city.clone(),
        country: log.country.clone(),
        was_successful: log.failed_login_attempts == 0,
        failed_login_attempts: log.failed_login_attempts,
        flagged_for_review: log.flagged_for_review,
    }
}

/// The history lines of a page of entries, in the same order.
pub fn login_history(logs: &Vec<UserSecurityLog>, now: i64) -> (r: Vec<UserLoginHistoryItem>)
    ensures
        r@.len() == logs@.len(),
        forall|i: int| 0 <= i < logs@.len() ==> history_line(#[trigger] r@[i], logs@[i], now),
{
    let mut items: Vec<UserLoginHistoryItem> = Vec::new();
    let mut i: usize = 0;
    while i < logs.len()
        invariant
            i <= logs@.len(),
            items@.len() == i,
            forall|k: int| 0 <= k < i ==> history_line(#[trigger] items@[k], logs@[k], now),
        decreases logs@.len() - i,
    {
        items.push(history_item(&logs[i], now));
        i = i + 1;
    }
    items
}

/// The position of a page of `limit` results from `offset` among `total`.
pub fn pagination(total: i64, limit: i64, offset: i64) -> (r: Pagination)
    ensures
        r == (Pagination { total, limit, offset, has_more: offset + limit < total }),
{
    let has_more = (offset as i128 + limit as i128) < total as i128;
    Pagination { total, limit, offset, has_more }
}

/// The total to report with a page: the store's count when it could be read,
/// else the number of results shown.
pub fn reported_total(count: Option<i64>, shown: usize) -> (r: i64)
    requires
        shown <= i64::MAX,
    ensures
        r == match count {
            Some(c) => c as int,
            None => shown as int,
        },
{
    match count {
        Some(c) => c,
        None => shown as i64,
    }
}

impl LoginHistoryQuery {
    /// The page size asked for, or the default.
    pub fn page_limit(&self) -> (r: i64)
        ensures
            r == match self.limit {
                Some(l) => l,
                None => HISTORY_PAGE_DEFAULT,
            },
    {
        match self.limit {
            Some(l) => l,
            None => HISTORY_PAGE_DEFAULT,
        }
    }

    /// The offset asked for, or the start.
    pub fn page_offset(&self) -> (r: i64)
        ensures
            r == match self.offset {
                Some(o) => o,
                None => 0,
            },
    {
        match self.offset {
            Some(o) => o,
            None => 0,
        }
    }
}

impl FlaggedUserQuery {
    /// The page size asked for, or the default.
    pub fn page_limit(&self) -> (r: i64)
        ensures
            r == match self.limit {
                Some(l) => l,
                None => FLAGGED_PAGE_DEFAULT,
            },
    {
        match self.limit {
            Some(l) => l,
            None => FLAGGED_PAGE_DEFAULT,
        }
    }

    /// The offset asked for, or the start.
    pub fn page_offset(&self) -> (r: i64)
        ensures
            r == match self.offset {
                Some(o) => o,
                None => 0,
            },
    {
        match self.offset {
            Some(o) => o,
            None => 0,
        }
    }
}

} // verus!
