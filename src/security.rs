//! Security events: one log entry per authentication outcome, with the
//! fraud-review flag computed from the user's cumulative failure count.

use vstd::prelude::*;

verus! {

/// Failures, counting the one being recorded, at which an account is flagged.
pub const FLAG_THRESHOLD: i64 = 3;

/// A stored security-log entry; `created_at` is in Unix seconds.
pub struct UserSecurityLog {
    pub log_id: String,
    pub user_id: String,
    pub ip_address: String,
    pub city: String,
    pub country: String,
    pub failed_login_attempts: i32,
    pub flagged_for_review: bool,
    pub created_at: Option<i64>,
}

/// A security-log entry about to be stored.
pub struct NewUserSecurityLog {
    pub user_id: String,
    pub ip_address: String,
    pub city: String,
    pub country: String,
    pub failed_login_attempts: i32,
    pub flagged_for_review: bool,
    pub created_at: i64,
}

/// Where an authentication attempt came from.
pub struct AttemptOrigin {
    pub ip_address: String,
    pub city: String,
    pub country: String,
}

/// Whether a failure, with `prior` failures already on record (`None` when the
/// count could not be read), crosses the threshold.
pub open spec fn crosses_threshold(prior: Option<i64>) -> bool {
    prior matches Some(p) && p + 1 >= FLAG_THRESHOLD
}

/// Whether the entry for an attempt is flagged for review.
pub open spec fn flag_on_record(success: bool, prior: Option<i64>) -> bool {
    !success && crosses_threshold(prior)
}

/// Whether `entry` records the given attempt from `origin` at `now`.
pub open spec fn records_attempt(
    entry: NewUserSecurityLog,
    user_id: Seq<char>,
    origin: AttemptOrigin,
    success: bool,
    now: i64,
) -> bool {
    &&& entry.user_id@ == user_id
    &&& entry.ip_address == origin.ip_address
    &&& entry.city == origin.city
    &&& entry.country == origin.country
    &&& entry.failed_login_attempts == if success {
        0i32
    } else {
        1i32
    }
    &&& entry.created_at == now
}

fn crosses(prior: Option<i64>) -> (r: bool)
    ensures
        r == crosses_threshold(prior),
{
    match prior {
        Some(p) => p >= FLAG_THRESHOLD - 1,
        None => false,
    }
}

/// The entry for an authentication attempt of `user_id` at `now`; `prior` is
/// the user's failure count read from the store before this attempt (`None`
/// when it could not be read). A success is never flagged.
pub fn login_attempt_entry(
    user_id: String,
    origin: AttemptOrigin,
    success: bool,
    prior: Option<i64>,
    now: i64,
) -> (r: NewUserSecurityLog)
    ensures
        records_attempt(r, user_id@, origin, success, now),
        r.flagged_for_review == flag_on_record(success, prior),
        success ==> !r.flagged_for_review,
{
    let failed_login_attempts: i32 = if success {
        0
    } else {
        1
    };
    let flagged_for_review = !success && crosses(prior);
    NewUserSecurityLog {
        user_id,
        ip_address: origin.ip_address,
        city: origin.city,
        country: origin.country,
        failed_login_attempts,
        flagged_for_review,
        created_at: now,
    }
}

/// Whether `needle` occurs in `hay` at position `i`.
pub open spec fn occurs_at(hay: Seq<char>, needle: Seq<char>, i: int) -> bool {
    0 <= i && i + needle.len() <= hay.len() && hay.subrange(i, i + needle.len()) == needle
}

/// Whether `needle` occurs anywhere in `hay`.
pub open spec fn contains_chars(hay: Seq<char>, needle: Seq<char>) -> bool {
    exists|i: int| occurs_at(hay, needle, i)
}

/// The characters of `s`.
fn chars_of(s: &str) -> (r: Vec<char>)
    ensures
        r@ == s@,
{
    let n = s.unicode_len();
    let mut v: Vec<char> = Vec::new();
    let mut i: usize = 0;
    while i < n
        invariant
            i <= n,
            n == s@.len(),
            v@ == s@.take(i as int),
        decreases n - i,
    {
        v.push(s.get_char(i));
        i = i + 1;
        assert(v@ =~= s@.take(i as int));
    }
    assert(v@ =~= s@);
    v
}

/// Whether `needle` occurs in `hay` at position `at`.
fn occurs_at_exec(hay: &Vec<char>, needle: &Vec<char>, at: usize) -> (r: bool)
    requires
        at + needle@.len() <= hay@.len(),
    ensures
        r == occurs_at(hay@, needle@, at as int),
{
    let m = needle.len();
    let mut j: usize = 0;
    while j < m
        invariant
            j <= m,
            m == needle@.len(),
            at + m <= hay.len(),
            forall|k: int| 0 <= k < j ==> hay@[at + k] == needle@[k],
        decreases m - j,
    {
        if hay[at + j] != needle[j] {
            assert(hay@.subrange(at as int, at + m)[j as int] != needle@[j as int]);
            return false;
        }
        j = j + 1;
    }
    assert(hay@.subrange(at as int, at + m) =~= needle@);
    true
}

/// Whether `needle` occurs anywhere in `hay`.
pub fn contains_str(hay: &str, needle: &str) -> (r: bool)
    ensures
        r == contains_chars(hay@, needle@),
{
    let h = chars_of(hay);
    let n = chars_of(needle);
    if n.len() > h.len() {
        assert forall|i: int| !occurs_at(hay@, needle@, i) by {}
        return false;
    }
    let last = h.len() - n.len();
    let mut i: usize = 0;
    loop
        invariant
            h@ == hay@,
            n@ == needle@,
            last == h@.len() - n@.len(),
            n@.len() <= h@.len(),
            i <= last,
            forall|k: int| 0 <= k < i ==> !occurs_at(hay@, needle@, k),
        ensures
            forall|k: int| 0 <= k <= last ==> !occurs_at(hay@, needle@, k),
        decreases last - i,
    {
        if occurs_at_exec(&h, &n, i) {
            return true;
        }
        if i == last {
            break;
        }
        i = i + 1;
    }
    assert forall|k: int| !occurs_at(hay@, needle@, k) by {
        if 0 <= k && k + needle@.len() <= hay@.len() {
            assert(k <= last);
        }
    }
    false
}

/// Whether a request path belongs to a login endpoint.
pub open spec fn is_login_path(path: Seq<char>) -> bool {
    contains_chars(path, "/auth"@) || contains_chars(path, "/validate-otp"@)
}

/// Whether a response to `path` with `status` is a failed login.
pub open spec fn spec_is_login_failure(path: Seq<char>, status: u16) -> bool {
    is_login_path(path) && (status == 401 || status == 403)
}

/// Whether a response to `path` with `status` is a failed login: a login
/// endpoint answered 401 or 403.
pub fn is_login_failure(path: &str, status: u16) -> (r: bool)
    ensures
        r == spec_is_login_failure(path@, status),
{
    (contains_str(path, "/auth") || contains_str(path, "/validate-otp")) && (status == 401 || status
        == 403)
}

/// Whether a request deletes something under the users endpoints.
pub open spec fn is_user_deletion(method: Seq<char>, path: Seq<char>) -> bool {
    method == "DELETE"@ && contains_chars(path, "/users"@)
}

/// The entry that the request logger records for a finished request: only a
/// failed login of a known user whose failure count could be read is
/// recorded. It is flagged when the threshold is crossed, or when the request
/// deletes under the users endpoints.
pub fn request_log_entry(
    user_id: Option<String>,
    path: &str,
    method: &str,
    status: u16,
    origin: AttemptOrigin,
    prior: Option<i64>,
    now: i64,
) -> (r: Option<NewUserSecurityLog>)
    ensures
        r is Some <==> (spec_is_login_failure(path@, status) && user_id is Some && prior is Some),
        r matches Some(entry) ==> (user_id matches Some(u) && records_attempt(
            entry,
            u@,
            origin,
            false,
            now,
        ) && entry.flagged_for_review == (crosses_threshold(prior) || is_user_deletion(
            method@,
            path@,
        ))),
{
    if !is_login_failure(path, status) {
        return None;
    }
    match (user_id, prior) {
        (Some(user_id), Some(_)) => {
            let deletion = method.to_owned() == "DELETE".to_owned() && contains_str(
                path,
                "/users",
            );
            let flagged_for_review = crosses(prior) || deletion;
            Some(
                NewUserSecurityLog {
                    user_id,
                    ip_address: origin.ip_address,
                    city: origin.city,
                    country: origin.country,
                    failed_login_attempts: 1,
                    flagged_for_review,
                    created_at: now,
                },
            )
        },
        _ => None,
    }
}

/// The sum of the failure markers of a user's entries: the cumulative count
/// that the store reports for that user.
pub open spec fn failed_total(history: Seq<UserSecurityLog>) -> int
    decreases history.len(),
{
    if history.len() == 0 {
        0
    } else {
        failed_total(history.drop_last()) + history.last().failed_login_attempts
    }
}

/// The number of a user's entries that record a failure.
pub open spec fn failure_entries(history: Seq<UserSecurityLog>) -> int
    decreases history.len(),
{
    if history.len() == 0 {
        0
    } else {
        failure_entries(history.drop_last()) + if history.last().failed_login_attempts > 0 {
            1int
        } else {
            0int
        }
    }
}

/// Whether every entry marks either a success (0) or a failure (1).
pub open spec fn markers_well_formed(history: Seq<UserSecurityLog>) -> bool {
    forall|i: int|
        0 <= i < history.len() ==> 0 <= #[trigger] history[i].failed_login_attempts <= 1
}

/// With well-formed markers, the cumulative count is the number of failures.
pub proof fn lemma_total_counts_failures(history: Seq<UserSecurityLog>)
    requires
        markers_well_formed(history),
    ensures
        failed_total(history) == failure_entries(history),
    decreases history.len(),
{
    if history.len() > 0 {
        let rest = history.drop_last();
        assert forall|i: int| 0 <= i < rest.len() implies 0 <= #[trigger] rest[i].failed_login_attempts
            <= 1 by {
            assert(rest[i] == history[i]);
        }
        lemma_total_counts_failures(rest);
        assert(0 <= history[history.len() - 1].failed_login_attempts <= 1);
    }
}

/// A user with three or more failures on record is flagged at the next
/// failure, whose entry is built from the store's count of them; a success is
/// never flagged, whatever the count.
pub proof fn lemma_accumulated_failures_flag(history: Seq<UserSecurityLog>, prior: i64)
    requires
        markers_well_formed(history),
        failure_entries(history) >= 3,
        prior == failed_total(history),
    ensures
        flag_on_record(false, Some(prior)),
        forall|count: Option<i64>| !flag_on_record(true, count),
{
    lemma_total_counts_failures(history);
}

} // verus!
