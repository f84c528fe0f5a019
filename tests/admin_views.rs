use kharon_auth::admin::{
    login_history, login_stats, lookup_email, pagination, reported_total, FlaggedUserQuery,
    LoginHistoryQuery, Pagination,
};
use kharon_auth::security::UserSecurityLog;

fn log(id: &str, failed: i32, flagged: bool, at: Option<i64>) -> UserSecurityLog {
    UserSecurityLog {
        log_id: id.to_string(),
        user_id: "u1".to_string(),
        ip_address: "1.2.3.4".to_string(),
        city: "c".to_string(),
        country: "k".to_string(),
        failed_login_attempts: failed,
        flagged_for_review: flagged,
        created_at: at,
    }
}

#[test]
fn stats_from_latest_entries() {
    let now = 1_000_000;
    let recent = vec![
        log("a", 1, true, Some(now - 10)),
        log("b", 1, false, Some(now - 100_000)),
        log("c", 0, false, Some(now - 200)),
        log("d", 1, false, Some(now - 300)),
        log("e", 0, false, Some(now - 400)),
    ];
    let stats = login_stats("u1".to_string(), 12, 5, &recent, now);
    assert_eq!(stats.user_id, "u1");
    assert_eq!(stats.total_logins, 12);
    assert_eq!(stats.failed_logins, 5);
    assert_eq!(stats.successful_logins, 7);
    assert_eq!(stats.last_successful_login, Some(now - 200));
    assert_eq!(stats.last_failed_login, Some(now - 10));
    assert!(stats.is_flagged_for_review);
    assert_eq!(stats.recent_failed_attempts, 2);
}

#[test]
fn stats_of_empty_history() {
    let stats = login_stats("u2".to_string(), 0, 0, &vec![], 50);
    assert_eq!(stats.successful_logins, 0);
    assert_eq!(stats.last_successful_login, None);
    assert_eq!(stats.last_failed_login, None);
    assert!(!stats.is_flagged_for_review);
    assert_eq!(stats.recent_failed_attempts, 0);
}

#[test]
fn first_matching_entry_without_time_gives_no_time() {
    let recent = vec![log("a", 0, false, None), log("b", 0, false, Some(5))];
    let stats = login_stats("u1".to_string(), 2, 0, &recent, 10);
    assert_eq!(stats.last_successful_login, None);
}

#[test]
fn recent_failures_saturate() {
    let now = 100;
    let recent = vec![
        log("a", i32::MAX, false, Some(now)),
        log("b", 5, false, Some(now)),
    ];
    let stats = login_stats("u1".to_string(), 2, 2, &recent, now);
    assert_eq!(stats.recent_failed_attempts, i32::MAX);
}

#[test]
fn history_lines_follow_entries() {
    let logs = vec![log("a", 1, true, Some(7)), log("b", 0, false, None)];
    let items = login_history(&logs, 99);
    assert_eq!(items.len(), 2);
    assert_eq!(items[0].id, "a");
    assert_eq!(items[0].timestamp, 7);
    assert!(!items[0].was_successful);
    assert!(items[0].flagged_for_review);
    assert_eq!(items[1].timestamp, 99);
    assert!(items[1].was_successful);
    assert_eq!(items[1].failed_login_attempts, 0);
}

#[test]
fn pagination_reports_more_pages() {
    assert_eq!(
        pagination(120, 50, 50),
        Pagination {
            total: 120,
            limit: 50,
            offset: 50,
            has_more: true
        }
    );
    assert!(!pagination(100, 50, 50).has_more);
    assert!(!pagination(10, i64::MAX, i64::MAX).has_more);
}

#[test]
fn query_defaults() {
    let q = LoginHistoryQuery {
        email: "A@X.com".to_string(),
        limit: None,
        offset: None,
        days_back: None,
    };
    assert_eq!(q.page_limit(), 50);
    assert_eq!(q.page_offset(), 0);
    let q = FlaggedUserQuery {
        limit: None,
        offset: Some(20),
    };
    assert_eq!(q.page_limit(), 100);
    assert_eq!(q.page_offset(), 20);
    let q = FlaggedUserQuery {
        limit: Some(7),
        offset: None,
    };
    assert_eq!(q.page_limit(), 7);
}

#[test]
fn reported_total_falls_back_to_shown() {
    assert_eq!(reported_total(Some(40), 3), 40);
    assert_eq!(reported_total(None, 3), 3);
}

#[test]
fn lookup_email_ignores_case() {
    assert_eq!(lookup_email("A@X.Com"), "a@x.com");
    assert_eq!(lookup_email(""), "");
}
