use kharon_auth::otp::{
    generate_otp, minutes_rounded_up, plan_issue, send_new_otp, settle_verdict, validate_otp,
    IssuePlan, Otp, OtpIssue, OtpVerdict,
    OTP_CODE_MAX, OTP_CODE_MIN,
};

fn code(id: &str, user: &str, otp_code: i32, created_at: i64) -> Otp {
    Otp {
        otp_id: id.to_string(),
        otp_code,
        user_id: user.to_string(),
        created_at,
        expires_at: created_at + 120,
    }
}

#[test]
fn no_live_code_issues_fresh() {
    assert!(matches!(plan_issue(None, 1_000), IssuePlan::Fresh));
}

#[test]
fn recent_code_is_rate_limited_with_remaining_cooldown() {
    let live = code("o1", "u1", 123_456, 1_000);
    match plan_issue(Some(&live), 1_030) {
        IssuePlan::RateLimited { retry_after_seconds } => assert_eq!(retry_after_seconds, 90),
        _ => panic!("expected a rate limit"),
    }
}

#[test]
fn rate_limit_right_after_issuance_reports_full_cooldown() {
    let live = code("o1", "u1", 123_456, 1_000);
    match plan_issue(Some(&live), 1_000) {
        IssuePlan::RateLimited { retry_after_seconds } => assert_eq!(retry_after_seconds, 120),
        _ => panic!("expected a rate limit"),
    }
    match plan_issue(Some(&live), 1_119) {
        IssuePlan::RateLimited { retry_after_seconds } => assert_eq!(retry_after_seconds, 1),
        _ => panic!("expected a rate limit"),
    }
}

#[test]
fn code_past_cooldown_is_replaced() {
    let live = code("o1", "u1", 123_456, 1_000);
    match plan_issue(Some(&live), 1_120) {
        IssuePlan::ReplaceStale { stale_otp_id } => assert_eq!(stale_otp_id, "o1"),
        _ => panic!("expected a replacement"),
    }
}

#[test]
fn fresh_code_is_six_digits_and_lives_two_minutes() {
    for _ in 0..200 {
        let otp = send_new_otp("u1", 5_000);
        assert!(otp.otp_code >= OTP_CODE_MIN && otp.otp_code <= OTP_CODE_MAX);
        assert!(otp.otp_code >= 100_000 && otp.otp_code <= 999_999);
        assert_eq!(otp.user_id, "u1");
        assert_eq!(otp.created_at, 5_000);
        assert_eq!(otp.expires_at, 5_120);
    }
}

#[test]
fn generate_otp_follows_the_plan() {
    match generate_otp("u1", None, 10) {
        OtpIssue::Send(otp) => {
            assert_eq!(otp.user_id, "u1");
            assert_eq!(otp.expires_at, 130);
        }
        _ => panic!("expected a fresh code"),
    }
    let live = code("o9", "u1", 111_111, 0);
    match generate_otp("u1", Some(&live), 200) {
        OtpIssue::Replace { stale_otp_id, otp } => {
            assert_eq!(stale_otp_id, "o9");
            assert_eq!(otp.created_at, 200);
        }
        _ => panic!("expected a replacement"),
    }
    match generate_otp("u1", Some(&live), 60) {
        OtpIssue::RateLimited { retry_after_seconds } => assert_eq!(retry_after_seconds, 60),
        _ => panic!("expected a rate limit"),
    }
}

#[test]
fn validate_reports_each_verdict() {
    let live = code("o1", "u1", 424_242, 1_000);
    assert_eq!(validate_otp(None, 424_242, 1_010), OtpVerdict::NotFound);
    assert_eq!(validate_otp(Some(&live), 424_243, 1_010), OtpVerdict::Mismatch);
    assert_eq!(validate_otp(Some(&live), 424_242, 1_010), OtpVerdict::Consumed);
    assert_eq!(validate_otp(Some(&live), 424_242, 1_121), OtpVerdict::Expired);
}

#[test]
fn code_is_still_valid_at_its_expiry_instant() {
    let live = code("o1", "u1", 424_242, 1_000);
    assert_eq!(validate_otp(Some(&live), 424_242, 1_120), OtpVerdict::Consumed);
}

#[test]
fn expired_code_never_authenticates_even_when_it_matches() {
    let live = code("o1", "u1", 424_242, 1_000);
    let verdict = validate_otp(Some(&live), 424_242, 5_000);
    assert_eq!(verdict, OtpVerdict::Expired);
    assert!(verdict.removes_code());
}

#[test]
fn only_consumption_and_expiry_remove_the_code() {
    assert!(OtpVerdict::Consumed.removes_code());
    assert!(OtpVerdict::Expired.removes_code());
    assert!(!OtpVerdict::Mismatch.removes_code());
    assert!(!OtpVerdict::NotFound.removes_code());
}

#[test]
fn consumed_code_cannot_be_consumed_again() {
    let mut slot = Some(code("o1", "u1", 555_555, 1_000));
    let first = validate_otp(slot.as_ref(), 555_555, 1_010);
    assert_eq!(first, OtpVerdict::Consumed);
    if first.removes_code() {
        slot = None;
    }
    assert_eq!(validate_otp(slot.as_ref(), 555_555, 1_011), OtpVerdict::NotFound);
}

#[test]
fn mismatch_leaves_the_code_for_a_retry() {
    let mut slot = Some(code("o1", "u1", 555_555, 1_000));
    let first = validate_otp(slot.as_ref(), 111_111, 1_010);
    assert_eq!(first, OtpVerdict::Mismatch);
    if first.removes_code() {
        slot = None;
    }
    assert_eq!(validate_otp(slot.as_ref(), 555_555, 1_020), OtpVerdict::Consumed);
}

#[test]
fn losing_a_race_to_consume_sees_not_found() {
    assert_eq!(settle_verdict(OtpVerdict::Consumed, true), OtpVerdict::Consumed);
    assert_eq!(settle_verdict(OtpVerdict::Consumed, false), OtpVerdict::NotFound);
    assert_eq!(settle_verdict(OtpVerdict::Expired, false), OtpVerdict::Expired);
    assert_eq!(settle_verdict(OtpVerdict::Mismatch, false), OtpVerdict::Mismatch);
}

#[test]
fn cooldown_minutes_round_up() {
    assert_eq!(minutes_rounded_up(0), 0);
    assert_eq!(minutes_rounded_up(1), 1);
    assert_eq!(minutes_rounded_up(60), 1);
    assert_eq!(minutes_rounded_up(61), 2);
    assert_eq!(minutes_rounded_up(120), 2);
    assert_eq!(minutes_rounded_up(i64::MAX), i64::MAX / 60 + 1);
}
