use kharon_auth::error::ApiError;
use kharon_auth::guard::{ApiKeyError, AuthError, RoleError};
use kharon_auth::users::{new_user_record, Role};

#[test]
fn every_failure_has_its_status() {
    assert_eq!(ApiError::ValidationFailure.status_code(), 400);
    assert_eq!(ApiError::NotFound.status_code(), 404);
    assert_eq!(ApiError::RateLimited { retry_after_seconds: 1 }.status_code(), 429);
    assert_eq!(ApiError::Expired.status_code(), 401);
    assert_eq!(ApiError::Unauthorized.status_code(), 401);
    assert_eq!(ApiError::Forbidden.status_code(), 403);
    assert_eq!(ApiError::UpstreamFailure.status_code(), 500);
    assert_eq!(ApiError::StorageFailure.status_code(), 500);
}

#[test]
fn refusals_map_to_failures() {
    assert_eq!(ApiError::from_auth(AuthError::InvalidToken), ApiError::Unauthorized);
    assert_eq!(ApiError::from_role(RoleError::Forbidden), ApiError::Forbidden);
    assert_eq!(ApiError::from_role(RoleError::Unauthorized), ApiError::Unauthorized);
    assert_eq!(ApiError::from_api_key(ApiKeyError::Missing), ApiError::Unauthorized);
}

#[test]
fn roles_have_their_stored_text() {
    assert_eq!(Role::Admin.as_string(), "Admin");
    assert_eq!(Role::User.as_string(), "user");
}

#[test]
fn new_users_get_distinct_hex_ids() {
    let a = new_user_record("a@x.com", None);
    let b = new_user_record("a@x.com", None);
    assert_eq!(a.id.len(), 32);
    assert!(a.id.chars().all(|c| c.is_ascii_digit() || ('a'..='f').contains(&c)));
    assert_ne!(a.id, b.id);
}
