use kharon_auth::session::{
    check_claims, mint_session_token, verify_session_token, SessionError, TokenClaims,
};

const SECRET: &[u8] = b"test-signing-secret";

#[test]
fn minted_token_resolves_to_its_user_within_a_day() {
    let token = mint_session_token("user-1", 1_700_000_000, SECRET);
    assert_eq!(
        verify_session_token(&token, SECRET, 1_700_000_000),
        Ok("user-1".to_string())
    );
    assert_eq!(
        verify_session_token(&token, SECRET, 1_700_000_000 + 86_399),
        Ok("user-1".to_string())
    );
}

#[test]
fn minted_token_expires_after_a_day() {
    let token = mint_session_token("user-1", 1_700_000_000, SECRET);
    assert_eq!(
        verify_session_token(&token, SECRET, 1_700_000_000 + 86_400),
        Err(SessionError::Expired)
    );
}

#[test]
fn token_with_altered_signature_is_invalid() {
    let token = mint_session_token("user-1", 1_700_000_000, SECRET);
    let mut bytes = token.into_bytes();
    let last = bytes.len() - 1;
    bytes[last] = if bytes[last] == b'A' { b'B' } else { b'A' };
    let tampered = String::from_utf8(bytes).unwrap();
    assert_eq!(
        verify_session_token(&tampered, SECRET, 1_700_000_100),
        Err(SessionError::Invalid)
    );
}

#[test]
fn token_under_another_secret_is_invalid() {
    let token = mint_session_token("user-1", 1_700_000_000, SECRET);
    assert_eq!(
        verify_session_token(&token, b"other-secret", 1_700_000_100),
        Err(SessionError::Invalid)
    );
}

#[test]
fn garbage_token_is_invalid() {
    assert_eq!(
        verify_session_token("not.a.token", SECRET, 0),
        Err(SessionError::Invalid)
    );
    assert_eq!(verify_session_token("", SECRET, 0), Err(SessionError::Invalid));
}

#[test]
fn minted_token_is_a_three_part_jwt() {
    let token = mint_session_token("user-1", 10, SECRET);
    assert_eq!(token.split('.').count(), 3);
    assert_ne!(token, "user-1");
}

#[test]
fn check_claims_judges_expiry() {
    let claims = || {
        Some(TokenClaims {
            sub: "u7".to_string(),
            iat: 100,
            exp: 200,
        })
    };
    assert_eq!(check_claims(claims(), 150), Ok("u7".to_string()));
    assert_eq!(check_claims(claims(), 199), Ok("u7".to_string()));
    assert_eq!(check_claims(claims(), 200), Err(SessionError::Expired));
    assert_eq!(check_claims(None, 150), Err(SessionError::Invalid));
}
