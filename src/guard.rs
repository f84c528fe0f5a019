//! The request guard: finds the bearer credential of a request, verifies it,
//! and checks the roles and keys that privileged endpoints ask for.

use crate::session::{claims_verdict, session_claims_of, verify_session_token};
use crate::users::{role_text, Role, User};
use vstd::prelude::*;

verus! {

/// The identity a request was authenticated as.
pub struct JwtMiddleware {
    pub user_id: String,
}

/// Why the guard turned a request away.
#[derive(PartialEq, Eq, Structural, Clone, Copy, Debug)]
pub enum AuthError {
    /// Neither the cookie nor the header held a credential.
    NoToken,
    /// A credential was there, but did not verify.
    InvalidToken,
}

/// Why a privileged endpoint refused an authenticated user.
#[derive(PartialEq, Eq, Structural, Clone, Copy, Debug)]
pub enum RoleError {
    /// The user exists but is no administrator.
    Forbidden,
    /// The user could not be found; reported vaguely on purpose.
    Unauthorized,
}

/// Why a request with an API key was refused.
#[derive(PartialEq, Eq, Structural, Clone, Copy, Debug)]
pub enum ApiKeyError {
    Missing,
    Invalid,
}

/// The scheme word that opens an `Authorization` header.
pub open spec fn bearer_prefix() -> Seq<char> {
    seq!['B', 'e', 'a', 'r', 'e', 'r', ' ']
}

/// The token in an `Authorization` header: what follows the scheme word when
/// the header opens with it; a header of any other form carries none.
pub open spec fn header_token(header: Seq<char>) -> Option<Seq<char>> {
    if header.len() >= 7 && header.take(7) == bearer_prefix() {
        Some(header.skip(7))
    } else {
        None
    }
}

/// An optional string as plain characters.
pub open spec fn opt_chars(s: Option<&str>) -> Option<Seq<char>> {
    match s {
        Some(t) => Some(t@),
        None => None,
    }
}

/// The credential of a request: the `token` cookie if present, else the
/// token of an `Authorization: Bearer <token>` header.
pub open spec fn credential_of(cookie: Option<Seq<char>>, authorization: Option<Seq<char>>) -> Option<
    Seq<char>,
> {
    match cookie {
        Some(c) => Some(c),
        None => match authorization {
            Some(h) => header_token(h),
            None => None,
        },
    }
}

/// Whether `header` opens with the bearer scheme word.
fn has_bearer_prefix(header: &str) -> (r: bool)
    ensures
        r == (header@.len() >= 7 && header@.take(7) == bearer_prefix()),
{
    let n = header.unicode_len();
    if n < 7 {
        return false;
    }
    let expected: Vec<char> = vec!['B', 'e', 'a', 'r', 'e', 'r', ' '];
    assert(expected@ =~= bearer_prefix());
    let mut i: usize = 0;
    while i < 7
        invariant
            i <= 7,
            n == header@.len(),
            n >= 7,
            expected@ == bearer_prefix(),
            forall|j: int| 0 <= j < i ==> header@[j] == bearer_prefix()[j],
        decreases 7 - i,
    {
        if header.get_char(i) != expected[i] {
            assert(header@.take(7)[i as int] != bearer_prefix()[i as int]);
            return false;
        }
        i = i + 1;
    }
    assert(header@.take(7) =~= bearer_prefix());
    true
}

/// The credential of a request, from its `token` cookie (which wins) or its
/// `Authorization: Bearer <token>` header.
pub fn bearer_credential(cookie: Option<&str>, authorization: Option<&str>) -> (r: Option<String>)
    ensures
        match credential_of(opt_chars(cookie), opt_chars(authorization)) {
            Some(t) => r matches Some(s) && s@ == t,
            None => r is None,
        },
{
    match cookie {
        Some(c) => Some(c.to_owned()),
        None => match authorization {
            Some(h) => {
                if has_bearer_prefix(h) {
                    let n = h.unicode_len();
                    let rest = h.substring_char(7, n);
                    assert(rest@ =~= h@.skip(7));
                    Some(rest.to_owned())
                } else {
                    None
                }
            },
            None => None,
        },
    }
}

/// What the guard decides on a request with these credentials at `now`.
pub open spec fn guard_verdict(
    cookie: Option<Seq<char>>,
    authorization: Option<Seq<char>>,
    secret: Seq<u8>,
    now: u64,
) -> Result<Seq<char>, AuthError> {
    match credential_of(cookie, authorization) {
        None => Err(AuthError::NoToken),
        Some(token) => match claims_verdict(session_claims_of(token, secret), now) {
            Ok(user) => Ok(user),
            Err(_) => Err(AuthError::InvalidToken),
        },
    }
}

/// A guard decision with the user id as plain characters.
pub open spec fn guard_view(r: Result<JwtMiddleware, AuthError>) -> Result<Seq<char>, AuthError> {
    match r {
        Ok(m) => Ok(m.user_id@),
        Err(e) => Err(e),
    }
}

/// Authenticates a request: no credential is `NoToken`; a credential that
/// does not verify (bad, tampered or expired) is `InvalidToken`; otherwise the
/// user the token was minted for.
pub fn authenticate(cookie: Option<&str>, authorization: Option<&str>, secret: &[u8], now: u64) -> (r:
    Result<JwtMiddleware, AuthError>)
    ensures
        guard_view(r) == guard_verdict(opt_chars(cookie), opt_chars(authorization), secret@, now),
{
    match bearer_credential(cookie, authorization) {
        None => Err(AuthError::NoToken),
        Some(token) => match verify_session_token(token.as_str(), secret, now) {
            Ok(user_id) => Ok(JwtMiddleware { user_id }),
            Err(_) => Err(AuthError::InvalidToken),
        },
    }
}

impl AuthError {
    /// The HTTP status of this refusal.
    pub fn status_code(&self) -> (r: u16)
        ensures
            r == 401,
    {
        401
    }

    /// The message sent with this refusal.
    pub fn message(&self) -> (r: String)
        ensures
            *self == AuthError::NoToken ==> r@ == "Access denied. No token found"@,
            *self == AuthError::InvalidToken ==> r@ == "Invalid token"@,
    {
        match self {
            AuthError::NoToken => "Access denied. No token found".to_owned(),
            AuthError::InvalidToken => "Invalid token".to_owned(),
        }
    }
}

/// Checks that the user behind a privileged request is an administrator;
/// `user` is the record looked up by the authenticated id.
pub fn verify_admin_role(user: Option<&User>) -> (r: Result<(), RoleError>)
    ensures
        match user {
            None => r == Err::<(), RoleError>(RoleError::Unauthorized),
            Some(u) => if u.role@ == role_text(Role::Admin) {
                r is Ok
            } else {
                r == Err::<(), RoleError>(RoleError::Forbidden)
            },
        },
{
    match user {
        None => Err(RoleError::Unauthorized),
        Some(u) => {
            let admin = Role::Admin.as_string();
            if u.role == admin {
                Ok(())
            } else {
                Err(RoleError::Forbidden)
            }
        },
    }
}

/// Checks the `x-api-key` header of a request against the expected key.
pub fn check_api_key(provided: Option<&str>, expected: &str) -> (r: Result<(), ApiKeyError>)
    ensures
        match provided {
            None => r == Err::<(), ApiKeyError>(ApiKeyError::Missing),
            Some(p) => if p@ == expected@ {
                r is Ok
            } else {
                r == Err::<(), ApiKeyError>(ApiKeyError::Invalid)
            },
        },
{
    match provided {
        None => Err(ApiKeyError::Missing),
        Some(p) => {
            if p.to_owned() == expected.to_owned() {
                Ok(())
            } else {
                Err(ApiKeyError::Invalid)
            }
        },
    }
}

/// The canonical (hyphenated, lower-case) text of the UUID written in `s`, if
/// `s` is one.
pub uninterp spec fn uuid_text_of(s: Seq<char>) -> Option<Seq<char>>;

/// Relies on uuid's `Uuid::parse_str` and the `Display` of `Uuid`: the
/// canonical text of `s` when it parses as a UUID.
#[verifier::external_body]
fn canonical_uuid(s: &str) -> (r: Option<String>)
    ensures
        match r {
            Some(t) => uuid_text_of(s@) == Some(t@),
            None => uuid_text_of(s@) is None,
        },
{
    match uuid::Uuid::parse_str(s) {
        Ok(id) => Some(id.to_string()),
        Err(_) => None,
    }
}

/// The user id of a request for the security log: the authenticated user's
/// id, if the request authenticates and that id is a UUID.
pub fn session_user_uuid(
    cookie: Option<&str>,
    authorization: Option<&str>,
    secret: &[u8],
    now: u64,
) -> (r: Option<String>)
    ensures
        match guard_verdict(opt_chars(cookie), opt_chars(authorization), secret@, now) {
            Ok(user) => if uuid_text_of(user) is Some {
                r matches Some(s) && s@ == user
            } else {
                r is None
            },
            Err(_) => r is None,
        },
{
    match authenticate(cookie, authorization, secret, now) {
        Ok(m) => match canonical_uuid(m.user_id.as_str()) {
            Some(_) => Some(m.user_id),
            None => None,
        },
        Err(_) => None,
    }
}

} // verus!
