//! Session tokens: signed, stateless HS256 bearer credentials that carry the
//! user id and expire a day after issuance.

use serde_json::Value;
use std::collections::BTreeMap;
use vstd::prelude::*;

verus! {

/// Lifetime of a session token, in seconds.
pub const SESSION_LIFETIME_SECS: u64 = 86_400;

/// The claim set of a session token; times are Unix seconds.
pub struct TokenClaims {
    pub sub: String,
    pub iat: u64,
    pub exp: u64,
}

/// Why a token was not accepted.
#[derive(PartialEq, Eq, Structural, Clone, Copy, Debug)]
pub enum SessionError {
    /// Malformed, wrongly signed, or missing a claim; not told apart on purpose.
    Invalid,
    /// Well signed, but its expiry has passed.
    Expired,
}

/// The claims (subject, issued-at, expiry) that the HS256 token `token` carries
/// under `secret`, when its signature and shape are valid.
pub uninterp spec fn session_claims_of(token: Seq<char>, secret: Seq<u8>) -> Option<
    (Seq<char>, int, int),
>;

/// The error type of jsonwebtoken, which `encode` returns on failure.
#[verifier::external_type_specification]
#[verifier::external_body]
pub struct ExJwtError(jsonwebtoken::errors::Error);

/// Relies on jsonwebtoken::encode with the default (HS256) header and
/// `EncodingKey::from_secret`: the key matches the algorithm and a map of a
/// string and two integers always serializes, so encoding succeeds; the token
/// decodes under the same secret to exactly the claims it was given.
#[verifier::external_body]
fn encode_claims(sub: &str, iat: u64, exp: u64, secret: &[u8]) -> (r: Result<
    String,
    jsonwebtoken::errors::Error,
>)
    ensures
        r is Ok,
        r matches Ok(token) ==> session_claims_of(token@, secret@) == Some(
            (sub@, iat as int, exp as int),
        ),
{
    let claims = BTreeMap::from(
        [("sub", Value::from(sub)), ("iat", Value::from(iat)), ("exp", Value::from(exp))],
    );
    let key = jsonwebtoken::EncodingKey::from_secret(secret);
    jsonwebtoken::encode(&jsonwebtoken::Header::default(), &claims, &key)
}

/// Relies on jsonwebtoken::decode with HS256 and `DecodingKey::from_secret`,
/// its own expiry check switched off (expiry is judged by `check_claims`):
/// the claims of a token whose signature and shape are valid.
#[verifier::external_body]
fn decode_claims(token: &str, secret: &[u8]) -> (r: Option<TokenClaims>)
    ensures
        match r {
            None => session_claims_of(token@, secret@) is None,
            Some(c) => session_claims_of(token@, secret@) == Some(
                (c.sub@, c.iat as int, c.exp as int),
            ),
        },
{
    let mut validation = jsonwebtoken::Validation::default();
    validation.validate_exp = false;
    let key = jsonwebtoken::DecodingKey::from_secret(secret);
    let data = jsonwebtoken::decode::<BTreeMap<String, Value>>(token, &key, &validation).ok()?;
    Some(TokenClaims {
        sub: data.claims.get("sub")?.as_str()?.to_string(),
        iat: data.claims.get("iat")?.as_u64()?,
        exp: data.claims.get("exp")?.as_u64()?,
    })
}

/// The claims of a decoded token as plain values.
pub open spec fn claims_view(claims: Option<TokenClaims>) -> Option<(Seq<char>, int, int)> {
    match claims {
        Some(c) => Some((c.sub@, c.iat as int, c.exp as int)),
        None => None,
    }
}

/// The user a token resolves to at `now`, given what it decoded to.
pub open spec fn claims_verdict(claims: Option<(Seq<char>, int, int)>, now: u64) -> Result<
    Seq<char>,
    SessionError,
> {
    match claims {
        None => Err(SessionError::Invalid),
        Some((sub, _iat, exp)) => if now < exp {
            Ok(sub)
        } else {
            Err(SessionError::Expired)
        },
    }
}

/// A verification result with the user id as plain characters.
pub open spec fn verdict_view(r: Result<String, SessionError>) -> Result<Seq<char>, SessionError> {
    match r {
        Ok(user) => Ok(user@),
        Err(e) => Err(e),
    }
}

/// Judges decoded claims at `now`: the subject while the token is live.
pub fn check_claims(claims: Option<TokenClaims>, now: u64) -> (r: Result<String, SessionError>)
    ensures
        verdict_view(r) == claims_verdict(claims_view(claims), now),
{
    match claims {
        None => Err(SessionError::Invalid),
        Some(c) => if now < c.exp {
            Ok(c.sub)
        } else {
            Err(SessionError::Expired)
        },
    }
}

/// Mints a token for `user_id` issued at `now`, valid for a day.
pub fn mint_session_token(user_id: &str, now: u64, secret: &[u8]) -> (r: String)
    requires
        now <= u64::MAX - SESSION_LIFETIME_SECS,
    ensures
        session_claims_of(r@, secret@) == Some((user_id@, now as int, now + SESSION_LIFETIME_SECS)),
{
    match encode_claims(user_id, now, now + SESSION_LIFETIME_SECS, secret) {
        Ok(token) => token,
        Err(_) => {
            assert(false);
            String::new()
        },
    }
}

/// Verifies `token` under `secret` at `now`: the user id it was minted for,
/// `Expired` once its expiry has passed, `Invalid` for anything else.
pub fn verify_session_token(token: &str, secret: &[u8], now: u64) -> (r: Result<
    String,
    SessionError,
>)
    ensures
        verdict_view(r) == claims_verdict(session_claims_of(token@, secret@), now),
{
    check_claims(decode_claims(token, secret), now)
}

/// A token minted for a user at `issued` resolves to that user until a day has
/// passed, and is reported expired from then on.
pub proof fn lemma_minted_token_resolves(
    token: Seq<char>,
    secret: Seq<u8>,
    user: Seq<char>,
    issued: u64,
    now: u64,
)
    requires
        session_claims_of(token, secret) == Some(
            (user, issued as int, issued + SESSION_LIFETIME_SECS),
        ),
    ensures
        now < issued + SESSION_LIFETIME_SECS ==> claims_verdict(session_claims_of(token, secret), now)
            == Ok::<Seq<char>, SessionError>(user),
        now >= issued + SESSION_LIFETIME_SECS ==> claims_verdict(
            session_claims_of(token, secret),
            now,
        ) == Err::<Seq<char>, SessionError>(SessionError::Expired),
{
}

} // verus!
