//! Session tokens: HS256-signed JWTs carrying a subject and an expiry.

use vstd::prelude::*;

use crate::middleware::Rejection;

verus! {

/// Seconds for which a freshly issued token stays valid.
pub const VALIDITY_SECS: u64 = 3600;

/// The latest issuance time whose expiry still fits in a `u64`.
pub const LATEST_ISSUE_TIME: u64 = u64::MAX - VALIDITY_SECS;

/// The signed payload of a session token: the subject it was issued for and
/// the Unix time, in seconds, from which it is no longer accepted.
#[derive(Debug)]
pub struct Claims {
    pub sub: String,
    pub exp: u64,
}

impl View for Claims {
    type V = (Seq<char>, u64);

    open spec fn view(&self) -> (Seq<char>, u64) {
        (self.sub@, self.exp)
    }
}

/// The claims that a token yields once its HS256 signature checks out under
/// `secret` (expiry not yet considered); `None` for a token that is
/// malformed, wrongly signed, or lacks a string `sub` or an integer `exp`.
pub uninterp spec fn jwt_claims_of(token: Seq<char>, secret: Seq<u8>) -> Option<(Seq<char>, u64)>;

/// The text of the token that signs claims `sub` and `exp` under `secret`:
/// a fixed header, the claims as JSON with sorted keys, and their HMAC, so
/// the same three values always give the same token.
pub uninterp spec fn jwt_text_of(sub: Seq<char>, exp: u64, secret: Seq<u8>) -> Seq<char>;

/// Relies on jsonwebtoken::encode of a serde_json object with the default
/// (HS256) header and an HMAC key: it cannot fail for a string and an
/// integer claim, and
/// jsonwebtoken::decode under the same secret gives the same two claims back.
#[verifier::external_body]
fn jwt_encode(sub: &str, exp: u64, secret: &[u8]) -> (r: Option<String>)
    ensures
        r is Some,
        r matches Some(t) ==> t@ == jwt_text_of(sub@, exp, secret@),
        r matches Some(t) ==> jwt_claims_of(t@, secret@) == Some((sub@, exp)),
{
    let mut claims = serde_json::Map::new();
    claims.insert("sub".to_string(), serde_json::Value::from(sub));
    claims.insert("exp".to_string(), serde_json::Value::from(exp));
    let key = jsonwebtoken::EncodingKey::from_secret(secret);
    jsonwebtoken::encode(&jsonwebtoken::Header::default(), &claims, &key).ok()
}

/// Relies on jsonwebtoken::decode into a serde_json object, checking the
/// HS256 signature and the presence of `exp` but not the clock, so that the
/// result depends on the token and the secret alone.
#[verifier::external_body]
fn jwt_decode(token: &str, secret: &[u8]) -> (r: Option<Claims>)
    ensures
        r matches Some(c) ==> jwt_claims_of(token@, secret@) == Some(c@),
        r is None ==> jwt_claims_of(token@, secret@) is None,
{
    let mut validation = jsonwebtoken::Validation::new(jsonwebtoken::Algorithm::HS256);
    validation.validate_exp = false;
    let key = jsonwebtoken::DecodingKey::from_secret(secret);
    let data = jsonwebtoken::decode::<serde_json::Map<String, serde_json::Value>>(token, &key, &validation).ok()?;
    let sub = data.claims.get("sub")?.as_str()?.to_string();
    let exp = data.claims.get("exp")?.as_u64()?;
    Some(Claims { sub, exp })
}

/// Relies on std::time::SystemTime::now, measured from UNIX_EPOCH: the whole
/// seconds since 1970, or `None` when the system clock reads earlier. Nothing
/// is known of the value itself.
#[verifier::external_body]
pub(crate) fn unix_time_now() -> (r: Option<u64>) {
    std::time::SystemTime::now().duration_since(std::time::UNIX_EPOCH).ok().map(|d| d.as_secs())
}

/// What verification makes of decoded claims at time `now`: the subject
/// while `now` is before the expiry, `InvalidToken` otherwise.
pub open spec fn claims_verdict(claims: Option<(Seq<char>, u64)>, now: u64) -> Result<Seq<char>, Rejection> {
    match claims {
        Some(c) => if now < c.1 { Ok(c.0) } else { Err(Rejection::InvalidToken) },
        None => Err(Rejection::InvalidToken),
    }
}

/// What verifying `token` under `secret` at time `now` yields.
pub open spec fn token_verdict(token: Seq<char>, secret: Seq<u8>, now: u64) -> Result<Seq<char>, Rejection> {
    claims_verdict(jwt_claims_of(token, secret), now)
}

/// The view of a verification result: the subject's characters, or the rejection.
pub open spec fn subject_view(r: Result<String, Rejection>) -> Result<Seq<char>, Rejection> {
    match r {
        Ok(s) => Ok(s@),
        Err(e) => Err(e),
    }
}

/// The view of optional claims.
pub open spec fn claims_view(c: Option<Claims>) -> Option<(Seq<char>, u64)> {
    match c {
        Some(c) => Some(c@),
        None => None,
    }
}

/// Decides on claims already read from a well-signed token: the subject if
/// `now` is strictly before the expiry, `InvalidToken` otherwise.
pub fn check_claims(claims: Option<Claims>, now: u64) -> (r: Result<String, Rejection>)
    ensures
        subject_view(r) == claims_verdict(claims_view(claims), now),
{
    match claims {
        Some(c) => {
            if now < c.exp {
                Ok(c.sub)
            } else {
                Err(Rejection::InvalidToken)
            }
        },
        None => Err(Rejection::InvalidToken),
    }
}

/// The configuration-time signing secret, shared by issuance and verification.
pub struct TokenAuthority {
    secret: Vec<u8>,
}

/// The signing secret is missing or empty.
#[derive(Debug, Clone, Copy, PartialEq, Eq, Structural)]
pub enum ConfigError {
    MissingSecret,
}

impl View for TokenAuthority {
    type V = Seq<u8>;

    closed spec fn view(&self) -> Seq<u8> {
        self.secret@
    }
}

impl TokenAuthority {
    /// Accepts any non-empty secret; an empty one is refused.
    pub fn from_secret(secret: &[u8]) -> (r: Result<TokenAuthority, ConfigError>)
        ensures
            secret@.len() == 0 ==> r == Err::<TokenAuthority, ConfigError>(ConfigError::MissingSecret),
            secret@.len() > 0 ==> (r matches Ok(a) && a@ == secret@),
    {
        if secret.len() == 0 {
            Err(ConfigError::MissingSecret)
        } else {
            let a = TokenAuthority { secret: vstd::slice::slice_to_vec(secret) };
            proof {
                assert(a@ == secret@);
            }
            Ok(a)
        }
    }

    /// Signs a token for `subject` that expires `VALIDITY_SECS` after `now`;
    /// verifying it at `now` gives `subject` back.
    pub fn issue_at(&self, subject: &str, now: u64) -> (r: String)
        requires
            now <= LATEST_ISSUE_TIME,
        ensures
            r@ == jwt_text_of(subject@, (now + VALIDITY_SECS) as u64, self@),
            jwt_claims_of(r@, self@) == Some((subject@, (now + VALIDITY_SECS) as u64)),
            token_verdict(r@, self@, now) == Ok::<Seq<char>, Rejection>(subject@),
    {
        let exp: u64 = now + VALIDITY_SECS;
        match jwt_encode(subject, exp, self.secret.as_slice()) {
            Some(t) => t,
            None => unreached(),
        }
    }

    /// Checks the signature, the structure and that `now` is before the
    /// expiry; every failure is the same `InvalidToken`.
    pub fn verify_at(&self, token: &str, now: u64) -> (r: Result<String, Rejection>)
        ensures
            subject_view(r) == token_verdict(token@, self@, now),
    {
        let claims = jwt_decode(token, self.secret.as_slice());
        check_claims(claims, now)
    }

    /// `verify_at` on the system clock; a clock set before 1970 rejects the token.
    pub fn verify(&self, token: &str) -> (r: Result<String, Rejection>)
        ensures
            r is Err ==> r == Err::<String, Rejection>(Rejection::InvalidToken),
            r matches Ok(s) ==> (jwt_claims_of(token@, self@) matches Some(c) && c.0 == s@),
    {
        match unix_time_now() {
            Some(now) => self.verify_at(token, now),
            None => Err(Rejection::InvalidToken),
        }
    }
}

/// Issues a token for `user_id` on the system clock; `None` when the clock
/// reads before 1970 or too late for the expiry to be represented.
pub fn generate_jwt(authority: &TokenAuthority, user_id: &str) -> (r: Option<String>)
    ensures
        r matches Some(t) ==> (jwt_claims_of(t@, authority@) matches Some(c) && c.0 == user_id@
            && c.1 >= VALIDITY_SECS),
{
    match unix_time_now() {
        Some(now) => {
            if now <= LATEST_ISSUE_TIME {
                Some(authority.issue_at(user_id, now))
            } else {
                None
            }
        },
        None => None,
    }
}

/// A token is refused once its expiry has been reached, whatever its
/// signature: verification at or after the expiry is `InvalidToken`.
pub proof fn expired_token_is_rejected(token: Seq<char>, secret: Seq<u8>, now: u64)
    requires
        jwt_claims_of(token, secret) matches Some(c) ==> c.1 <= now,
    ensures
        token_verdict(token, secret, now) == Err::<Seq<char>, Rejection>(Rejection::InvalidToken),
{
}

} // verus!
