//! The per-request authorisation decision: bearer extraction, token
//! verification, the revocation check and subject parsing, in that order.

use vstd::prelude::*;
use vstd::string::*;

use crate::identity::{is_valid_subject, Identity};
use crate::revocation::{RevocationSet, StoreError};
use crate::token::{jwt_claims_of, subject_view, token_verdict, unix_time_now, TokenAuthority};

verus! {

/// Why a protected request was turned away.
#[derive(Debug, Clone, Copy, PartialEq, Eq, Structural)]
pub enum Rejection {
    /// No `Authorization` header, or one without the `Bearer ` scheme.
    MissingOrInvalidHeader,
    /// Malformed, wrongly signed or expired token; the cause is not told apart.
    InvalidToken,
    /// A valid token that was revoked before it expired.
    Revoked,
    /// A valid token whose subject is not a well-formed identity.
    MalformedSubject,
    /// The revocation status could not be read.
    StoreUnavailable,
}

/// Text of every authentication rejection; nothing tells the causes apart.
pub const UNAUTHORIZED_TEXT: &'static str = "Unauthorized";

/// Text of a rejection for want of the revocation store.
pub const UNAVAILABLE_TEXT: &'static str = "Service unavailable";

/// The HTTP status of each rejection: 401 for the authentication kinds,
/// 503 for an unavailable store.
pub open spec fn rejection_status(r: Rejection) -> u16 {
    match r {
        Rejection::StoreUnavailable => 503,
        _ => 401,
    }
}

/// The body of each rejection.
pub open spec fn rejection_text(r: Rejection) -> Seq<char> {
    match r {
        Rejection::StoreUnavailable => UNAVAILABLE_TEXT@,
        _ => UNAUTHORIZED_TEXT@,
    }
}

impl Rejection {
    /// Whether the rejection is the server's fault rather than the client's.
    pub fn is_server_error(&self) -> (r: bool)
        ensures
            r == (*self == Rejection::StoreUnavailable),
    {
        match self {
            Rejection::StoreUnavailable => true,
            _ => false,
        }
    }

    /// The HTTP status code of the rejection.
    pub fn status_code(&self) -> (r: u16)
        ensures
            r == rejection_status(*self),
    {
        match self {
            Rejection::StoreUnavailable => 503,
            _ => 401,
        }
    }

    /// The body of the rejection: the same for every authentication kind.
    pub fn message(&self) -> (r: &'static str)
        ensures
            r@ == rejection_text(*self),
    {
        match self {
            Rejection::StoreUnavailable => UNAVAILABLE_TEXT,
            _ => UNAUTHORIZED_TEXT,
        }
    }
}

/// A plain-text 401 body.
pub struct UnauthorizedMessage(pub &'static str);

impl UnauthorizedMessage {
    /// The message that goes with an authentication rejection.
    pub fn for_rejection(r: Rejection) -> (m: UnauthorizedMessage)
        requires
            r != Rejection::StoreUnavailable,
        ensures
            m.0@ == UNAUTHORIZED_TEXT@,
    {
        UnauthorizedMessage(UNAUTHORIZED_TEXT)
    }
}

/// The scheme prefix of a bearer credential.
pub open spec fn bearer_prefix() -> Seq<char> {
    seq!['B', 'e', 'a', 'r', 'e', 'r', ' ']
}

/// The token of an `Authorization` header value: what follows `Bearer `.
pub open spec fn bearer_token(h: Seq<char>) -> Option<Seq<char>> {
    if h.len() >= 7 && h.subrange(0, 7) == bearer_prefix() {
        Some(h.subrange(7, h.len() as int))
    } else {
        None
    }
}

/// The token of an optional header value.
pub open spec fn header_token(h: Option<Seq<char>>) -> Option<Seq<char>> {
    match h {
        Some(v) => bearer_token(v),
        None => None,
    }
}

/// The characters of an optional header value.
pub open spec fn header_view(h: Option<&str>) -> Option<Seq<char>> {
    match h {
        Some(v) => Some(v@),
        None => None,
    }
}

/// The first two steps: the header's bearer token and the subject it
/// verifies to, or the rejection of whichever step failed first.
pub open spec fn credential_verdict(h: Option<Seq<char>>, secret: Seq<u8>, now: u64) -> Result<(Seq<char>, Seq<char>), Rejection> {
    match header_token(h) {
        None => Err(Rejection::MissingOrInvalidHeader),
        Some(t) => match token_verdict(t, secret, now) {
            Ok(s) => Ok((t, s)),
            Err(e) => Err(e),
        },
    }
}

/// The last two steps for a verified subject, given the store's answer on
/// whether its token is revoked.
pub open spec fn revocation_verdict(subject: Seq<char>, revoked: Result<bool, StoreError>) -> Result<Seq<char>, Rejection> {
    match revoked {
        Err(_) => Err(Rejection::StoreUnavailable),
        Ok(true) => Err(Rejection::Revoked),
        Ok(false) => if is_valid_subject(subject) {
            Ok(subject)
        } else {
            Err(Rejection::MalformedSubject)
        },
    }
}

/// The whole decision for a request with header `h` at time `now`, where
/// `revoked` is the store's answer for the request's token (consulted only
/// once the token has verified): the authorised subject, or the rejection.
pub open spec fn request_verdict(h: Option<Seq<char>>, secret: Seq<u8>, now: u64, revoked: Result<bool, StoreError>) -> Result<Seq<char>, Rejection> {
    match credential_verdict(h, secret, now) {
        Err(e) => Err(e),
        Ok(c) => revocation_verdict(c.1, revoked),
    }
}

/// The store's answer for the token of header `h`, when the store is the set `s`.
pub open spec fn status_in(s: Set<Seq<char>>, h: Option<Seq<char>>) -> Result<bool, StoreError> {
    match header_token(h) {
        Some(t) => Ok(s.contains(t)),
        None => Ok(false),
    }
}

/// The bearer token of the `Authorization` header value, if it has the
/// `Bearer ` scheme.
pub fn extract_token(header: Option<&str>) -> (r: Result<String, Rejection>)
    ensures
        match header_token(header_view(header)) {
            Some(t) => r matches Ok(s) && s@ == t,
            None => r == Err::<String, Rejection>(Rejection::MissingOrInvalidHeader),
        },
{
    let h = match header {
        Some(h) => h,
        None => return Err(Rejection::MissingOrInvalidHeader),
    };
    let n = h.unicode_len();
    if n < 7 {
        return Err(Rejection::MissingOrInvalidHeader);
    }
    let ghost p = h@.subrange(0, 7);
    proof {
        assert(forall|k: int| 0 <= k < 7 ==> p[k] == h@[k]);
    }
    if h.get_char(0) == 'B' && h.get_char(1) == 'e' && h.get_char(2) == 'a' && h.get_char(3) == 'r'
        && h.get_char(4) == 'e' && h.get_char(5) == 'r' && h.get_char(6) == ' ' {
        proof {
            assert(p =~= bearer_prefix());
        }
        Ok(h.substring_char(7, n).to_owned())
    } else {
        proof {
            if p == bearer_prefix() {
                assert(p[0] == 'B' && p[1] == 'e' && p[2] == 'a' && p[3] == 'r');
                assert(p[4] == 'e' && p[5] == 'r' && p[6] == ' ');
            }
        }
        Err(Rejection::MissingOrInvalidHeader)
    }
}

/// A request whose token has verified, waiting for its revocation status.
pub struct VerifiedToken {
    token: String,
    subject: String,
}

impl View for VerifiedToken {
    type V = (Seq<char>, Seq<char>);

    closed spec fn view(&self) -> (Seq<char>, Seq<char>) {
        (self.token@, self.subject@)
    }
}

impl VerifiedToken {
    /// The raw token, as the revocation store keys it.
    pub fn token(&self) -> (r: &str)
        ensures
            r@ == self@.0,
    {
        self.token.as_str()
    }

    /// The subject that the token verified to.
    pub fn subject(&self) -> (r: &str)
        ensures
            r@ == self@.1,
    {
        self.subject.as_str()
    }
}

/// What became of a protected request.
#[derive(Debug)]
pub enum AuthOutcome {
    /// The handler runs, with this identity in its context.
    Authorized(Identity),
    /// The request ends here.
    Rejected(Rejection),
}

/// The authorised subject, or the rejection.
pub open spec fn outcome_view(o: AuthOutcome) -> Result<Seq<char>, Rejection> {
    match o {
        AuthOutcome::Authorized(id) => Ok(id@),
        AuthOutcome::Rejected(r) => Err(r),
    }
}

/// Extracts the bearer token and verifies it at time `now`. Nothing reaches
/// the revocation store unless this succeeds.
pub fn begin_request_at(authority: &TokenAuthority, header: Option<&str>, now: u64) -> (r: Result<VerifiedToken, Rejection>)
    ensures
        match credential_verdict(header_view(header), authority@, now) {
            Ok(c) => r matches Ok(v) && v@ == c,
            Err(e) => r == Err::<VerifiedToken, Rejection>(e),
        },
{
    let token = match extract_token(header) {
        Ok(t) => t,
        Err(e) => return Err(e),
    };
    let verdict = authority.verify_at(token.as_str(), now);
    proof {
        assert(subject_view(verdict) == token_verdict(token@, authority@, now));
    }
    match verdict {
        Ok(subject) => Ok(VerifiedToken { token, subject }),
        Err(e) => Err(e),
    }
}

/// `begin_request_at` on the system clock; a clock set before 1970 fails
/// every token as `InvalidToken`.
pub fn begin_request(authority: &TokenAuthority, header: Option<&str>) -> (r: Result<VerifiedToken, Rejection>)
    ensures
        header_token(header_view(header)) is None ==> r == Err::<VerifiedToken, Rejection>(Rejection::MissingOrInvalidHeader),
        header_token(header_view(header)) is Some ==> (r matches Err(e) ==> e == Rejection::InvalidToken),
        r matches Ok(v) ==> header_token(header_view(header)) == Some(v@.0) && (jwt_claims_of(v@.0, authority@) matches Some(c)
            && c.0 == v@.1),
{
    match unix_time_now() {
        Some(now) => begin_request_at(authority, header, now),
        None => match extract_token(header) {
            Ok(_) => Err(Rejection::InvalidToken),
            Err(e) => Err(e),
        },
    }
}

/// Finishes a verified request with the store's answer on its token: a
/// store failure is `StoreUnavailable`, a revoked token `Revoked`, a
/// subject that is not a well-formed identity `MalformedSubject`.
pub fn complete_request(verified: VerifiedToken, revoked: Result<bool, StoreError>) -> (r: AuthOutcome)
    ensures
        outcome_view(r) == revocation_verdict(verified@.1, revoked),
{
    match revoked {
        Err(_) => AuthOutcome::Rejected(Rejection::StoreUnavailable),
        Ok(true) => AuthOutcome::Rejected(Rejection::Revoked),
        Ok(false) => match Identity::parse(verified.subject.as_str()) {
            Some(id) => AuthOutcome::Authorized(id),
            None => AuthOutcome::Rejected(Rejection::MalformedSubject),
        },
    }
}

/// The whole decision against a revocation set held in memory.
pub fn authorize_at(authority: &TokenAuthority, header: Option<&str>, now: u64, store: &RevocationSet) -> (r: AuthOutcome)
    ensures
        outcome_view(r) == request_verdict(header_view(header), authority@, now, status_in(store@, header_view(header))),
{
    match begin_request_at(authority, header, now) {
        Err(e) => AuthOutcome::Rejected(e),
        Ok(v) => {
            let revoked = store.is_revoked(v.token());
            complete_request(v, Ok(revoked))
        },
    }
}

/// A request without an `Authorization` header is refused as such, whatever
/// the secret, the time and the store.
pub proof fn missing_header_is_rejected(secret: Seq<u8>, now: u64, revoked: Result<bool, StoreError>)
    ensures
        request_verdict(None, secret, now, revoked) == Err::<Seq<char>, Rejection>(Rejection::MissingOrInvalidHeader),
{
}

/// A bearer token that verifies but has been revoked is refused as `Revoked`.
pub proof fn revoked_token_is_rejected(h: Seq<char>, t: Seq<char>, secret: Seq<u8>, now: u64, revoked: Set<Seq<char>>)
    requires
        bearer_token(h) == Some(t),
        token_verdict(t, secret, now) is Ok,
        revoked.contains(t),
    ensures
        request_verdict(Some(h), secret, now, status_in(revoked, Some(h))) == Err::<Seq<char>, Rejection>(Rejection::Revoked),
{
}

/// A bearer token that verifies to a well-formed subject and is not revoked
/// is authorised, and the identity is that subject.
pub proof fn valid_token_is_authorized(h: Seq<char>, t: Seq<char>, s: Seq<char>, secret: Seq<u8>, now: u64, revoked: Set<Seq<char>>)
    requires
        bearer_token(h) == Some(t),
        token_verdict(t, secret, now) == Ok::<Seq<char>, Rejection>(s),
        !revoked.contains(t),
        is_valid_subject(s),
    ensures
        request_verdict(Some(h), secret, now, status_in(revoked, Some(h))) == Ok::<Seq<char>, Rejection>(s),
{
}

/// A request is authorised only with a bearer token whose signature checks
/// out, whose expiry is still ahead, which the store reports as not revoked,
/// and whose subject is a well-formed identity; the identity is that subject.
pub proof fn authorized_only_when_every_check_passes(h: Option<Seq<char>>, secret: Seq<u8>, now: u64, revoked: Result<bool, StoreError>, s: Seq<char>)
    requires
        request_verdict(h, secret, now, revoked) == Ok::<Seq<char>, Rejection>(s),
    ensures
        header_token(h) matches Some(t) && (jwt_claims_of(t, secret) matches Some(c) && c.0 == s && now < c.1),
        revoked == Ok::<bool, StoreError>(false),
        is_valid_subject(s),
{
}

} // verus!
