//! Password hashing, through bcrypt at its default cost.

use vstd::prelude::*;

verus! {

/// Why a password could not be hashed or checked.
#[derive(Debug, Clone, Copy, PartialEq, Eq, Structural)]
pub enum PasswordError {
    /// The stored digest is not a bcrypt digest.
    MalformedDigest,
    /// No digest could be made (the system's randomness failed).
    HashingFailed,
}

/// What bcrypt's check of `password` against `digest` gives: whether they
/// match, or `None` when `digest` is not a well-formed bcrypt digest.
pub uninterp spec fn bcrypt_verdict_of(password: Seq<char>, digest: Seq<char>) -> Option<bool>;

/// The prefix of every digest made here: bcrypt version `2b`, cost 12.
pub open spec fn digest_prefix() -> Seq<char> {
    seq!['$', '2', 'b', '$', '1', '2', '$']
}

/// The form of a digest made here: the prefix, then 22 characters of salt
/// and 31 of hash, 60 in all.
pub open spec fn is_default_digest(d: Seq<char>) -> bool {
    d.len() == 60 && d.subrange(0, 7) == digest_prefix()
}

/// Relies on bcrypt::hash at bcrypt::DEFAULT_COST (12): a fresh random salt
/// each time, so of the digest only its form is known, and that
/// bcrypt::verify accepts the same password against it; fails only when
/// randomness fails.
#[verifier::external_body]
fn bcrypt_hash(password: &str) -> (r: Option<String>)
    ensures
        r matches Some(d) ==> is_default_digest(d@),
        r matches Some(d) ==> bcrypt_verdict_of(password@, d@) == Some(true),
{
    bcrypt::hash(password, bcrypt::DEFAULT_COST).ok()
}

/// Relies on bcrypt::verify: `Ok(matches)` for a well-formed digest, an
/// error for a malformed one; the result depends on the two strings alone.
#[verifier::external_body]
fn bcrypt_verify(password: &str, digest: &str) -> (r: Option<bool>)
    ensures
        r == bcrypt_verdict_of(password@, digest@),
{
    bcrypt::verify(password, digest).ok()
}

/// A one-way, salted digest of `password`, which `verify_password` accepts
/// for the same password.
pub fn hash_password(password: &str) -> (r: Result<String, PasswordError>)
    ensures
        r matches Ok(d) ==> is_default_digest(d@),
        r matches Ok(d) ==> bcrypt_verdict_of(password@, d@) == Some(true),
        r matches Err(e) ==> e == PasswordError::HashingFailed,
{
    match bcrypt_hash(password) {
        Some(d) => Ok(d),
        None => Err(PasswordError::HashingFailed),
    }
}

/// The outcome of a password check, as the library reports it.
pub open spec fn password_verdict(v: Option<bool>) -> Result<bool, PasswordError> {
    match v {
        Some(b) => Ok(b),
        None => Err(PasswordError::MalformedDigest),
    }
}

/// Whether `password` matches `digest`. A wrong password is `Ok(false)`;
/// only a malformed digest is an error.
pub fn verify_password(password: &str, digest: &str) -> (r: Result<bool, PasswordError>)
    ensures
        r == password_verdict(bcrypt_verdict_of(password@, digest@)),
{
    match bcrypt_verify(password, digest) {
        Some(b) => Ok(b),
        None => Err(PasswordError::MalformedDigest),
    }
}

} // verus!
