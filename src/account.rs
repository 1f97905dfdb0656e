//! Account records and the sign-up and sign-in decisions.

use vstd::prelude::*;
use vstd::arithmetic::power::*;
use vstd::arithmetic::div_mod::*;

use crate::errors::AppError;
use crate::identity::{is_subject_char, is_valid_subject};
use crate::models::{LoginResponse, RegisterRequest};
use crate::password::{bcrypt_verdict_of, password_verdict, verify_password, PasswordError};
use crate::text::{is_blank, is_blank_text, is_email_shape, is_valid_email};
use crate::token::{jwt_claims_of, token_verdict, unix_time_now, TokenAuthority, LATEST_ISSUE_TIME, VALIDITY_SECS};

verus! {

/// A stored account. `id` is the 128 bits of its UUID; the times are in
/// microseconds since the Unix epoch.
#[derive(Debug)]
pub struct User {
    pub id: u128,
    pub email: String,
    pub username: String,
    pub first_name: Option<String>,
    pub last_name: Option<String>,
    pub password_hash: String,
    pub role: String,
    pub created_at: Option<i64>,
    pub updated_at: Option<i64>,
}

pub open spec fn hex_digits() -> Seq<char> {
    seq!['0', '1', '2', '3', '4', '5', '6', '7', '8', '9', 'a', 'b', 'c', 'd', 'e', 'f']
}

/// The `k`-th hexadecimal digit of `id`, the most significant first.
pub open spec fn nibble(id: u128, k: int) -> int {
    (id as int / pow(16, (31 - k) as nat)) % 16
}

/// Which digit of the id stands at character `i` of its hyphenated form.
pub open spec fn uuid_digit_index(i: int) -> int {
    if i < 8 {
        i
    } else if i < 13 {
        i - 1
    } else if i < 18 {
        i - 2
    } else if i < 23 {
        i - 3
    } else {
        i - 4
    }
}

/// The hyphenated lower-case text of a UUID: 32 hexadecimal digits in
/// groups of 8, 4, 4, 4 and 12.
pub open spec fn uuid_text(id: u128) -> Seq<char> {
    Seq::new(
        36,
        |i: int|
            if i == 8 || i == 13 || i == 18 || i == 23 {
                '-'
            } else {
                hex_digits()[nibble(id, uuid_digit_index(i))]
            },
    )
}

/// Relies on uuid::Uuid (re-exported as sqlx::types::Uuid): from_u128 takes
/// the bits most significant first, and its Display is the hyphenated
/// lower-case form.
#[verifier::external_body]
fn uuid_hyphenated(id: u128) -> (r: String)
    ensures
        r@ == uuid_text(id),
{
    sqlx::types::Uuid::from_u128(id).to_string()
}

/// The text of a UUID is a well-formed subject.
pub proof fn uuid_text_is_valid_subject(id: u128)
    ensures
        is_valid_subject(uuid_text(id)),
{
    let s = uuid_text(id);
    assert forall|i: int| 0 <= i < s.len() implies is_subject_char(#[trigger] s[i]) by {
        if !(i == 8 || i == 13 || i == 18 || i == 23) {
            let k = uuid_digit_index(i);
            let p = pow(16, (31 - k) as nat);
            lemma_pow_positive(16, (31 - k) as nat);
            lemma_div_pos_is_pos(id as int, p);
            let n = nibble(id, k);
            assert(0 <= n < 16);
            assert(s[i] == hex_digits()[n]);
        }
    }
}

/// Message of a sign-up with a blank user name or password.
pub const BLANK_CREDENTIALS_TEXT: &'static str = "Username/password cannot be empty";

/// Message of a sign-up with a malformed e-mail address.
pub const INVALID_EMAIL_TEXT: &'static str = "Invalid email format";

/// Message of a failed sign-in; it does not say which part was wrong.
pub const INVALID_CREDENTIALS_TEXT: &'static str = "Invalid credentials";

/// Message of a sign-in against a stored digest that is not a bcrypt digest.
pub const BROKEN_DIGEST_TEXT: &'static str = "Failed to verify password";

/// Message of a sign-in when no token can be dated.
pub const NO_CLOCK_TEXT: &'static str = "Failed to create token";

/// Checks a sign-up before anything is stored: user name and password must
/// not be blank, and the e-mail address must have the shape of one.
pub fn check_registration(req: &RegisterRequest) -> (r: Result<(), AppError>)
    ensures
        (is_blank_text(req.username@) || is_blank_text(req.password@)) ==> (r matches Err(e)
            && e@ == (400u16, BLANK_CREDENTIALS_TEXT@)),
        !is_blank_text(req.username@) && !is_blank_text(req.password@) && !is_email_shape(req.email@)
            ==> (r matches Err(e) && e@ == (400u16, INVALID_EMAIL_TEXT@)),
        !is_blank_text(req.username@) && !is_blank_text(req.password@) && is_email_shape(req.email@)
            ==> r is Ok,
{
    if is_blank(req.username.as_str()) || is_blank(req.password.as_str()) {
        return Err(AppError::bad_request(BLANK_CREDENTIALS_TEXT));
    }
    if !is_valid_email(req.email.as_str()) {
        return Err(AppError::bad_request(INVALID_EMAIL_TEXT));
    }
    Ok(())
}

/// Finishes a sign-in of `user` once the password check has given `check`:
/// a match gets a token for the user's id issued at `now`, a mismatch is
/// 401, a broken stored digest 500.
pub fn login_with(authority: &TokenAuthority, user: &User, check: Result<bool, PasswordError>, now: u64) -> (r: Result<LoginResponse, AppError>)
    requires
        now <= LATEST_ISSUE_TIME,
    ensures
        check == Ok::<bool, PasswordError>(true) ==> (r matches Ok(resp)
            && jwt_claims_of(resp.token@, authority@) == Some((uuid_text(user.id), (now + VALIDITY_SECS) as u64))
            && token_verdict(resp.token@, authority@, now) == Ok::<Seq<char>, crate::middleware::Rejection>(uuid_text(user.id))
            && is_valid_subject(uuid_text(user.id))),
        check == Ok::<bool, PasswordError>(false) ==> (r matches Err(e) && e@ == (401u16, INVALID_CREDENTIALS_TEXT@)),
        check is Err ==> (r matches Err(e) && e@ == (500u16, BROKEN_DIGEST_TEXT@)),
{
    match check {
        Ok(true) => {
            let subject = uuid_hyphenated(user.id);
            proof {
                uuid_text_is_valid_subject(user.id);
            }
            let token = authority.issue_at(subject.as_str(), now);
            Ok(LoginResponse { token })
        },
        Ok(false) => Err(AppError::unauthorized(INVALID_CREDENTIALS_TEXT)),
        Err(_) => Err(AppError::internal_error(BROKEN_DIGEST_TEXT)),
    }
}

/// Signs `user` in with `password` at time `now`.
pub fn login_at(authority: &TokenAuthority, user: &User, password: &str, now: u64) -> (r: Result<LoginResponse, AppError>)
    requires
        now <= LATEST_ISSUE_TIME,
    ensures
        ({
            let check = password_verdict(bcrypt_verdict_of(password@, user.password_hash@));
            &&& check == Ok::<bool, PasswordError>(true) ==> (r matches Ok(resp)
                && jwt_claims_of(resp.token@, authority@) == Some((uuid_text(user.id), (now + VALIDITY_SECS) as u64)))
            &&& check == Ok::<bool, PasswordError>(false) ==> (r matches Err(e) && e@ == (401u16, INVALID_CREDENTIALS_TEXT@))
            &&& check is Err ==> (r matches Err(e) && e@ == (500u16, BROKEN_DIGEST_TEXT@))
        }),
{
    let check = verify_password(password, user.password_hash.as_str());
    login_with(authority, user, check, now)
}

/// Signs `user` in with `password` on the system clock. A wrong password is
/// 401 and a broken stored digest 500; a right one gets a token unless the
/// clock reads before 1970 or too late to date one, which is a 500.
pub fn login_user(authority: &TokenAuthority, user: &User, password: &str) -> (r: Result<LoginResponse, AppError>)
    ensures
        ({
            let check = password_verdict(bcrypt_verdict_of(password@, user.password_hash@));
            &&& check == Ok::<bool, PasswordError>(false) ==> (r matches Err(e) && e@ == (401u16, INVALID_CREDENTIALS_TEXT@))
            &&& check is Err ==> (r matches Err(e) && e@ == (500u16, BROKEN_DIGEST_TEXT@))
            &&& check == Ok::<bool, PasswordError>(true) ==> (r is Ok || (r matches Err(e) && e@ == (500u16,
                NO_CLOCK_TEXT@)))
            &&& r matches Ok(resp) ==> check == Ok::<bool, PasswordError>(true) && (jwt_claims_of(resp.token@, authority@) matches Some(c)
                && c.0 == uuid_text(user.id))
        }),
{
    let check = verify_password(password, user.password_hash.as_str());
    match check {
        Ok(true) => match unix_time_now() {
            Some(now) => {
                if now <= LATEST_ISSUE_TIME {
                    login_with(authority, user, check, now)
                } else {
                    Err(AppError::internal_error(NO_CLOCK_TEXT))
                }
            },
            None => Err(AppError::internal_error(NO_CLOCK_TEXT)),
        },
        Ok(false) => Err(AppError::unauthorized(INVALID_CREDENTIALS_TEXT)),
        Err(_) => Err(AppError::internal_error(BROKEN_DIGEST_TEXT)),
    }
}

} // verus!
