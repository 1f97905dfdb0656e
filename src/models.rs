//! The bodies that the account routes read and write.

use vstd::prelude::*;

verus! {

/// A sign-up: credentials, e-mail and optional names.
#[derive(Debug)]
pub struct RegisterRequest {
    pub username: String,
    pub email: String,
    pub password: String,
    pub first_name: Option<String>,
    pub last_name: Option<String>,
}

/// The message of a successful sign-up.
pub const REGISTERED_TEXT: &'static str = "User created successfully";

#[derive(Debug)]
pub struct RegisterResponse {
    pub message: String,
}

impl RegisterResponse {
    pub fn success() -> (r: RegisterResponse)
        ensures
            r.message@ == REGISTERED_TEXT@,
    {
        RegisterResponse { message: REGISTERED_TEXT.to_owned() }
    }
}

/// A sign-in by e-mail (or user name) and password.
#[derive(Debug)]
pub struct LoginRequest {
    pub email: String,
    pub password: String,
}

/// The session token handed out at sign-in.
#[derive(Debug)]
pub struct LoginResponse {
    pub token: String,
}

/// A sign-out: the token to revoke.
#[derive(Debug)]
pub struct LogoutRequest {
    pub token: String,
}

/// What a user sees of their own account. `created_at` is in microseconds
/// since the Unix epoch.
#[derive(Debug)]
pub struct UserProfile {
    pub email: String,
    pub username: String,
    pub first_name: Option<String>,
    pub last_name: Option<String>,
    pub created_at: Option<i64>,
}

/// A change of profile: each field that is present replaces the stored one.
#[derive(Debug)]
pub struct UpdateProfileRequest {
    pub username: Option<String>,
    pub first_name: Option<String>,
    pub last_name: Option<String>,
    pub password: Option<String>,
}

} // verus!
