use auto_doc_backend::account::{check_registration, login_at, login_user, login_with, User};
use auto_doc_backend::errors::AppError;
use auto_doc_backend::models::{RegisterRequest, RegisterResponse};
use auto_doc_backend::password::{hash_password, verify_password, PasswordError};
use auto_doc_backend::text::{is_blank, is_valid_email};
use auto_doc_backend::token::TokenAuthority;

fn request(username: &str, email: &str, password: &str) -> RegisterRequest {
    RegisterRequest {
        username: username.to_string(),
        email: email.to_string(),
        password: password.to_string(),
        first_name: None,
        last_name: None,
    }
}

fn user(password_hash: &str) -> User {
    User {
        id: 0x67e5504410b1426f9247bb680e5fe0c8,
        email: "a@b.co".to_string(),
        username: "alice".to_string(),
        first_name: None,
        last_name: None,
        password_hash: password_hash.to_string(),
        role: "user".to_string(),
        created_at: None,
        updated_at: None,
    }
}

#[test]
fn email_shapes() {
    for ok in ["a@b.co", "first.last@mail.example.org", "x@y.z", "a@b..c", "a@.b.c"] {
        assert!(is_valid_email(ok), "{}", ok);
    }
    for bad in ["", "ab.co", "a@bco", "@b.co", "a@b.", "a@.co", "a@@b.co", "a b@c.de", "a@b.co ", "a@b@c.de", "a@b.co\n"] {
        assert!(!is_valid_email(bad), "{}", bad);
    }
}

#[test]
fn blank_strings() {
    assert!(is_blank(""));
    assert!(is_blank(" \t\n\u{3000}"));
    assert!(!is_blank(" a "));
}

#[test]
fn registration_is_checked_in_order() {
    assert!(check_registration(&request("alice", "a@b.co", "pw")).is_ok());
    let e = check_registration(&request("  ", "bad", "pw")).unwrap_err();
    assert_eq!((e.status_code(), e.message()), (400, "Username/password cannot be empty"));
    let e = check_registration(&request("alice", "a@b.co", "\t")).unwrap_err();
    assert_eq!((e.status_code(), e.message()), (400, "Username/password cannot be empty"));
    let e = check_registration(&request("alice", "not-an-address", "pw")).unwrap_err();
    assert_eq!((e.status_code(), e.message()), (400, "Invalid email format"));
}

#[test]
fn registration_response_message() {
    assert_eq!(RegisterResponse::success().message, "User created successfully");
}

#[test]
fn password_hash_round_trip() {
    let d = hash_password("hunter2").unwrap();
    assert_ne!(d, "hunter2");
    assert!(d.starts_with("$2b$12$"));
    assert_eq!(d.chars().count(), 60);
    assert_eq!(verify_password("hunter2", &d), Ok(true));
    assert_eq!(verify_password("hunter3", &d), Ok(false));
    assert_eq!(verify_password("hunter2", "not a digest"), Err(PasswordError::MalformedDigest));
}

#[test]
fn login_issues_a_token_for_the_user_id() {
    let a = TokenAuthority::from_secret(b"top-secret").unwrap();
    let u = user("unused");
    let r = login_with(&a, &u, Ok(true), 1_000).unwrap();
    assert_eq!(a.verify_at(&r.token, 1_000), Ok("67e55044-10b1-426f-9247-bb680e5fe0c8".to_string()));
    let e = login_with(&a, &u, Ok(false), 1_000).unwrap_err();
    assert_eq!((e.status_code(), e.message()), (401, "Invalid credentials"));
    let e = login_with(&a, &u, Err(PasswordError::MalformedDigest), 1_000).unwrap_err();
    assert_eq!((e.status_code(), e.message()), (500, "Failed to verify password"));
}

#[test]
fn login_checks_the_password() {
    let a = TokenAuthority::from_secret(b"top-secret").unwrap();
    let d = hash_password("pw").unwrap();
    let u = user(&d);
    let r = login_at(&a, &u, "pw", 1_000).unwrap();
    assert_eq!(a.verify_at(&r.token, 1_000), Ok("67e55044-10b1-426f-9247-bb680e5fe0c8".to_string()));
    let e = login_at(&a, &u, "wrong", 1_000).unwrap_err();
    assert_eq!(e.status_code(), 401);
    let r = login_user(&a, &u, "pw").unwrap();
    assert_eq!(a.verify(&r.token), Ok("67e55044-10b1-426f-9247-bb680e5fe0c8".to_string()));
    let zero = User { id: 0, ..user(&d) };
    let r = login_with(&a, &zero, Ok(true), 5).unwrap();
    assert_eq!(a.verify_at(&r.token, 5), Ok("00000000-0000-0000-0000-000000000000".to_string()));
}

#[test]
fn app_error_constructors() {
    let cases = [
        (AppError::bad_request("m"), 400),
        (AppError::unauthorized("m"), 401),
        (AppError::not_found("m"), 404),
        (AppError::internal_error("m"), 500),
        (AppError::new(418, "m".to_string()), 418),
    ];
    for (e, code) in cases {
        assert_eq!(e.status_code(), code);
        assert_eq!(e.message(), "m");
    }
    let e = AppError::from_rejection(auto_doc_backend::middleware::Rejection::StoreUnavailable);
    assert_eq!((e.status_code(), e.message()), (503, "Service unavailable"));
    let e = AppError::from_rejection(auto_doc_backend::middleware::Rejection::Revoked);
    assert_eq!((e.status_code(), e.message()), (401, "Unauthorized"));
}
