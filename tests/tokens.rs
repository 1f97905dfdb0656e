use auto_doc_backend::middleware::Rejection;
use auto_doc_backend::token::{check_claims, generate_jwt, Claims, ConfigError, TokenAuthority, LATEST_ISSUE_TIME, VALIDITY_SECS};

fn authority(secret: &str) -> TokenAuthority {
    TokenAuthority::from_secret(secret.as_bytes()).unwrap()
}

#[test]
fn empty_secret_is_refused() {
    assert!(matches!(TokenAuthority::from_secret(b""), Err(ConfigError::MissingSecret)));
    assert!(TokenAuthority::from_secret(b"k").is_ok());
}

#[test]
fn issued_token_verifies_to_its_subject() {
    let a = authority("top-secret");
    for s in ["u1", "", "a b \"quoted\" \\ é", "67e55044-10b1-426f-9247-bb680e5fe0c8"] {
        let t = a.issue_at(s, 1_700_000_000);
        assert_eq!(a.verify_at(&t, 1_700_000_000), Ok(s.to_string()));
    }
}

#[test]
fn token_is_a_signed_jwt_not_the_subject() {
    let a = authority("top-secret");
    let t = a.issue_at("u1", 1_700_000_000);
    assert_ne!(t, "u1");
    assert_eq!(t.split('.').count(), 3);
}

#[test]
fn token_expires_after_the_validity_window() {
    let a = authority("top-secret");
    let t0: u64 = 1_700_000_000;
    let t = a.issue_at("u1", t0);
    assert_eq!(VALIDITY_SECS, 3600);
    assert_eq!(a.verify_at(&t, t0 + 3599), Ok("u1".to_string()));
    assert_eq!(a.verify_at(&t, t0 + 3600), Err(Rejection::InvalidToken));
    assert_eq!(a.verify_at(&t, t0 + 100_000), Err(Rejection::InvalidToken));
}

#[test]
fn expired_token_with_wrong_signature_is_invalid_too() {
    let a = authority("top-secret");
    let b = authority("other-secret");
    let t = b.issue_at("u1", 10);
    assert_eq!(a.verify_at(&t, 10_000), Err(Rejection::InvalidToken));
}

#[test]
fn token_signed_with_another_secret_is_invalid() {
    let a = authority("top-secret");
    let b = authority("other-secret");
    let t = b.issue_at("u1", 1_700_000_000);
    assert_eq!(b.verify_at(&t, 1_700_000_000), Ok("u1".to_string()));
    assert_eq!(a.verify_at(&t, 1_700_000_000), Err(Rejection::InvalidToken));
}

#[test]
fn malformed_tokens_are_invalid() {
    let a = authority("top-secret");
    for t in ["", "garbage", "a.b.c", "Bearer x"] {
        assert_eq!(a.verify_at(t, 0), Err(Rejection::InvalidToken));
    }
    let t = a.issue_at("u1", 1_700_000_000);
    let mut tampered = t.clone();
    tampered.push('x');
    assert_eq!(a.verify_at(&tampered, 1_700_000_000), Err(Rejection::InvalidToken));
}

#[test]
fn latest_issue_time_still_verifies() {
    let a = authority("top-secret");
    let t = a.issue_at("u1", LATEST_ISSUE_TIME);
    assert_eq!(a.verify_at(&t, LATEST_ISSUE_TIME), Ok("u1".to_string()));
    assert_eq!(a.verify_at(&t, u64::MAX), Err(Rejection::InvalidToken));
}

#[test]
fn claims_are_checked_against_the_time() {
    let c = || Some(Claims { sub: "u1".to_string(), exp: 100 });
    assert_eq!(check_claims(c(), 99), Ok("u1".to_string()));
    assert_eq!(check_claims(c(), 100), Err(Rejection::InvalidToken));
    assert_eq!(check_claims(None, 0), Err(Rejection::InvalidToken));
}

#[test]
fn token_generated_now_verifies_now() {
    let a = authority("top-secret");
    let t = generate_jwt(&a, "u1").unwrap();
    assert_eq!(a.verify(&t), Ok("u1".to_string()));
    assert_eq!(a.verify("nonsense"), Err(Rejection::InvalidToken));
}

#[test]
fn issuing_is_deterministic() {
    let a = authority("top-secret");
    assert_eq!(a.issue_at("u1", 1_000), a.issue_at("u1", 1_000));
    assert_ne!(a.issue_at("u1", 1_000), a.issue_at("u1", 1_001));
    assert_ne!(a.issue_at("u1", 1_000), a.issue_at("u2", 1_000));
    assert_ne!(a.issue_at("u1", 1_000), authority("other").issue_at("u1", 1_000));
}
