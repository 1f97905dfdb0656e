use auto_doc_backend::revocation::RevocationSet;

#[test]
fn revoked_token_is_reported_revoked() {
    let mut s = RevocationSet::new();
    assert!(!s.is_revoked("t1"));
    s.revoke("t1");
    assert!(s.is_revoked("t1"));
    assert!(!s.is_revoked("t2"));
    assert!(!s.is_revoked("t"));
    assert!(!s.is_revoked(""));
}

#[test]
fn revoking_twice_is_revoking_once() {
    let mut once = RevocationSet::new();
    once.revoke("t1");
    let mut twice = RevocationSet::new();
    twice.revoke("t1");
    twice.revoke("t1");
    assert_eq!(format!("{:?}", once), format!("{:?}", twice));
    assert!(twice.is_revoked("t1"));
}

#[test]
fn revocation_survives_later_revocations() {
    let mut s = RevocationSet::new();
    s.revoke("t1");
    for t in ["t2", "t3", "t1", "t4"] {
        s.revoke(t);
        assert!(s.is_revoked("t1"));
    }
    for t in ["t1", "t2", "t3", "t4"] {
        assert!(s.is_revoked(t));
    }
}
