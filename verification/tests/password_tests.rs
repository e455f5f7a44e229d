use user_auth::password::{hash, hash_then_verify, verify};

#[test]
fn fresh_hash_verifies() {
    let h = hash("correct horse battery staple").unwrap();
    assert!(verify("correct horse battery staple", &h));
}

#[test]
fn hashing_twice_gives_different_encodings() {
    let h1 = hash("pw1").unwrap();
    let h2 = hash("pw1").unwrap();
    assert_ne!(h1, h2);
    assert!(verify("pw1", &h1));
    assert!(verify("pw1", &h2));
}

#[test]
fn wrong_password_does_not_verify() {
    let h = hash("p2").unwrap();
    assert!(!verify("p1", &h));
}

#[test]
fn empty_password_is_hashable() {
    let h = hash("").unwrap();
    assert!(verify("", &h));
    assert!(!verify("x", &h));
}

#[test]
fn malformed_hash_is_a_mismatch_not_an_error() {
    assert!(!verify("pw1", "not a bcrypt hash"));
    assert!(!verify("pw1", ""));
}

#[test]
fn hash_then_verify_reports_true() {
    assert_eq!(hash_then_verify("pw1").unwrap(), true);
}
