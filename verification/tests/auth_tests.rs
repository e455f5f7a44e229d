use user_auth::auth::{create_token, create_token_at, validate_token, validate_token_at};

const SECRET: &[u8] = b"unit-test-signing-secret";

#[test]
fn issued_token_round_trips() {
    let t: u64 = 1_700_000_000;
    let token = create_token_at("alice", SECRET, t).unwrap();
    let claims = validate_token_at(&token, SECRET, t + 1).unwrap();
    assert_eq!(claims.sub, "alice");
    assert_eq!(claims.exp, t + 3600);
}

#[test]
fn expiry_bound_is_exclusive() {
    let t: u64 = 1_700_000_000;
    let token = create_token_at("alice", SECRET, t).unwrap();
    assert!(validate_token_at(&token, SECRET, t + 3599).is_ok());
    assert!(validate_token_at(&token, SECRET, t + 3600).is_err());
    assert!(validate_token_at(&token, SECRET, t + 3601).is_err());
}

#[test]
fn garbage_token_is_rejected() {
    assert!(validate_token_at("garbage", SECRET, 0).is_err());
    assert!(validate_token_at("", SECRET, 0).is_err());
    assert!(validate_token_at("a.b.c", SECRET, 0).is_err());
}

#[test]
fn wrong_secret_is_rejected() {
    let t: u64 = 1_700_000_000;
    let token = create_token_at("alice", SECRET, t).unwrap();
    assert!(validate_token_at(&token, b"other secret", t + 1).is_err());
}

#[test]
fn tampered_token_is_rejected() {
    let t: u64 = 1_700_000_000;
    let token = create_token_at("alice", SECRET, t).unwrap();
    let mut tampered = token.clone();
    tampered.pop();
    assert!(validate_token_at(&tampered, SECRET, t + 1).is_err());
}

#[test]
fn current_time_token_validates_now() {
    let token = create_token("bob", SECRET).unwrap();
    let claims = validate_token(&token, SECRET).unwrap();
    assert_eq!(claims.sub, "bob");
}
