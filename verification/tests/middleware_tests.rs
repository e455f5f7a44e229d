use user_auth::auth::create_token_at;
use user_auth::middleware::{
    authorize_at, extract_bearer_token, issued_token_admission_window, GuardDecision, JwtValidator,
};

const SECRET: &[u8] = b"unit-test-signing-secret";

#[test]
fn extraction_cases() {
    assert!(extract_bearer_token(None).is_none());
    assert!(extract_bearer_token(Some("Token abc")).is_none());
    assert!(extract_bearer_token(Some("bearer abc")).is_none());
    assert!(extract_bearer_token(Some("Bearer")).is_none());
    assert!(extract_bearer_token(Some("Bearer ")).is_none());
    assert_eq!(extract_bearer_token(Some("Bearer abc")).unwrap(), "abc");
}

#[test]
fn missing_header_is_rejected() {
    assert_eq!(authorize_at(None, SECRET, 0), GuardDecision::Rejected);
}

#[test]
fn garbage_token_rejected_like_missing_header() {
    let with_garbage = authorize_at(Some("Bearer not-a-token"), SECRET, 0);
    let without_header = authorize_at(None, SECRET, 0);
    assert_eq!(with_garbage, GuardDecision::Rejected);
    assert_eq!(with_garbage, without_header);
}

#[test]
fn admission_window_of_an_issued_token() {
    let t: u64 = 1_700_000_000;
    let token = create_token_at("alice", SECRET, t).unwrap();
    let header = format!("Bearer {}", token);
    assert_eq!(
        authorize_at(Some(&header), SECRET, t + 59 * 60),
        GuardDecision::Admitted
    );
    assert_eq!(
        authorize_at(Some(&header), SECRET, t + 61 * 60),
        GuardDecision::Rejected
    );
    let pair = issued_token_admission_window("alice", SECRET, t).unwrap();
    assert_eq!(pair.0, GuardDecision::Admitted);
    assert_eq!(pair.1, GuardDecision::Rejected);
}

#[test]
fn expired_token_is_rejected_by_the_guard() {
    let t: u64 = 1_700_000_000;
    let token = create_token_at("alice", SECRET, t).unwrap();
    let header = format!("Bearer {}", token);
    assert_eq!(
        authorize_at(Some(&header), SECRET, t + 3600),
        GuardDecision::Rejected
    );
}

#[test]
fn middleware_guards_requests_at_the_current_time() {
    let guard = JwtValidator.new_transform("downstream");
    assert_eq!(guard.call(None, SECRET), GuardDecision::Rejected);
    assert_eq!(guard.call(Some("Bearer junk"), SECRET), GuardDecision::Rejected);
    let token = user_auth::auth::create_token("alice", SECRET).unwrap();
    let header = format!("Bearer {}", token);
    assert_eq!(guard.call(Some(&header), SECRET), GuardDecision::Admitted);
    assert_eq!(guard.service, "downstream");
}
