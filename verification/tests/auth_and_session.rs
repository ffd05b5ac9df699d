use base64::Engine;
use ghostlink::account::Account;
use ghostlink::auth::{
    account_id_from_token, authenticated_from_lookup, bearer_token, JwtClaims, TokenCheck,
    TOKEN_LIFETIME_SECS,
};
use ghostlink::error::AppError;
use ghostlink::protocol::WsMessage;
use ghostlink::session::{handshake_account, handshake_token, SessionState, WsSession, AUTH_TIMEOUT_SECS};

const ID_TEXT: &str = "550e8400-e29b-41d4-a716-446655440000";
const ID: u128 = 0x550e_8400_e29b_41d4_a716_4466_5544_0000;

fn account(id: u128, username: &str) -> Account {
    Account {
        id,
        username: username.to_string(),
        password_hash: String::new(),
        created_at_ms: 0,
        last_seen_at_ms: None,
    }
}

#[test]
fn claims_last_thirty_days() {
    let c = JwtClaims::for_account(ID, 1_700_000_000);
    assert_eq!(c.sub, ID_TEXT);
    assert_eq!(c.iat, 1_700_000_000);
    assert_eq!(c.exp, 1_700_000_000 + 30 * 24 * 3600);
    assert_eq!(TOKEN_LIFETIME_SECS, 2_592_000);
}

#[test]
fn bearer_header_carries_the_token() {
    assert_eq!(bearer_token(Some("Bearer abc.def.ghi")).unwrap(), "abc.def.ghi");
    assert_eq!(bearer_token(Some("Bearer ")).unwrap(), "");
}

#[test]
fn missing_or_foreign_authorization_is_invalid() {
    assert!(matches!(bearer_token(None), Err(AppError::TokenInvalid)));
    assert!(matches!(bearer_token(Some("Basic abc")), Err(AppError::TokenInvalid)));
    assert!(matches!(bearer_token(Some("bearer abc")), Err(AppError::TokenInvalid)));
    assert!(matches!(bearer_token(Some("Bearer")), Err(AppError::TokenInvalid)));
}

#[test]
fn token_subject_names_the_account() {
    let r = account_id_from_token(TokenCheck::Valid { sub: ID_TEXT.to_string() });
    assert_eq!(r.unwrap(), ID);
}

#[test]
fn token_failures_map_to_errors() {
    assert!(matches!(account_id_from_token(TokenCheck::Expired), Err(AppError::TokenExpired)));
    assert!(matches!(account_id_from_token(TokenCheck::Invalid), Err(AppError::TokenInvalid)));
    assert!(matches!(
        account_id_from_token(TokenCheck::Valid { sub: "someone".to_string() }),
        Err(AppError::TokenInvalid)
    ));
}

#[test]
fn lookup_outcomes_of_authentication() {
    let ok = authenticated_from_lookup(Ok(Some(account(ID, "alice")))).unwrap();
    assert_eq!(ok.id, ID);
    assert_eq!(ok.username, "alice");
    assert!(matches!(authenticated_from_lookup(Ok(None)), Err(AppError::TokenInvalid)));
    assert!(matches!(authenticated_from_lookup(Err(())), Err(AppError::InternalError)));
}

#[test]
fn handshake_needs_an_auth_message() {
    assert_eq!(handshake_token(Some(("auth".to_string(), "tok".to_string()))), Some("tok".to_string()));
    assert_eq!(handshake_token(Some(("message.send".to_string(), "tok".to_string()))), None);
    assert_eq!(handshake_token(None), None);
}

#[test]
fn handshake_account_from_token() {
    assert_eq!(handshake_account(TokenCheck::Valid { sub: ID_TEXT.to_string() }), Some(ID));
    assert_eq!(handshake_account(TokenCheck::Valid { sub: "x".to_string() }), None);
    assert_eq!(handshake_account(TokenCheck::Expired), None);
    assert_eq!(handshake_account(TokenCheck::Invalid), None);
}

#[test]
fn new_session_waits_for_authentication() {
    let s = WsSession::new();
    assert!(matches!(s.state, SessionState::Connected));
    assert!(!s.is_authenticated());
    assert_eq!(s.account_id(), None);
    assert!(matches!(WsSession::default().state, SessionState::Connected));
    assert_eq!(AUTH_TIMEOUT_SECS, 5);
}

#[test]
fn successful_handshake_authenticates() {
    let mut s = WsSession::new();
    let reply = s.finish_auth(Some(account(ID, "alice")));
    assert!(reply.is_none());
    assert!(s.is_authenticated());
    assert_eq!(s.account_id(), Some(ID));
    s.disconnect();
    assert!(matches!(s.state, SessionState::Disconnected));
    assert_eq!(s.account_id(), None);
}

#[test]
fn failed_handshake_closes_with_auth_failed() {
    let mut s = WsSession::new();
    match s.finish_auth(None) {
        Some(WsMessage::Error { request_id, code, message }) => {
            assert!(request_id.is_none());
            assert_eq!(code, "AUTH_FAILED");
            assert_eq!(message, "Invalid credentials or token format");
        }
        other => panic!("unexpected reply {:?}", other),
    }
    assert!(matches!(s.state, SessionState::Disconnected));
}

#[test]
fn slow_handshake_times_out() {
    let mut s = WsSession::new();
    match s.on_auth_timeout() {
        WsMessage::Error { request_id, code, message } => {
            assert!(request_id.is_none());
            assert_eq!(code, "AUTH_TIMEOUT");
            assert_eq!(message, "Authentication timeout");
        }
        other => panic!("unexpected reply {:?}", other),
    }
    assert!(!s.is_authenticated());
}

#[test]
fn authenticate_keeps_connection_time() {
    let mut s = WsSession::new();
    let t = s.connected_at_ms;
    s.authenticate(9, "bob".to_string());
    assert_eq!(s.connected_at_ms, t);
    assert_eq!(s.account_id(), Some(9));
}

#[test]
fn issued_token_checks_out() {
    let now = chrono::Utc::now().timestamp() as usize;
    let t = ghostlink::auth::issue_token(ID, now, "SECRET-REDACTED");
    assert_eq!(t.split('.').count(), 3);
    match ghostlink::auth::check_token(&t, "SECRET-REDACTED") {
        TokenCheck::Valid { sub } => assert_eq!(sub, ID_TEXT),
        _ => panic!("a fresh token is valid"),
    }
    assert!(matches!(ghostlink::auth::check_token(&t, "other secret"), TokenCheck::Invalid));
    let header = format!("Bearer {}", t);
    assert_eq!(ghostlink::auth::authenticate_bearer(Some(&header), "SECRET-REDACTED").unwrap(), ID);
}

#[test]
fn issued_token_payload_lists_subject_expiry_and_issue_time() {
    let t = ghostlink::auth::issue_token(ID, 1_700_000_000, "k");
    let payload = t.split('.').nth(1).unwrap();
    let json = base64::engine::general_purpose::URL_SAFE_NO_PAD.decode(payload).unwrap();
    assert_eq!(
        String::from_utf8(json).unwrap(),
        format!("{{\"sub\":\"{}\",\"exp\":1702592000,\"iat\":1700000000}}", ID_TEXT)
    );
    assert!(t.starts_with("eyJ0eXAiOiJKV1QiLCJhbGciOiJIUzI1NiJ9."));
}

#[test]
fn expired_and_forged_tokens() {
    let t = ghostlink::auth::issue_token(ID, 1_000, "SECRET-REDACTED");
    assert!(matches!(ghostlink::auth::check_token(&t, "SECRET-REDACTED"), TokenCheck::Expired));
    let header = format!("Bearer {}", t);
    assert!(matches!(ghostlink::auth::authenticate_bearer(Some(&header), "SECRET-REDACTED"), Err(AppError::TokenExpired)));
    assert!(matches!(ghostlink::auth::check_token("not.a.token", "SECRET-REDACTED"), TokenCheck::Invalid));
    assert!(matches!(ghostlink::auth::authenticate_bearer(Some("Bearer x"), "SECRET-REDACTED"), Err(AppError::TokenInvalid)));
    assert!(matches!(ghostlink::auth::authenticate_bearer(None, "SECRET-REDACTED"), Err(AppError::TokenInvalid)));
}

#[test]
fn token_without_account_subject_is_invalid() {
    let now = chrono::Utc::now().timestamp() as usize;
    let claims = std::collections::BTreeMap::from([
        ("sub", serde_json::Value::from("someone")),
        ("exp", serde_json::Value::from(now + 3600)),
        ("iat", serde_json::Value::from(now)),
    ]);
    let t = jsonwebtoken::encode(&jsonwebtoken::Header::default(), &claims, &jsonwebtoken::EncodingKey::from_secret(b"k")).unwrap();
    let header = format!("Bearer {}", t);
    assert!(matches!(ghostlink::auth::authenticate_bearer(Some(&header), "k"), Err(AppError::TokenInvalid)));
    let no_iat = std::collections::BTreeMap::from([
        ("sub", serde_json::Value::from(ID_TEXT)),
        ("exp", serde_json::Value::from(now + 3600)),
    ]);
    let t = jsonwebtoken::encode(&jsonwebtoken::Header::default(), &no_iat, &jsonwebtoken::EncodingKey::from_secret(b"k")).unwrap();
    assert!(matches!(ghostlink::auth::check_token(&t, "k"), TokenCheck::Invalid));
}

#[test]
fn expired_token_missing_claims_is_invalid() {
    let key = jsonwebtoken::EncodingKey::from_secret(b"k");
    let no_iat = std::collections::BTreeMap::from([
        ("sub", serde_json::Value::from(ID_TEXT)),
        ("exp", serde_json::Value::from(1_000u64)),
    ]);
    let t = jsonwebtoken::encode(&jsonwebtoken::Header::default(), &no_iat, &key).unwrap();
    assert!(matches!(ghostlink::auth::check_token(&t, "k"), TokenCheck::Invalid));
    let header = format!("Bearer {}", t);
    assert!(matches!(ghostlink::auth::authenticate_bearer(Some(&header), "k"), Err(AppError::TokenInvalid)));
    let no_sub = std::collections::BTreeMap::from([
        ("exp", serde_json::Value::from(1_000u64)),
        ("iat", serde_json::Value::from(500u64)),
    ]);
    let t = jsonwebtoken::encode(&jsonwebtoken::Header::default(), &no_sub, &key).unwrap();
    assert!(matches!(ghostlink::auth::check_token(&t, "k"), TokenCheck::Invalid));
    let full = std::collections::BTreeMap::from([
        ("sub", serde_json::Value::from(ID_TEXT)),
        ("exp", serde_json::Value::from(1_000u64)),
        ("iat", serde_json::Value::from(500u64)),
    ]);
    let t = jsonwebtoken::encode(&jsonwebtoken::Header::default(), &full, &key).unwrap();
    assert!(matches!(ghostlink::auth::check_token(&t, "k"), TokenCheck::Expired));
    assert!(matches!(ghostlink::auth::check_token(&t, "other"), TokenCheck::Invalid));
}

#[test]
fn login_throttle_policy() {
    use_throttle();
}

fn use_throttle() {
    let mut t = ghostlink::throttle::LoginThrottle::new();
    let allow = ghostlink::throttle::ThrottleDecision::Allow;
    assert_eq!(t.attempt(1000), allow);
    // second attempt must wait 1 s after the first
    assert_eq!(t.attempt(1000), ghostlink::throttle::ThrottleDecision::Deny { retry_after_secs: 1 });
    assert_eq!(t.attempt(1001), allow);
    // third waits 2 s, fourth 4 s, then 8 s each
    assert_eq!(t.attempt(1002), ghostlink::throttle::ThrottleDecision::Deny { retry_after_secs: 1 });
    assert_eq!(t.attempt(1003), allow);
    assert_eq!(t.attempt(1007), allow);
    let mut now = 1007;
    while t.attempts.len() < 50 {
        now += 8;
        assert_eq!(t.attempt(now), allow);
    }
    // fifty attempts within the hour: the next brings the hour-long block
    assert_eq!(t.attempt(now + 8), ghostlink::throttle::ThrottleDecision::Deny { retry_after_secs: 3600 });
    assert_eq!(t.attempt(now + 100), ghostlink::throttle::ThrottleDecision::Deny { retry_after_secs: 3508 });
    assert_eq!(t.attempt(now + 3608), allow);
    // an hour later everything is forgotten
    let mut fresh = ghostlink::throttle::LoginThrottle::new();
    assert_eq!(fresh.attempt(5), allow);
    assert_eq!(fresh.attempt(3700), allow);
    assert_eq!(fresh.attempts, vec![3700]);
}
