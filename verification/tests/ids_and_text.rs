use ghostlink::auth::{account_id_from_token, JwtClaims, TokenCheck};
use ghostlink::config::RequestId;
use ghostlink::error::AppError;
use ghostlink::message::OfflineMessage;
use ghostlink::protocol::account_of_subject;
use ghostlink::router::{RouteAction, WsRouter};
use ghostlink::text::{join_texts, starts_with, strip_prefix, text_eq};
use ghostlink::types::PayloadType;

fn id_text(id: u128) -> String {
    JwtClaims::for_account(id, 0).sub
}

#[test]
fn uuid_text_is_lowercase_hyphenated() {
    assert_eq!(id_text(0x0123_4567_89ab_cdef_fedc_ba98_7654_3210), "01234567-89ab-cdef-fedc-ba9876543210");
    assert_eq!(id_text(0), "00000000-0000-0000-0000-000000000000");
    assert_eq!(id_text(u128::MAX), "ffffffff-ffff-ffff-ffff-ffffffffffff");
}

#[test]
fn uuid_text_parses_back() {
    let id: u128 = 0x550e_8400_e29b_41d4_a716_4466_5544_0000;
    assert_eq!(account_id_from_token(TokenCheck::Valid { sub: id_text(id) }).unwrap(), id);
    let r = account_id_from_token(TokenCheck::Valid { sub: "550E8400-E29B-41D4-A716-446655440000".to_string() });
    assert_eq!(r.unwrap(), id);
}

#[test]
fn malformed_uuid_text_is_refused() {
    for bad in ["", "not-a-uuid", "550e8400-e29b-41d4-a716-44665544000"] {
        let r = account_id_from_token(TokenCheck::Valid { sub: bad.to_string() });
        assert!(matches!(r, Err(AppError::TokenInvalid)));
    }
}

#[test]
fn fresh_ids_are_version_four() {
    for _ in 0..32 {
        let r = RequestId::generate();
        let id = account_of_subject(&format!("user.{}", r.0)).unwrap();
        assert_eq!((id >> 76) & 0xF, 4);
        assert_eq!((id >> 62) & 0x3, 2);
    }
    assert_ne!(RequestId::generate().0, RequestId::generate().0);
}

fn encoded(bytes: &[u8]) -> String {
    OfflineMessage {
        recipient_id: 1,
        message_id: 2,
        conversation_id: 3,
        sender_id: 4,
        encrypted_payload: bytes.to_vec(),
        payload_type: PayloadType::Text,
        created_at_ms: 0,
    }
    .to_response()
    .encrypted_payload
}

fn queued(text: &str) -> Option<Vec<u8>> {
    let (mut r, _) = WsRouter::start_message_send(1, "r".to_string(), 2, 3, text.to_string(), 0, 9, String::new());
    r.on_contact_check(Some(true));
    r.on_local_delivery(false);
    match r.on_presence(Some(false), false).into_iter().next() {
        Some(RouteAction::EnqueueOffline { payload, .. }) => Some(payload),
        _ => None,
    }
}

#[test]
fn base64_standard_padded_form() {
    assert_eq!(encoded(b""), "");
    assert_eq!(encoded(b"f"), "Zg==");
    assert_eq!(encoded(b"fo"), "Zm8=");
    assert_eq!(encoded(b"foo"), "Zm9v");
    assert_eq!(encoded(b"foobar"), "Zm9vYmFy");
    assert_eq!(encoded(&[0xfb, 0xff]), "+/8=");
}

#[test]
fn base64_decodes_what_it_encodes() {
    let bytes: Vec<u8> = (0u8..=255).collect();
    assert_eq!(queued(&encoded(&bytes)), Some(bytes));
    assert_eq!(queued("Zm9vYmFy"), Some(b"foobar".to_vec()));
}

#[test]
fn base64_refuses_non_canonical_text() {
    assert_eq!(queued("Zm9v!"), None);
    assert_eq!(queued("Zg"), None);
    assert_eq!(queued("Zh=="), None);
    assert_eq!(queued("Zm9=v"), None);
}

#[test]
fn text_helpers() {
    assert!(text_eq("abc", "abc"));
    assert!(!text_eq("abc", "abd"));
    assert!(starts_with("user.42", "user."));
    assert!(!starts_with("use", "user."));
    assert!(starts_with("anything", ""));
    assert_eq!(strip_prefix("user.42", "user."), Some("42"));
    assert_eq!(strip_prefix("usr.42", "user."), None);
    assert_eq!(join_texts("ab", "cd"), "abcd");
}
