fn uuid_to_string(id: u128) -> String {
    uuid::Uuid::from_u128(id).to_string()
}

fn base64_encode(b: &[u8]) -> String {
    base64::Engine::encode(&base64::prelude::BASE64_STANDARD, b)
}

use ghostlink::protocol::WsMessage;
use ghostlink::message::{offline_deliveries, offline_responses, OfflineMessage};
use ghostlink::router::{MessageRoute, RouteAction, RoutePhase, WsRouter};
use ghostlink::types::PayloadType;

const SENDER: u128 = 1;
const RECIPIENT: u128 = 0x550e_8400_e29b_41d4_a716_4466_5544_0000;
const CONVERSATION: u128 = 3;

fn route(payload: &str) -> MessageRoute {
    let (r, actions) = WsRouter::start_message_send(
        SENDER,
        "req-1".to_string(),
        RECIPIENT,
        CONVERSATION,
        payload.to_string(),
        0,
        77,
        "2024-01-01T00:00:00+00:00".to_string(),
    );
    assert_eq!(actions.len(), 1);
    assert!(matches!(actions[0], RouteAction::CheckContact { owner_id, contact_id } if owner_id == RECIPIENT && contact_id == SENDER));
    assert!(matches!(r.phase, RoutePhase::AwaitingContactCheck));
    let mut r = r;
    let actions = r.on_contact_check(Some(true));
    assert_eq!(actions.len(), 1);
    assert!(matches!(r.phase, RoutePhase::AwaitingLocalDelivery));
    match &actions[0] {
        RouteAction::Deliver { account_id, message: WsMessage::MessageIncoming { message_id, sender_id, encrypted_payload, .. } } => {
            assert_eq!(*account_id, RECIPIENT);
            assert_eq!(*message_id, uuid_to_string(77));
            assert_eq!(*sender_id, SENDER);
            assert_eq!(encrypted_payload, payload);
        }
        other => panic!("unexpected action {:?}", matches!(other, RouteAction::Deliver { .. })),
    }
    r
}

fn ack_status(a: &RouteAction) -> String {
    match a {
        RouteAction::Deliver { account_id, message: WsMessage::MessageAck { request_id, message_id, status } } => {
            assert_eq!(*account_id, SENDER);
            assert_eq!(request_id, "req-1");
            assert_eq!(*message_id, uuid_to_string(77));
            status.clone()
        }
        _ => panic!("not an ack"),
    }
}

#[test]
fn local_delivery_is_acknowledged_as_delivered() {
    let mut r = route("aGVsbG8=");
    let actions = r.on_local_delivery(true);
    assert_eq!(actions.len(), 1);
    assert_eq!(ack_status(&actions[0]), "delivered");
    assert!(matches!(r.phase, RoutePhase::Finished));
}

#[test]
fn missed_local_delivery_checks_presence() {
    let mut r = route("aGVsbG8=");
    let actions = r.on_local_delivery(false);
    assert_eq!(actions.len(), 1);
    assert!(matches!(actions[0], RouteAction::CheckPresence { account_id } if account_id == RECIPIENT));
    assert!(matches!(r.phase, RoutePhase::AwaitingPresence));
}

#[test]
fn online_recipient_elsewhere_gets_published() {
    let mut r = route("aGVsbG8=");
    r.on_local_delivery(false);
    let actions = r.on_presence(Some(true), true);
    assert_eq!(actions.len(), 2);
    match &actions[0] {
        RouteAction::Publish { subject, message: WsMessage::MessageIncoming { conversation_id, .. } } => {
            assert_eq!(subject, "user.550e8400-e29b-41d4-a716-446655440000");
            assert_eq!(*conversation_id, CONVERSATION);
        }
        _ => panic!("expected a publish"),
    }
    assert_eq!(ack_status(&actions[1]), "sent");
}

#[test]
fn online_recipient_without_bus_is_only_acknowledged() {
    let mut r = route("aGVsbG8=");
    r.on_local_delivery(false);
    let actions = r.on_presence(Some(true), false);
    assert_eq!(actions.len(), 1);
    assert_eq!(ack_status(&actions[0]), "sent");
}

#[test]
fn offline_recipient_gets_queued_and_woken() {
    let payload = base64_encode(b"ciphertext");
    let mut r = route(&payload);
    r.on_local_delivery(false);
    let actions = r.on_presence(Some(false), true);
    assert_eq!(actions.len(), 3);
    match &actions[0] {
        RouteAction::EnqueueOffline { recipient_id, message_id, conversation_id, sender_id, payload, payload_type } => {
            assert_eq!(*recipient_id, RECIPIENT);
            assert_eq!(*message_id, 77);
            assert_eq!(*conversation_id, CONVERSATION);
            assert_eq!(*sender_id, SENDER);
            assert_eq!(payload, b"ciphertext");
            assert_eq!(*payload_type, 0);
        }
        _ => panic!("expected an enqueue"),
    }
    assert!(matches!(actions[1], RouteAction::PushWakeup { account_id } if account_id == RECIPIENT));
    assert_eq!(ack_status(&actions[2]), "sent");
}

#[test]
fn failed_presence_lookup_counts_as_offline() {
    let mut r = route("aGVsbG8=");
    r.on_local_delivery(false);
    let actions = r.on_presence(None, false);
    assert_eq!(actions.len(), 2);
    assert!(matches!(actions[0], RouteAction::EnqueueOffline { .. }));
    assert_eq!(ack_status(&actions[1]), "sent");
}

#[test]
fn undecodable_payload_is_not_queued() {
    let mut r = route("not base64!");
    r.on_local_delivery(false);
    let actions = r.on_presence(Some(false), true);
    assert_eq!(actions.len(), 2);
    assert!(matches!(actions[0], RouteAction::PushWakeup { .. }));
    assert_eq!(ack_status(&actions[1]), "sent");
}

#[test]
fn ping_is_answered_with_pong() {
    let (r, actions) = WsRouter::handle_message(SENDER, WsMessage::Ping);
    assert!(r.is_none());
    assert_eq!(actions.len(), 1);
    assert!(matches!(actions[0], RouteAction::Deliver { account_id, message: WsMessage::Pong } if account_id == SENDER));
}

#[test]
fn direct_message_starts_a_route() {
    let msg = WsMessage::MessageSend {
        request_id: "r9".to_string(),
        recipient_id: RECIPIENT,
        conversation_id: CONVERSATION,
        encrypted_payload: "aGk=".to_string(),
        payload_type: 1,
    };
    let (r, actions) = WsRouter::handle_message(SENDER, msg);
    let r = r.unwrap();
    assert!(matches!(r.phase, RoutePhase::AwaitingContactCheck));
    assert_eq!(r.request_id, "r9");
    assert_eq!(r.recipient_id, RECIPIENT);
    assert_eq!(r.message_id, uuid_to_string(r.id));
    assert_eq!((r.id >> 76) & 0xF, 4);
    assert_eq!(actions.len(), 1);
    assert!(matches!(actions[0], RouteAction::CheckContact { owner_id, contact_id } if owner_id == RECIPIENT && contact_id == SENDER));
}

#[test]
fn other_client_messages_need_no_action() {
    for msg in [
        WsMessage::TypingStart { conversation_id: 1 },
        WsMessage::TypingStop { conversation_id: 1 },
        WsMessage::MessageRead { conversation_id: 1, last_read_message_id: "m".to_string() },
        WsMessage::GroupMessageSend { request_id: "g".to_string(), group_id: 2, encrypted_payload: "x".to_string(), payload_type: 0 },
        WsMessage::Pong,
    ] {
        let (r, actions) = WsRouter::handle_message(SENDER, msg);
        assert!(r.is_none());
        assert!(actions.is_empty());
    }
}

#[test]
fn queued_payload_arrives_unchanged() {
    let sent = base64_encode(b"\x00\x01secret\xff");
    let mut r = route(&sent);
    r.on_local_delivery(false);
    let actions = r.on_presence(Some(false), false);
    let (queued, queued_id) = match &actions[0] {
        RouteAction::EnqueueOffline { payload, message_id, .. } => (payload.clone(), *message_id),
        _ => panic!("expected an enqueue"),
    };
    assert_eq!(queued_id, 77);
    let m = OfflineMessage {
        recipient_id: RECIPIENT,
        message_id: queued_id,
        conversation_id: CONVERSATION,
        sender_id: SENDER,
        encrypted_payload: queued,
        payload_type: PayloadType::Text,
        created_at_ms: 0,
    };
    let fetched = offline_responses(&vec![m.clone()]);
    assert_eq!(fetched[0].encrypted_payload, sent);
    match &offline_deliveries(&vec![m])[0] {
        WsMessage::MessageIncoming { encrypted_payload, .. } => assert_eq!(*encrypted_payload, sent),
        _ => panic!("expected an incoming message"),
    }
}

#[test]
fn message_to_non_contact_is_refused() {
    for answer in [Some(false), None] {
        let (mut r, _) = WsRouter::start_message_send(SENDER, "req-1".to_string(), RECIPIENT, CONVERSATION, "aGk=".to_string(), 0, 77, String::new());
        let actions = r.on_contact_check(answer);
        assert_eq!(actions.len(), 1);
        match &actions[0] {
            RouteAction::Deliver { account_id, message: WsMessage::Error { request_id, code, message } } => {
                assert_eq!(*account_id, SENDER);
                assert_eq!(request_id.as_deref(), Some("req-1"));
                assert_eq!(code, "RECIPIENT_NOT_FOUND");
                assert_eq!(message, "Recipient does not exist or is not a contact");
            }
            _ => panic!("expected a refusal to the sender"),
        }
        assert!(matches!(r.phase, RoutePhase::Finished));
    }
}
