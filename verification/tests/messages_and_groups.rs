use ghostlink::group::{member_count_of_row, MAX_GROUP_MEMBERS};
use ghostlink::message::{
    offline_deliveries, offline_messages_from_rows, offline_responses, payload_type_from_stored,
    DisappearingTimer, OfflineMessage, OFFLINE_QUEUE_TTL_SECS,
};
use ghostlink::protocol::WsMessage;
use ghostlink::types::PayloadType;

fn queued() -> OfflineMessage {
    OfflineMessage {
        recipient_id: 1,
        message_id: 0x550e_8400_e29b_41d4_a716_4466_5544_0000,
        conversation_id: 2,
        sender_id: 3,
        encrypted_payload: b"hello".to_vec(),
        payload_type: PayloadType::Voice,
        created_at_ms: 0,
    }
}

#[test]
fn stored_payload_type_bytes() {
    assert_eq!(payload_type_from_stored(0), PayloadType::Text);
    assert_eq!(payload_type_from_stored(4), PayloadType::Video);
    assert_eq!(payload_type_from_stored(9), PayloadType::Text);
    assert_eq!(payload_type_from_stored(-1), PayloadType::Text);
}

#[test]
fn offline_rows_are_read_in_order() {
    let rows = vec![
        Some((1u128, 10u128, 2u128, 3u128, vec![1u8, 2], 1i8, 5i64)),
        None,
        Some((1u128, 11u128, 2u128, 3u128, vec![3u8], 7i8, 6i64)),
    ];
    let ms = offline_messages_from_rows(rows);
    assert_eq!(ms.len(), 2);
    assert_eq!(ms[0].message_id, 10);
    assert_eq!(ms[0].payload_type, PayloadType::Image);
    assert_eq!(ms[0].encrypted_payload, vec![1, 2]);
    assert_eq!(ms[1].message_id, 11);
    assert_eq!(ms[1].payload_type, PayloadType::Text);
    assert_eq!(ms[1].created_at_ms, 6);
}

#[test]
fn offline_response_encodes_payload() {
    let rs = offline_responses(&vec![queued()]);
    assert_eq!(rs.len(), 1);
    assert_eq!(rs[0].encrypted_payload, "aGVsbG8=");
    assert_eq!(rs[0].payload_type, PayloadType::Voice);
    assert_eq!(rs[0].created_at, "1970-01-01T00:00:00+00:00");
    assert_eq!(rs[0].sender_id, 3);
}

#[test]
fn offline_delivery_on_connect() {
    let ws = offline_deliveries(&vec![queued(), queued()]);
    assert_eq!(ws.len(), 2);
    match &ws[0] {
        WsMessage::MessageIncoming { message_id, conversation_id, sender_id, encrypted_payload, payload_type, created_at } => {
            assert_eq!(message_id, "550e8400-e29b-41d4-a716-446655440000");
            assert_eq!(*conversation_id, 2);
            assert_eq!(*sender_id, 3);
            assert_eq!(encrypted_payload, "aGVsbG8=");
            assert_eq!(*payload_type, 3);
            assert_eq!(created_at, "1970-01-01T00:00:00+00:00");
        }
        _ => panic!("expected an incoming message"),
    }
    assert!(offline_deliveries(&vec![]).is_empty());
}

#[test]
fn disappearing_timer_lifetimes() {
    assert_eq!(DisappearingTimer::Off.ttl_seconds(), None);
    assert_eq!(DisappearingTimer::OneHour.ttl_seconds(), Some(3600));
    assert_eq!(DisappearingTimer::TwentyFourHours.ttl_seconds(), Some(86400));
    assert_eq!(DisappearingTimer::SevenDays.ttl_seconds(), Some(604800));
    assert_eq!(DisappearingTimer::ThirtyDays.ttl_seconds(), Some(2592000));
    assert_eq!(DisappearingTimer::SevenDays.ttl_seconds(), Some(OFFLINE_QUEUE_TTL_SECS));
}

#[test]
fn member_counts() {
    assert_eq!(member_count_of_row(Some(12)), 12);
    assert_eq!(member_count_of_row(None), 0);
    assert_eq!(MAX_GROUP_MEMBERS, 256);
}
