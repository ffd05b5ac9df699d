use ghostlink::types::{ContactStatus, GroupRole, MessageStatus, PayloadType, Platform};

#[test]
fn payload_type_codes_decode() {
    assert_eq!(PayloadType::from_u8(0), Some(PayloadType::Text));
    assert_eq!(PayloadType::from_u8(1), Some(PayloadType::Image));
    assert_eq!(PayloadType::from_u8(2), Some(PayloadType::File));
    assert_eq!(PayloadType::from_u8(3), Some(PayloadType::Voice));
    assert_eq!(PayloadType::from_u8(4), Some(PayloadType::Video));
    assert_eq!(PayloadType::from_u8(5), None);
    assert_eq!(PayloadType::from_u8(255), None);
}

#[test]
fn payload_type_code_round_trips() {
    for v in 0u8..=255 {
        if let Some(p) = PayloadType::from_u8(v) {
            assert_eq!(p.to_u8(), v);
        }
    }
    for p in [PayloadType::Text, PayloadType::Image, PayloadType::File, PayloadType::Voice, PayloadType::Video] {
        assert_eq!(PayloadType::from_u8(p.to_u8()), Some(p));
    }
}

#[test]
fn message_status_codes_decode() {
    assert_eq!(MessageStatus::from_u8(0), Some(MessageStatus::Sent));
    assert_eq!(MessageStatus::from_u8(1), Some(MessageStatus::Delivered));
    assert_eq!(MessageStatus::from_u8(2), Some(MessageStatus::Read));
    assert_eq!(MessageStatus::from_u8(3), None);
    for s in [MessageStatus::Sent, MessageStatus::Delivered, MessageStatus::Read] {
        assert_eq!(MessageStatus::from_u8(s.to_u8()), Some(s));
    }
}

#[test]
fn group_role_codes_decode() {
    assert_eq!(GroupRole::from_u8(0), Some(GroupRole::Member));
    assert_eq!(GroupRole::from_u8(1), Some(GroupRole::Admin));
    assert_eq!(GroupRole::from_u8(2), Some(GroupRole::Owner));
    assert_eq!(GroupRole::from_u8(3), None);
    for r in [GroupRole::Member, GroupRole::Admin, GroupRole::Owner] {
        assert_eq!(GroupRole::from_u8(r.to_u8()), Some(r));
    }
}

#[test]
fn admin_or_above_roles() {
    assert!(!GroupRole::Member.is_admin_or_above());
    assert!(GroupRole::Admin.is_admin_or_above());
    assert!(GroupRole::Owner.is_admin_or_above());
}

#[test]
fn platform_codes_decode() {
    assert_eq!(Platform::from_u8(0), Some(Platform::Ios));
    assert_eq!(Platform::from_u8(1), Some(Platform::Android));
    assert_eq!(Platform::from_u8(2), None);
    assert_eq!(Platform::Ios.to_u8(), 0);
    assert_eq!(Platform::Android.to_u8(), 1);
}

#[test]
fn stored_contact_status_bytes() {
    assert_eq!(ContactStatus::from_stored(0), ContactStatus::PendingSent);
    assert_eq!(ContactStatus::from_stored(1), ContactStatus::PendingReceived);
    assert_eq!(ContactStatus::from_stored(2), ContactStatus::Accepted);
    assert_eq!(ContactStatus::from_stored(3), ContactStatus::Blocked);
    assert_eq!(ContactStatus::from_stored(4), ContactStatus::Blocked);
    assert_eq!(ContactStatus::from_stored(5), ContactStatus::Declined);
    assert_eq!(ContactStatus::from_stored(-1), ContactStatus::Declined);
}

#[test]
fn written_contact_status_bytes_read_back() {
    for s in [
        ContactStatus::PendingSent,
        ContactStatus::PendingReceived,
        ContactStatus::Accepted,
        ContactStatus::Blocked,
    ] {
        let code = s.stored_code().unwrap();
        assert_eq!(ContactStatus::from_stored(code), s);
    }
    assert_eq!(ContactStatus::Blocked.stored_code(), Some(4));
    assert_eq!(ContactStatus::Declined.stored_code(), None);
}
