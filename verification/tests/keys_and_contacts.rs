use ghostlink::account::Account;
use ghostlink::contact::{
    contact_request_target, contact_responses, contacts_from_rows, is_accepted_row, plan_contact_removal,
    plan_contact_request, plan_contact_response, Contact, ContactOp,
};
use ghostlink::crypto::{
    bundle_response, KeyBundle, KeyBundleFetch, KeyBundleStep, KeyCountResponse,
    SensitiveKeyMaterial, SignedPreKey,
};
use ghostlink::erasure::{plan_account_deletion, AccountTable, Erasure};
use ghostlink::error::AppError;
use ghostlink::types::{ContactAction, ContactStatus};

fn fetch_to_one_time() -> KeyBundleFetch {
    let (f, step) = KeyBundleFetch::start(9);
    assert!(matches!(step, KeyBundleStep::QueryIdentityKey { account_id: 9 }));
    let (f, step) = f.on_identity_key(Some(b"IK".to_vec()));
    assert!(matches!(step, KeyBundleStep::QuerySignedPreKey { account_id: 9 }));
    let (f, step) = f.on_signed_pre_key(Some((5, b"SPK".to_vec(), b"SIG".to_vec())));
    assert!(matches!(step, KeyBundleStep::QueryOneTimePreKey { account_id: 9 }));
    f
}

#[test]
fn bundle_hands_out_and_consumes_a_one_time_key() {
    let (f, step) = fetch_to_one_time().on_one_time_pre_key(Some((42, b"OPK".to_vec())));
    assert!(matches!(f, KeyBundleFetch::AwaitingConsume { account_id: 9, .. }));
    assert!(matches!(step, KeyBundleStep::ConsumeOneTimePreKey { account_id: 9, key_id: 42 }));
    let (f, step) = f.on_consumed(Some(true));
    assert!(matches!(f, KeyBundleFetch::Done));
    match step {
        KeyBundleStep::Finished { bundle: Some(bundle) } => {
            assert_eq!(bundle.account_id, 9);
            assert_eq!(bundle.identity_key, "IK");
            assert_eq!(bundle.signed_pre_key.key_id, 5);
            assert_eq!(bundle.signed_pre_key.public_key, "SPK");
            assert_eq!(bundle.signed_pre_key.signature, "SIG");
            let otpk = bundle.one_time_pre_key.unwrap();
            assert_eq!(otpk.key_id, 42);
            assert_eq!(otpk.public_key, "OPK");
        }
        _ => panic!("the bundle must be answered once the key is consumed"),
    }
}

#[test]
fn key_taken_by_another_lookup_is_not_handed_out() {
    let (f, _) = fetch_to_one_time().on_one_time_pre_key(Some((42, b"OPK".to_vec())));
    let (f, step) = f.on_consumed(Some(false));
    assert!(matches!(f, KeyBundleFetch::AwaitingOneTimePreKey { account_id: 9, .. }));
    assert!(matches!(step, KeyBundleStep::QueryOneTimePreKey { account_id: 9 }));
    let (_, step) = f.on_one_time_pre_key(None);
    match step {
        KeyBundleStep::Finished { bundle: Some(b) } => {
            assert!(b.one_time_pre_key.is_none());
            assert_eq!(b.signed_pre_key.key_id, 5);
        }
        _ => panic!("expected a bundle without a one-time key"),
    }
}

#[test]
fn failed_consume_gives_no_bundle() {
    let (f, _) = fetch_to_one_time().on_one_time_pre_key(Some((42, b"OPK".to_vec())));
    let (f, step) = f.on_consumed(None);
    assert!(matches!(f, KeyBundleFetch::Done));
    assert!(matches!(step, KeyBundleStep::Finished { bundle: None }));
}

#[test]
fn exhausted_pool_gives_bundle_without_one_time_key() {
    let (_, step) = fetch_to_one_time().on_one_time_pre_key(None);
    match step {
        KeyBundleStep::Finished { bundle: Some(b) } => assert!(b.one_time_pre_key.is_none()),
        _ => panic!("expected a bundle"),
    }
}

#[test]
fn missing_keys_give_no_bundle() {
    let (f, _) = KeyBundleFetch::start(1);
    let (f, step) = f.on_identity_key(None);
    assert!(matches!(f, KeyBundleFetch::Done));
    assert!(matches!(step, KeyBundleStep::Finished { bundle: None }));
    let (f, _) = KeyBundleFetch::start(1);
    let (f, _) = f.on_identity_key(Some(vec![1]));
    let (_, step) = f.on_signed_pre_key(None);
    assert!(matches!(step, KeyBundleStep::Finished { bundle: None }));
}

#[test]
fn invalid_utf8_key_bytes_are_replaced() {
    let (f, _) = KeyBundleFetch::start(1);
    let (f, _) = f.on_identity_key(Some(vec![0x66, 0xff]));
    let (f, _) = f.on_signed_pre_key(Some((1, vec![], vec![])));
    match f.on_one_time_pre_key(None).1 {
        KeyBundleStep::Finished { bundle: Some(b) } => assert_eq!(b.identity_key, "f\u{fffd}"),
        _ => panic!("expected a bundle"),
    }
}

#[test]
fn bundle_response_needs_a_bundle() {
    let b = KeyBundle {
        account_id: 1,
        identity_key: "IK".to_string(),
        signed_pre_key: SignedPreKey { key_id: 1, public_key: "P".to_string(), signature: "S".to_string() },
        one_time_pre_key: None,
    };
    assert_eq!(bundle_response(Some(b)).unwrap().identity_key, "IK");
    assert!(matches!(bundle_response(None), Err(AppError::InternalError)));
}

#[test]
fn key_count_from_cache() {
    assert_eq!(KeyCountResponse::from_cache_lookup(Some(Some(12))).unwrap().count, 12);
    assert!(KeyCountResponse::from_cache_lookup(Some(None)).is_none());
    assert!(KeyCountResponse::from_cache_lookup(None).is_none());
}

#[test]
fn key_material_is_wiped() {
    let mut k = SensitiveKeyMaterial::new(vec![1, 2, 3]);
    assert_eq!(k.bytes, vec![1, 2, 3]);
    k.zeroize();
    assert!(k.bytes.is_empty());
}

fn contact(id: u128, status: ContactStatus) -> Contact {
    Contact { owner_id: 1, contact_id: id, username: format!("u{}", id), status, added_at_ms: 0 }
}

#[test]
fn contact_rows_are_read_in_order() {
    let rows = vec![
        Some((2u128, "bob".to_string(), 2i8, 0i64)),
        None,
        Some((3u128, "carol".to_string(), 3i8, 1000i64)),
    ];
    let cs = contacts_from_rows(1, rows);
    assert_eq!(cs.len(), 2);
    assert_eq!(cs[0].contact_id, 2);
    assert_eq!(cs[0].status, ContactStatus::Accepted);
    assert_eq!(cs[1].username, "carol");
    assert_eq!(cs[1].status, ContactStatus::Blocked);
    assert_eq!(cs[1].owner_id, 1);
    let r = cs[1].to_response();
    assert_eq!(r.added_at, "1970-01-01T00:00:01+00:00");
}

#[test]
fn contact_list_responses() {
    let rs = contact_responses(&vec![contact(2, ContactStatus::Accepted), contact(3, ContactStatus::PendingSent)]);
    assert_eq!(rs.len(), 2);
    assert_eq!(rs[0].contact_id, 2);
    assert_eq!(rs[1].username, "u3");
    assert_eq!(rs[1].status, ContactStatus::PendingSent);
    assert_eq!(rs[0].added_at, "1970-01-01T00:00:00+00:00");
}

#[test]
fn only_accepted_rows_make_contacts() {
    assert!(is_accepted_row(Some(2)));
    assert!(!is_accepted_row(Some(0)));
    assert!(!is_accepted_row(Some(4)));
    assert!(!is_accepted_row(None));
}

#[test]
fn cannot_add_yourself() {
    match contact_request_target("Alice", "alice") {
        Err(AppError::Validation(m)) => assert_eq!(m, "Cannot add yourself as a contact"),
        _ => panic!("self request must be refused"),
    }
    assert_eq!(contact_request_target("Bob", "alice").unwrap(), "bob");
}

#[test]
fn request_to_new_contact() {
    let target = Account { id: 5, username: "eve".to_string(), password_hash: String::new(), created_at_ms: 0, last_seen_at_ms: None };
    match plan_contact_request(1, "alice".to_string(), &Some(target.clone()), &vec![contact(2, ContactStatus::Accepted)]) {
        Ok(ContactOp::CreateRequest { owner_id, contact_id, contact_username, owner_username }) => {
            assert_eq!(owner_id, 1);
            assert_eq!(contact_id, 5);
            assert_eq!(contact_username, "eve");
            assert_eq!(owner_username, "alice");
        }
        _ => panic!("expected a request"),
    }
    let existing = vec![contact(5, ContactStatus::Declined)];
    assert!(matches!(plan_contact_request(1, "alice".to_string(), &Some(target), &existing), Err(AppError::ContactExists)));
    assert!(matches!(plan_contact_request(1, "alice".to_string(), &None, &existing), Err(AppError::UserNotFound)));
}

#[test]
fn responding_to_requests() {
    let existing = vec![contact(5, ContactStatus::PendingReceived), contact(6, ContactStatus::PendingSent)];
    let ops = plan_contact_response(&existing, 1, 5, ContactAction::Accept).unwrap();
    assert_eq!(ops.len(), 1);
    assert!(matches!(ops[0], ContactOp::Accept { owner_id: 1, contact_id: 5 }));
    match plan_contact_response(&existing, 1, 6, ContactAction::Accept) {
        Err(AppError::Validation(m)) => assert_eq!(m, "Can only accept incoming pending contact requests"),
        _ => panic!("an outgoing request cannot be accepted"),
    }
    let ops = plan_contact_response(&existing, 1, 6, ContactAction::Decline).unwrap();
    assert_eq!(ops.len(), 2);
    assert!(matches!(ops[0], ContactOp::Remove { owner_id: 1, contact_id: 6 }));
    assert!(matches!(ops[1], ContactOp::Remove { owner_id: 6, contact_id: 1 }));
    let ops = plan_contact_response(&existing, 1, 5, ContactAction::Block).unwrap();
    assert!(matches!(ops[..], [ContactOp::Block { owner_id: 1, contact_id: 5 }]));
    assert!(matches!(plan_contact_response(&existing, 1, 9, ContactAction::Block), Err(AppError::UserNotFound)));
}

#[test]
fn removal_deletes_both_sides() {
    let ops = plan_contact_removal(1, 2);
    assert_eq!(ops.len(), 2);
    assert!(matches!(ops[0], ContactOp::Remove { owner_id: 1, contact_id: 2 }));
    assert!(matches!(ops[1], ContactOp::Remove { owner_id: 2, contact_id: 1 }));
}

#[test]
fn pre_key_counts_from_rows() {
    assert_eq!(ghostlink::crypto::pre_key_count_of_row(Some(7)), 7);
    assert_eq!(ghostlink::crypto::pre_key_count_of_row(None), 0);
}

#[test]
fn bundle_owner_must_exist() {
    let a = Account { id: 4, username: "dan".to_string(), password_hash: String::new(), created_at_ms: 0, last_seen_at_ms: None };
    assert_eq!(ghostlink::crypto::bundle_owner(Some(a)).unwrap(), 4);
    assert!(matches!(ghostlink::crypto::bundle_owner(None), Err(AppError::UserNotFound)));
}

#[test]
fn latest_signed_pre_key_is_chosen() {
    assert_eq!(ghostlink::crypto::latest_signed_pre_key(&vec![]), None);
    assert_eq!(ghostlink::crypto::latest_signed_pre_key(&vec![Some(5), Some(9), Some(9), None]), Some(1));
    assert_eq!(ghostlink::crypto::latest_signed_pre_key(&vec![None, None]), Some(0));
    assert_eq!(ghostlink::crypto::latest_signed_pre_key(&vec![None, Some(-3)]), Some(1));
}

#[test]
fn account_erasure_removes_both_sides() {
    let ops = plan_account_deletion(1, &vec![contact(2, ContactStatus::Accepted), contact(3, ContactStatus::Blocked)]);
    assert_eq!(ops.len(), 11);
    assert!(matches!(ops[0], Erasure::Contact(ContactOp::Remove { owner_id: 1, contact_id: 2 })));
    assert!(matches!(ops[1], Erasure::Contact(ContactOp::Remove { owner_id: 2, contact_id: 1 })));
    assert!(matches!(ops[2], Erasure::Contact(ContactOp::Remove { owner_id: 1, contact_id: 3 })));
    assert!(matches!(ops[3], Erasure::Contact(ContactOp::Remove { owner_id: 3, contact_id: 1 })));
    assert!(matches!(ops[4], Erasure::Table(AccountTable::IdentityKeys)));
    assert!(matches!(ops[5], Erasure::Table(AccountTable::SignedPreKeys)));
    assert!(matches!(ops[6], Erasure::Table(AccountTable::PreKeys)));
    assert!(matches!(ops[7], Erasure::Table(AccountTable::OfflineQueue)));
    assert!(matches!(ops[8], Erasure::Table(AccountTable::Accounts)));
    assert!(matches!(ops[9], Erasure::UsernameEntry));
    assert!(matches!(ops[10], Erasure::Table(AccountTable::Sessions)));
    let none = plan_account_deletion(5, &Vec::new());
    assert_eq!(none.len(), 7);
}
