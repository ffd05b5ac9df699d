use ghostlink::account::{
    authorize_deletion, login_account, register_account, Account,
    SensitivePassword,
};
use ghostlink::error::AppError;
use ghostlink::registration::{registration_result, RegistrationStep, RegistrationWrite, RegistrationWrites};
use ghostlink::password::{check_password, hash_names_many_lanes, hash_password, HashCost};

const LIGHT: HashCost = HashCost { memory_kb: 64, iterations: 1, parallelism: 1 };

fn registered(password: &str) -> Account {
    register_account(7, "alice".to_string(), false, password, 1_700_000_000_000, &LIGHT).unwrap()
}

#[test]
fn registration_creates_an_unseen_account() {
    let a = registered("correct horse");
    assert_eq!(a.id, 7);
    assert_eq!(a.username, "alice");
    assert_eq!(a.created_at_ms, 1_700_000_000_000);
    assert!(a.last_seen_at_ms.is_none());
    assert!(a.password_hash.starts_with("$argon2id$v=19$m=64,t=1,p=1$"));
    assert!(!a.password_hash.contains("correct horse"));
}

#[test]
fn taken_username_is_a_conflict() {
    let r = register_account(7, "alice".to_string(), true, "correct horse", 0, &LIGHT);
    assert!(matches!(r, Err(AppError::UsernameConflict)));
}

#[test]
fn registered_password_logs_in() {
    let a = registered("correct horse");
    let id = a.id;
    let logged = login_account(Some(a), "correct horse").unwrap();
    assert_eq!(logged.id, id);
}

#[test]
fn wrong_password_and_unknown_user_look_alike() {
    let a = registered("correct horse");
    let wrong = login_account(Some(a), "battery staple");
    let unknown = login_account(None, "correct horse");
    assert!(matches!(wrong, Err(AppError::InvalidCredentials)));
    assert!(matches!(unknown, Err(AppError::InvalidCredentials)));
    assert_eq!(wrong.unwrap_err().client_message(), unknown.unwrap_err().client_message());
}

#[test]
fn unreadable_stored_hash_is_an_internal_error() {
    let mut a = registered("correct horse");
    a.password_hash = "not a hash".to_string();
    assert!(matches!(login_account(Some(a), "correct horse"), Err(AppError::InternalError)));
}

#[test]
fn deletion_needs_the_password() {
    let a = registered("correct horse");
    assert!(authorize_deletion(Some(a), "correct horse").is_ok());
    let b = registered("correct horse");
    assert!(matches!(authorize_deletion(Some(b), "nope nope"), Err(AppError::InvalidCredentials)));
    assert!(matches!(authorize_deletion(None, "correct horse"), Err(AppError::UserNotFound)));
}

#[test]
fn password_hashes_verify() {
    let h = hash_password("s3cret-pass", &LIGHT).unwrap();
    assert!(check_password("s3cret-pass", &h).is_ok());
    assert!(matches!(check_password("other", &h), Err(AppError::InvalidCredentials)));
    let h2 = hash_password("s3cret-pass", &LIGHT).unwrap();
    assert_ne!(h, h2);
}

#[test]
fn profile_prints_times() {
    let a = Account {
        id: 3,
        username: "bob".to_string(),
        password_hash: String::new(),
        created_at_ms: 0,
        last_seen_at_ms: Some(86_400_000),
    };
    let r = Account::me_response(Some(a)).unwrap();
    assert_eq!(r.account_id, 3);
    assert_eq!(r.username, "bob");
    assert_eq!(r.created_at, "1970-01-01T00:00:00+00:00");
    assert_eq!(r.last_seen_at.as_deref(), Some("1970-01-02T00:00:00+00:00"));
    assert!(matches!(Account::me_response(None), Err(AppError::UserNotFound)));
}

#[test]
fn out_of_range_instants_print_as_nothing() {
    let a = Account {
        id: 3,
        username: "bob".to_string(),
        password_hash: String::new(),
        created_at_ms: 1_000,
        last_seen_at_ms: Some(i64::MAX),
    };
    let r = Account::me_response(Some(a)).unwrap();
    assert_eq!(r.created_at, "1970-01-01T00:00:01+00:00");
    assert_eq!(r.last_seen_at, None);
}

#[test]
fn sensitive_password_is_wiped() {
    let mut p = SensitivePassword::new("hunter22".to_string());
    assert_eq!(p.value, "hunter22");
    p.zeroize();
    assert!(p.value.is_empty());
}

#[test]
fn configured_cost_is_recorded() {
    let cost = HashCost { memory_kb: 65536, iterations: 3, parallelism: 4 };
    let h = hash_password("pw", &cost).unwrap();
    assert!(h.starts_with("$argon2id$v=19$m=65536,t=3,p=4$"));
    assert!(check_password("pw", &h).is_ok());
    let prefix_len = "$argon2id$v=19$m=65536,t=3,p=4$".len();
    assert_eq!(h.len(), prefix_len + 66);
    assert_eq!(&h[prefix_len + 22..prefix_len + 23], "$");
    assert!(h[prefix_len..].chars().all(|c| c.is_ascii_alphanumeric() || c == '+' || c == '/' || c == '$'));
}

#[test]
fn hash_naming_too_many_lanes_is_refused_before_argon2() {
    let h = "$argon2id$v=19$m=65536,t=3,p=536870912$c2FsdHNhbHRzYWx0$aGFzaGhhc2hoYXNoaGFzaGhhc2hoYXNoaGFzaGhhc2g";
    assert!(hash_names_many_lanes(h));
    assert!(matches!(check_password("pw", h), Err(AppError::InvalidCredentials)));
    assert!(!hash_names_many_lanes("$argon2id$v=19$m=65536,t=3,p=16777215$c2FsdA$aGFzaA"));
    assert!(matches!(check_password("pw", "not a hash"), Err(AppError::InternalError)));
}

#[test]
fn huge_parallelism_is_refused_without_hashing() {
    let cost = HashCost { memory_kb: 64, iterations: 1, parallelism: 1 << 29 };
    assert!(!cost.accepted());
    assert!(matches!(hash_password("pw", &cost), Err(AppError::InternalError)));
    assert!(HashCost { memory_kb: 64, iterations: 1, parallelism: 8 }.accepted());
    assert!(!HashCost { memory_kb: 64, iterations: 1, parallelism: 9 }.accepted());
}

#[test]
fn refused_cost_is_an_internal_error() {
    let cost = HashCost { memory_kb: 7, iterations: 1, parallelism: 1 };
    assert!(matches!(hash_password("pw", &cost), Err(AppError::InternalError)));
    let r = register_account(1, "x".to_string(), false, "pw", 0, &HashCost { memory_kb: 64, iterations: 0, parallelism: 1 });
    assert!(matches!(r, Err(AppError::InternalError)));
}

#[test]
fn registration_writes_in_order_and_finishes() {
    let (mut w, mut step) = RegistrationWrites::start();
    let mut seen = Vec::new();
    while let RegistrationStep::Write(x) = step {
        seen.push(x);
        let next = w.on_written(Some(true));
        w = next.0;
        step = next.1;
    }
    assert_eq!(
        seen,
        vec![
            RegistrationWrite::ClaimUsername,
            RegistrationWrite::InsertAccount,
            RegistrationWrite::StoreIdentityKey,
            RegistrationWrite::StoreSignedPreKey,
            RegistrationWrite::StorePreKeys,
        ]
    );
    assert_eq!(step, RegistrationStep::Finished { ok: true });
    assert!(registration_result(true).is_ok());
}

#[test]
fn failed_registration_undoes_its_writes_last_first() {
    let (w, _) = RegistrationWrites::start();
    let (w, _) = w.on_written(Some(true));
    let (w, _) = w.on_written(Some(true));
    let (w, _) = w.on_written(Some(true));
    let (mut w, mut step) = w.on_written(None);
    let mut undone = Vec::new();
    while let RegistrationStep::Undo(x) = step {
        undone.push(x);
        let next = w.on_undone();
        w = next.0;
        step = next.1;
    }
    assert_eq!(
        undone,
        vec![RegistrationWrite::StoreIdentityKey, RegistrationWrite::InsertAccount, RegistrationWrite::ClaimUsername]
    );
    assert_eq!(step, RegistrationStep::Finished { ok: false });
    assert!(matches!(registration_result(false), Err(AppError::InternalError)));
}

#[test]
fn username_taken_in_between_leaves_nothing_to_undo() {
    let (w, _) = RegistrationWrites::start();
    let (w, step) = w.on_written(Some(false));
    assert!(w.undoing);
    assert_eq!(w.written, 0);
    assert_eq!(step, RegistrationStep::Finished { ok: false });
}
