use ghostlink::crypto::{OneTimePreKey, SignedPreKey};
use ghostlink::error::AppError;
use ghostlink::requests::{
    normalize_username, registration_username, AddContactRequest, CreateGroupRequest,
    DeleteAccountRequest, LoginRequest, RegisterRequest, UploadPreKeysRequest,
};

fn register(username: &str, password: &str) -> RegisterRequest {
    RegisterRequest {
        username: username.to_string(),
        password: password.to_string(),
        identity_key: "IK".to_string(),
        signed_pre_key: SignedPreKey { key_id: 1, public_key: "P".to_string(), signature: "S".to_string() },
        one_time_pre_keys: vec![],
    }
}

#[test]
fn registration_length_rules() {
    assert!(register("alice", "12345678").validate().is_ok());
    let v = register("al", "short").validate().unwrap_err();
    assert_eq!(v.len(), 2);
    assert_eq!(v[0].field, "username");
    assert_eq!((v[0].min, v[0].max), (Some(3), Some(32)));
    assert_eq!(v[1].field, "password");
    assert_eq!((v[1].min, v[1].max), (Some(8), None));
    let long = "a".repeat(33);
    let v = register(&long, "12345678").validate().unwrap_err();
    assert_eq!(v.len(), 1);
    assert_eq!(v[0].field, "username");
    assert!(register(&"a".repeat(32), "12345678").validate().is_ok());
}

#[test]
fn lengths_count_characters() {
    assert!(register("ééé", "12345678").validate().is_ok());
}

#[test]
fn login_length_rules() {
    assert!(LoginRequest { username: "bob".to_string(), password: "x".to_string() }.validate().is_ok());
    let v = LoginRequest { username: "bob".to_string(), password: String::new() }.validate().unwrap_err();
    assert_eq!(v.len(), 1);
    assert_eq!(v[0].field, "password");
}

#[test]
fn other_request_rules() {
    assert!(DeleteAccountRequest { password: String::new() }.validate().is_err());
    assert!(DeleteAccountRequest { password: "p".to_string() }.validate().is_ok());
    assert!(AddContactRequest { username: "ab".to_string() }.validate().is_err());
    assert!(AddContactRequest { username: "abc".to_string() }.validate().is_ok());
    assert!(UploadPreKeysRequest { one_time_pre_keys: vec![] }.validate().is_err());
    let keys: Vec<OneTimePreKey> = (0..100).map(|i| OneTimePreKey { key_id: i, public_key: "k".to_string() }).collect();
    assert!(UploadPreKeysRequest { one_time_pre_keys: keys }.validate().is_ok());
    let keys: Vec<OneTimePreKey> = (0..101).map(|i| OneTimePreKey { key_id: i, public_key: "k".to_string() }).collect();
    assert!(UploadPreKeysRequest { one_time_pre_keys: keys }.validate().is_err());
    assert!(CreateGroupRequest { name: String::new(), member_usernames: vec![] }.validate().is_err());
    assert!(CreateGroupRequest { name: "g".repeat(64), member_usernames: vec![] }.validate().is_ok());
    assert!(CreateGroupRequest { name: "g".repeat(65), member_usernames: vec![] }.validate().is_err());
}

#[test]
fn delete_request_password_is_wiped() {
    let mut r = DeleteAccountRequest { password: "secret".to_string() };
    r.zeroize();
    assert!(r.password.is_empty());
}

#[test]
fn usernames_are_lowercased() {
    assert_eq!(normalize_username("AlIcE_42"), "alice_42");
    assert_eq!(registration_username("Bob_1").unwrap(), "bob_1");
}

#[test]
fn usernames_allow_only_alphanumerics_and_underscore() {
    match registration_username("bad-name") {
        Err(AppError::Validation(m)) => {
            assert_eq!(m, "Username must contain only alphanumeric characters and underscores")
        }
        _ => panic!("a hyphen is not allowed"),
    }
    assert!(registration_username("with space").is_err());
    assert!(registration_username("ünïcödé").is_ok());
}

#[test]
fn error_statuses_and_codes() {
    let cases: Vec<(AppError, u16, &str, &str)> = vec![
        (AppError::InvalidCredentials, 401, "INVALID_CREDENTIALS", "Invalid username or password"),
        (AppError::UsernameConflict, 409, "USERNAME_CONFLICT", "Username is already taken"),
        (AppError::UserNotFound, 404, "USER_NOT_FOUND", "User not found"),
        (AppError::GroupNotFound, 404, "GROUP_NOT_FOUND", "Group not found"),
        (AppError::Forbidden, 403, "FORBIDDEN", "Insufficient permissions"),
        (AppError::RateLimited, 429, "RATE_LIMITED", "Too many requests"),
        (AppError::TokenExpired, 401, "TOKEN_EXPIRED", "Token has expired"),
        (AppError::TokenInvalid, 401, "TOKEN_INVALID", "Invalid token"),
        (AppError::ContactExists, 409, "CONTACT_EXISTS", "Contact already exists or request pending"),
        (AppError::Validation("bad input".to_string()), 400, "VALIDATION_ERROR", "bad input"),
        (AppError::InternalError, 500, "INTERNAL_ERROR", "An internal error occurred"),
    ];
    for (e, status, code, message) in cases {
        assert_eq!(e.status_code(), status);
        assert_eq!(e.error_code(), code);
        assert_eq!(e.client_message(), message);
    }
}

#[test]
fn error_display_texts() {
    assert_eq!(AppError::InvalidCredentials.to_display_string(), "Invalid credentials");
    assert_eq!(AppError::Validation("x".to_string()).to_display_string(), "Validation failed: x");
    assert_eq!(AppError::InternalError.to_display_string(), "Internal error");
    assert_eq!(AppError::ContactExists.to_display_string(), "Contact already exists");
}
