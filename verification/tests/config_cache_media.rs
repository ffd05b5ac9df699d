use ghostlink::cache::{
    account_sessions_key, cached_pre_key_count, invalidation_keys_of, pre_key_count_key, presence_key, session_key,
    PRESENCE_TTL_SECS, PRE_KEY_COUNT_TTL_SECS, SESSION_TTL_SECS,
};
use ghostlink::config::{
    node_list, readiness, request_body_limit, setting_or, AppConfig, ConfigError, DatabaseConfig,
    EnvSettings, RateLimitConfig, RequestId,
};
use ghostlink::media::{store_succeeded, MediaError, MediaStorage, UploadHandler, MAX_MEDIA_BYTES};
use ghostlink::push::{ApnsClient, FcmClient, PushDelivery, PushDispatcher, PushSend};
use ghostlink::types::Platform;

fn empty_settings() -> EnvSettings {
    EnvSettings {
        server_host: None,
        server_port: None,
        scylla_nodes: None,
        scylla_keyspace: None,
        scylla_username: None,
        scylla_password: None,
        redis_url: None,
        jwt_secret: Some("SECRET-REDACTED".to_string()),
        argon2_memory_kb: None,
        argon2_iterations: None,
        argon2_parallelism: None,
        storage_backend: None,
        s3_bucket: None,
        s3_region: None,
        nats_url: None,
        log_level: None,
        max_message_size_bytes: None,
        max_media_size_bytes: None,
        max_group_members: None,
        rate_limit_auth_per_min: None,
        rate_limit_api_per_min: None,
    }
}

#[test]
fn defaults_fill_unset_settings() {
    let c = AppConfig::from_settings(&empty_settings()).unwrap();
    assert_eq!(c.server_host, "0.0.0.0");
    assert_eq!(c.server_port, 8080);
    assert_eq!(c.scylla_nodes, vec!["localhost:9042".to_string()]);
    assert_eq!(c.scylla_keyspace, "ghostlink");
    assert_eq!(c.redis_url, "redis://localhost:6379");
    assert_eq!(c.argon2_memory_kb, 65536);
    assert_eq!(c.argon2_iterations, 3);
    assert_eq!(c.argon2_parallelism, 4);
    assert_eq!(c.storage_backend, "minio");
    assert_eq!(c.s3_bucket, "ghostlink-media");
    assert_eq!(c.s3_region, "us-east-1");
    assert_eq!(c.nats_url, "nats://localhost:4222");
    assert_eq!(c.log_level, "info");
    assert_eq!(c.max_message_size_bytes, 65536);
    assert_eq!(c.max_media_size_bytes, 52428800);
    assert_eq!(c.max_group_members, 256);
    assert_eq!(c.rate_limit_auth_per_min, 10);
    assert_eq!(c.rate_limit_api_per_min, 300);
    assert!(c.scylla_username.is_none());
}

#[test]
fn settings_override_defaults() {
    let mut e = empty_settings();
    e.server_port = Some("9000".to_string());
    e.scylla_nodes = Some(" a:1 , b:2,c:3 ".to_string());
    e.scylla_username = Some("u".to_string());
    e.rate_limit_api_per_min = Some("120".to_string());
    let c = AppConfig::from_settings(&e).unwrap();
    assert_eq!(c.server_port, 9000);
    assert_eq!(c.scylla_nodes, vec!["a:1".to_string(), "b:2".to_string(), "c:3".to_string()]);
    assert_eq!(c.scylla_username.as_deref(), Some("u"));
    assert_eq!(c.rate_limit_api_per_min, 120);
}

#[test]
fn bad_settings_are_refused_in_order() {
    let mut e = empty_settings();
    e.server_port = Some("99999".to_string());
    e.jwt_secret = None;
    assert_eq!(AppConfig::from_settings(&e).err(), Some(ConfigError::InvalidServerPort));
    let mut e = empty_settings();
    e.jwt_secret = None;
    assert_eq!(AppConfig::from_settings(&e).err(), Some(ConfigError::MissingJwtSecret));
    let mut e = empty_settings();
    e.argon2_iterations = Some("three".to_string());
    e.rate_limit_auth_per_min = Some("-1".to_string());
    assert_eq!(AppConfig::from_settings(&e).err(), Some(ConfigError::InvalidArgon2Iterations));
    let mut e = empty_settings();
    e.rate_limit_auth_per_min = Some("-1".to_string());
    assert_eq!(AppConfig::from_settings(&e).err(), Some(ConfigError::InvalidAuthRateLimit));
}

#[test]
fn node_lists_split_on_commas() {
    assert_eq!(node_list(""), vec!["".to_string()]);
    assert_eq!(node_list("x,,y"), vec!["x".to_string(), "".to_string(), "y".to_string()]);
    assert_eq!(setting_or(&None, "d"), "d");
    assert_eq!(setting_or(&Some("v".to_string()), "d"), "v");
}

#[test]
fn database_settings_and_credentials() {
    let mut e = empty_settings();
    e.scylla_username = Some("user".to_string());
    let c = AppConfig::from_settings(&e).unwrap();
    let d = DatabaseConfig::from_app_config(&c);
    assert_eq!(d.scylla_nodes, c.scylla_nodes);
    assert_eq!(d.redis_url, c.redis_url);
    assert!(d.credentials().is_none());
    let mut e = empty_settings();
    e.scylla_username = Some("user".to_string());
    e.scylla_password = Some("pw".to_string());
    let d = DatabaseConfig::from_app_config(&AppConfig::from_settings(&e).unwrap());
    assert_eq!(d.credentials(), Some(("user".to_string(), "pw".to_string())));
}

#[test]
fn rate_quotas_and_body_limit() {
    let c = AppConfig::from_settings(&empty_settings()).unwrap();
    let a = RateLimitConfig::auth_quota(&c).unwrap();
    assert_eq!((a.period_ms, a.burst), (6000, 10));
    let p = RateLimitConfig::api_quota(&c).unwrap();
    assert_eq!((p.period_ms, p.burst), (200, 300));
    assert_eq!(request_body_limit(&c), 52428800);
}

#[test]
fn readiness_answers() {
    assert_eq!(readiness(true, true), (200, "ready"));
    assert_eq!(readiness(false, true), (503, "unhealthy"));
    assert_eq!(readiness(true, false), (503, "unhealthy"));
}

#[test]
fn request_ids_are_fresh_uuids() {
    let a = RequestId::generate();
    let b = RequestId::generate();
    assert_ne!(a.0, b.0);
    let id = uuid::Uuid::parse_str(&a.0).unwrap().as_u128();
    assert_eq!((id >> 76) & 0xF, 4);
}

#[test]
fn cache_keys() {
    let id: u128 = 0x550e_8400_e29b_41d4_a716_4466_5544_0000;
    assert_eq!(presence_key(id), "presence:550e8400-e29b-41d4-a716-446655440000");
    assert_eq!(pre_key_count_key(id), "prekey_count:550e8400-e29b-41d4-a716-446655440000");
    assert_eq!(session_key("abc"), "session:abc");
    assert_eq!(account_sessions_key(id), "account_sessions:550e8400-e29b-41d4-a716-446655440000");
    let keys = invalidation_keys_of(id, &vec!["h1".to_string(), "h2".to_string()]);
    assert_eq!(
        keys,
        vec![
            "session:h1".to_string(),
            "session:h2".to_string(),
            "account_sessions:550e8400-e29b-41d4-a716-446655440000".to_string()
        ]
    );
    assert_ne!(presence_key(1), presence_key(2));
    assert_eq!((PRESENCE_TTL_SECS, PRE_KEY_COUNT_TTL_SECS, SESSION_TTL_SECS), (65, 300, 2_592_000));
}

#[test]
fn cached_counts() {
    assert_eq!(cached_pre_key_count(Some(Some(3))), Some(3));
    assert_eq!(cached_pre_key_count(Some(None)), None);
    assert_eq!(cached_pre_key_count(None), None);
}

#[test]
fn media_locations_and_limits() {
    let s = MediaStorage::new("http://minio:9000".to_string(), "media".to_string(), "ak".to_string(), "sk".to_string());
    assert_eq!(s.object_url("k1"), "http://minio:9000/media/k1");
    assert!(store_succeeded(200));
    assert!(store_succeeded(204));
    assert!(!store_succeeded(404));
    assert!(!store_succeeded(500));
    assert_eq!(MAX_MEDIA_BYTES, 52_428_800);
    assert_eq!(MediaError::TooLarge.message(), "Media exceeds maximum size of 50MB");
}

#[test]
fn uploads_over_the_limit_are_refused() {
    let h = UploadHandler;
    let id = h.handle_upload(1, &[1, 2, 3], 0).unwrap();
    assert!(uuid::Uuid::parse_str(&id).is_ok());
    let big = vec![0u8; MAX_MEDIA_BYTES + 1];
    assert!(matches!(h.handle_upload(1, &big, 0), Err(MediaError::TooLarge)));
    let exact = vec![0u8; MAX_MEDIA_BYTES];
    assert!(h.handle_upload(1, &exact, 0).is_ok());
}

#[test]
fn push_clients_without_credentials_are_stubs() {
    assert!(!ApnsClient::new(Some("team".to_string()), None).initialized);
    assert!(matches!(ApnsClient::new(None, None).send_notification("t"), PushSend::Stub));
    assert!(matches!(FcmClient::new(None).send_notification("t"), PushSend::Stub));
}

#[test]
fn push_payloads_carry_no_content() {
    match ApnsClient::new(Some("team".to_string()), Some("key".to_string())).send_notification("tok") {
        PushSend::Send(p) => {
            assert_eq!(p.title, "GhostLink");
            assert_eq!(p.body, "New message");
            assert_eq!(p.content_available, 1);
            assert_eq!(p.sound, "default");
        }
        PushSend::Stub => panic!("configured client must send"),
    }
    match FcmClient::new(Some("key".to_string())).send_notification("tok") {
        PushSend::Send(p) => {
            assert_eq!(p.to, "tok");
            assert_eq!(p.msg_type, "NEW_MESSAGE");
        }
        PushSend::Stub => panic!("configured client must send"),
    }
}

#[test]
fn dispatch_by_platform() {
    let d = PushDispatcher::new(None, None, Some("key".to_string()));
    assert!(matches!(d.dispatch(Platform::Ios, "t"), PushDelivery::Apns(PushSend::Stub)));
    assert!(matches!(d.dispatch(Platform::Android, "t"), PushDelivery::Fcm(PushSend::Send(_))));
}

#[test]
fn dispatcher_keeps_credentials() {
    let d = PushDispatcher::new(Some("team".to_string()), Some("key".to_string()), None);
    assert!(d.apns.initialized);
    assert_eq!(d.apns.team_id, "team");
    assert_eq!(d.apns.key_id, "key");
    assert!(d.apns.signing_key.is_empty());
    assert!(!d.fcm.initialized);
    assert!(d.fcm.server_key.is_empty());
}

#[test]
fn quotas_per_minute() {
    let q = ghostlink::config::quota_per_minute(60).unwrap();
    assert_eq!((q.period_ms, q.burst), (1000, 60));
    let q = ghostlink::config::quota_per_minute(7).unwrap();
    assert_eq!((q.period_ms, q.burst), (8571, 7));
    assert!(ghostlink::config::quota_per_minute(0).is_none());
    assert!(ghostlink::config::quota_per_minute(60001).is_none());
    assert!(ghostlink::config::quota_per_minute(60000).is_some());
}

#[test]
fn registration_quota_is_three_an_hour() {
    let q = RateLimitConfig::register_quota();
    assert_eq!((q.period_ms, q.burst), (1_200_000, 3));
    let q = ghostlink::config::quota_per_hour(50).unwrap();
    assert_eq!((q.period_ms, q.burst), (72_000, 50));
    assert!(ghostlink::config::quota_per_hour(0).is_none());
    assert!(ghostlink::config::quota_per_hour(3_600_001).is_none());
}

#[test]
fn numbers_parse_as_str_parse_does() {
    let mut e = empty_settings();
    e.server_port = Some("+8081".to_string());
    e.max_group_members = Some("0007".to_string());
    let c = AppConfig::from_settings(&e).unwrap();
    assert_eq!(c.server_port, 8081);
    assert_eq!(c.max_group_members, 7);
    for bad in [" 8080", "8080 ", "", "+", "-1", "65536", "80a", "++1"] {
        let mut e = empty_settings();
        e.server_port = Some(bad.to_string());
        assert_eq!(AppConfig::from_settings(&e).err(), Some(ConfigError::InvalidServerPort), "{:?}", bad);
    }
    let mut e = empty_settings();
    e.server_port = Some("65535".to_string());
    e.argon2_memory_kb = Some("4294967295".to_string());
    let c = AppConfig::from_settings(&e).unwrap();
    assert_eq!(c.server_port, 65535);
    assert_eq!(c.argon2_memory_kb, u32::MAX);
    let mut e = empty_settings();
    e.argon2_memory_kb = Some("4294967296".to_string());
    assert_eq!(AppConfig::from_settings(&e).err(), Some(ConfigError::InvalidArgon2MemoryKb));
}

#[test]
fn node_names_are_trimmed_of_unicode_whitespace() {
    assert_eq!(
        node_list("\u{a0}a:1\u{3000},\t b:2 \n,\u{2028}"),
        vec!["a:1".to_string(), "b:2".to_string(), "".to_string()]
    );
    assert_eq!(node_list(" x\u{200b} "), vec!["x\u{200b}".to_string()]);
}
