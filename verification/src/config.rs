//! Server configuration and the settings derived from it: store connection,
//! rate limits, request size limit and readiness.
use vstd::prelude::*;
use crate::ids::{new_uuid_v4, uuid_text, uuid_to_string};
use crate::text::{digits_value, parse_decimal, parse_decimal_text, trim, trimmed};

verus! {

/// The server's configuration, as loaded at startup.
#[derive(Debug, Clone)]
pub struct AppConfig {
    pub server_host: String,
    pub server_port: u16,
    pub scylla_nodes: Vec<String>,
    pub scylla_keyspace: String,
    pub scylla_username: Option<String>,
    pub scylla_password: Option<String>,
    pub redis_url: String,
    pub jwt_secret: String,
    pub argon2_memory_kb: u32,
    pub argon2_iterations: u32,
    pub argon2_parallelism: u32,
    pub storage_backend: String,
    pub s3_bucket: String,
    pub s3_region: String,
    pub nats_url: String,
    pub log_level: String,
    pub max_message_size_bytes: usize,
    pub max_media_size_bytes: usize,
    pub max_group_members: usize,
    pub rate_limit_auth_per_min: u32,
    pub rate_limit_api_per_min: u32,
}

/// The settings the configuration is read from, one per environment
/// variable: `None` where the variable is not set.
#[derive(Debug)]
pub struct EnvSettings {
    pub server_host: Option<String>,
    pub server_port: Option<String>,
    pub scylla_nodes: Option<String>,
    pub scylla_keyspace: Option<String>,
    pub scylla_username: Option<String>,
    pub scylla_password: Option<String>,
    pub redis_url: Option<String>,
    pub jwt_secret: Option<String>,
    pub argon2_memory_kb: Option<String>,
    pub argon2_iterations: Option<String>,
    pub argon2_parallelism: Option<String>,
    pub storage_backend: Option<String>,
    pub s3_bucket: Option<String>,
    pub s3_region: Option<String>,
    pub nats_url: Option<String>,
    pub log_level: Option<String>,
    pub max_message_size_bytes: Option<String>,
    pub max_media_size_bytes: Option<String>,
    pub max_group_members: Option<String>,
    pub rate_limit_auth_per_min: Option<String>,
    pub rate_limit_api_per_min: Option<String>,
}

/// Why a configuration cannot be loaded: the first setting, in the order the
/// configuration is read, that is missing or does not parse.
#[derive(Debug, Clone, Copy, PartialEq, Eq, Structural)]
pub enum ConfigError {
    InvalidServerPort,
    MissingJwtSecret,
    InvalidArgon2MemoryKb,
    InvalidArgon2Iterations,
    InvalidArgon2Parallelism,
    InvalidMaxMessageSize,
    InvalidMaxMediaSize,
    InvalidMaxGroupMembers,
    InvalidAuthRateLimit,
    InvalidApiRateLimit,
}

/// What `str::parse::<u16>` gives for a text.
pub open spec fn parse_u16_text(s: Seq<char>) -> Option<u16> {
    match parse_decimal(s, 0xFFFF) {
        Some(v) => Some(v as u16),
        None => None,
    }
}

/// What `str::parse::<u32>` gives for a text.
pub open spec fn parse_u32_text(s: Seq<char>) -> Option<u32> {
    match parse_decimal(s, 0xFFFF_FFFF) {
        Some(v) => Some(v as u32),
        None => None,
    }
}

/// What `str::parse::<usize>` gives for a text.
pub open spec fn parse_usize_text(s: Seq<char>) -> Option<usize> {
    match parse_decimal(s, usize::MAX as nat) {
        Some(v) => Some(v as usize),
        None => None,
    }
}

/// Parses a decimal `u16` as `str::parse` does.
fn parse_u16(s: &str) -> (res: Option<u16>)
    ensures
        res == parse_u16_text(s@),
{
    match parse_decimal_text(s, 0xFFFF) {
        Some(v) => Some(v as u16),
        None => None,
    }
}

/// Parses a decimal `u32` as `str::parse` does.
fn parse_u32(s: &str) -> (res: Option<u32>)
    ensures
        res == parse_u32_text(s@),
{
    match parse_decimal_text(s, 0xFFFF_FFFF) {
        Some(v) => Some(v as u32),
        None => None,
    }
}

/// Parses a decimal `usize` as `str::parse` does.
fn parse_usize(s: &str) -> (res: Option<usize>)
    ensures
        res == parse_usize_text(s@),
{
    match parse_decimal_text(s, usize::MAX as u64) {
        Some(v) => Some(v as usize),
        None => None,
    }
}

/// A setting's text, or its default where it is not set.
pub open spec fn setting_text(v: Option<String>, default: Seq<char>) -> Seq<char> {
    match v {
        Some(s) => s@,
        None => default,
    }
}

/// A setting's text, or its default where it is not set.
pub fn setting_or(v: &Option<String>, default: &str) -> (res: String)
    ensures
        res@ == setting_text(*v, default@),
{
    match v {
        Some(s) => s.clone(),
        None => String::from_str(default),
    }
}

/// The pieces of `rest` between separators, the first of which begins with
/// `cur`: what `str::split` gives for a single-character separator.
pub open spec fn split_from(rest: Seq<char>, sep: char, cur: Seq<char>) -> Seq<Seq<char>>
    decreases rest.len(),
{
    if rest.len() == 0 {
        seq![cur]
    } else if rest[0] == sep {
        seq![cur] + split_from(rest.drop_first(), sep, Seq::empty())
    } else {
        split_from(rest.drop_first(), sep, cur.push(rest[0]))
    }
}

/// The pieces of a text between the occurrences of a separator.
pub open spec fn split_text(s: Seq<char>, sep: char) -> Seq<Seq<char>> {
    split_from(s, sep, Seq::empty())
}

/// The views of a list of texts.
pub open spec fn texts_view(v: Seq<String>) -> Seq<Seq<char>> {
    v.map_values(|x: String| x@)
}

/// Splits a text at every occurrence of a separator.
fn split_on(s: &str, sep: char) -> (parts: Vec<String>)
    ensures
        texts_view(parts@) == split_text(s@, sep),
{
    let n = s.unicode_len();
    let mut parts: Vec<String> = Vec::new();
    let mut start: usize = 0;
    let mut i: usize = 0;
    proof {
        assert(texts_view(parts@) =~= Seq::<Seq<char>>::empty());
        assert(s@.subrange(0, n as int) =~= s@);
        assert(s@.subrange(0, 0) =~= Seq::<char>::empty());
        assert(Seq::<Seq<char>>::empty() + split_text(s@, sep) =~= split_text(s@, sep));
    }
    while i < n
        invariant
            n == s@.len(),
            start <= i <= n,
            texts_view(parts@) + split_from(s@.subrange(i as int, n as int), sep, s@.subrange(
                start as int,
                i as int,
            )) == split_text(s@, sep),
        decreases n - i,
    {
        let c = s.get_char(i);
        let ghost rest = s@.subrange(i as int, n as int);
        let ghost cur = s@.subrange(start as int, i as int);
        assert(rest.drop_first() =~= s@.subrange(i + 1, n as int));
        assert(rest[0] == c);
        if c == sep {
            let piece = String::from_str(s.substring_char(start, i));
            let ghost before = parts@;
            parts.push(piece);
            proof {
                assert(texts_view(parts@) =~= texts_view(before).push(cur));
                assert(s@.subrange((i + 1) as int, (i + 1) as int) =~= Seq::<char>::empty());
                assert(texts_view(before) + (seq![cur] + split_from(rest.drop_first(), sep, Seq::empty()))
                    =~= texts_view(parts@) + split_from(rest.drop_first(), sep, Seq::empty()));
            }
            start = i + 1;
        } else {
            proof {
                assert(cur.push(c) =~= s@.subrange(start as int, i + 1));
            }
        }
        i = i + 1;
    }
    let last = String::from_str(s.substring_char(start, n));
    let ghost before = parts@;
    parts.push(last);
    proof {
        assert(s@.subrange(n as int, n as int) =~= Seq::<char>::empty());
        assert(texts_view(parts@) =~= texts_view(before) + seq![s@.subrange(start as int, n as int)]);
    }
    parts
}

/// The database nodes of a comma-separated list, each trimmed.
pub open spec fn node_list_text(s: Seq<char>) -> Seq<Seq<char>> {
    split_text(s, ',').map_values(|p: Seq<char>| trimmed(p))
}

/// The database nodes of a comma-separated list: the pieces between commas,
/// each with surrounding whitespace trimmed.
pub fn node_list(s: &str) -> (nodes: Vec<String>)
    ensures
        texts_view(nodes@) == node_list_text(s@),
{
    let parts = split_on(s, ',');
    let mut nodes: Vec<String> = Vec::new();
    let mut i: usize = 0;
    while i < parts.len()
        invariant
            i <= parts@.len(),
            texts_view(parts@) == split_text(s@, ','),
            texts_view(nodes@) == texts_view(parts@).take(i as int).map_values(|p: Seq<char>| trimmed(p)),
        decreases parts@.len() - i,
    {
        let t = trim(parts[i].as_str());
        let ghost before = nodes@;
        nodes.push(t);
        proof {
            assert(texts_view(parts@)[i as int] == parts@[i as int]@);
            assert(texts_view(nodes@) =~= texts_view(before).push(t@));
            assert(texts_view(parts@).take(i + 1).map_values(|p: Seq<char>| trimmed(p)) =~= texts_view(
                parts@,
            ).take(i as int).map_values(|p: Seq<char>| trimmed(p)).push(trimmed(texts_view(parts@)[i as int])));
        }
        i = i + 1;
    }
    proof {
        assert(texts_view(parts@).take(parts@.len() as int) =~= texts_view(parts@));
    }
    nodes
}

/// The first setting, in the order the configuration is read, that keeps
/// it from loading: a port, size, count or limit that does not parse (unset
/// ones take their defaults), or a missing token secret, which has none.
pub open spec fn config_error(e: EnvSettings) -> Option<ConfigError> {
    if parse_u16_text(setting_text(e.server_port, "8080"@)) is None {
        Some(ConfigError::InvalidServerPort)
    } else if e.jwt_secret is None {
        Some(ConfigError::MissingJwtSecret)
    } else if parse_u32_text(setting_text(e.argon2_memory_kb, "65536"@)) is None {
        Some(ConfigError::InvalidArgon2MemoryKb)
    } else if parse_u32_text(setting_text(e.argon2_iterations, "3"@)) is None {
        Some(ConfigError::InvalidArgon2Iterations)
    } else if parse_u32_text(setting_text(e.argon2_parallelism, "4"@)) is None {
        Some(ConfigError::InvalidArgon2Parallelism)
    } else if parse_usize_text(setting_text(e.max_message_size_bytes, "65536"@)) is None {
        Some(ConfigError::InvalidMaxMessageSize)
    } else if parse_usize_text(setting_text(e.max_media_size_bytes, "52428800"@)) is None {
        Some(ConfigError::InvalidMaxMediaSize)
    } else if parse_usize_text(setting_text(e.max_group_members, "256"@)) is None {
        Some(ConfigError::InvalidMaxGroupMembers)
    } else if parse_u32_text(setting_text(e.rate_limit_auth_per_min, "10"@)) is None {
        Some(ConfigError::InvalidAuthRateLimit)
    } else if parse_u32_text(setting_text(e.rate_limit_api_per_min, "300"@)) is None {
        Some(ConfigError::InvalidApiRateLimit)
    } else {
        None
    }
}

/// The configuration that settings give, when they give one: every setting
/// that is not set takes its default, except the token secret, which is
/// required; the database nodes are a comma-separated list.
pub open spec fn config_from(e: EnvSettings, c: AppConfig) -> bool {
    &&& c.server_host@ == setting_text(e.server_host, "0.0.0.0"@)
    &&& Some(c.server_port) == parse_u16_text(setting_text(e.server_port, "8080"@))
    &&& texts_view(c.scylla_nodes@) == node_list_text(setting_text(e.scylla_nodes, "localhost:9042"@))
    &&& c.scylla_keyspace@ == setting_text(e.scylla_keyspace, "ghostlink"@)
    &&& c.scylla_username == e.scylla_username
    &&& c.scylla_password == e.scylla_password
    &&& c.redis_url@ == setting_text(e.redis_url, "redis://localhost:6379"@)
    &&& Some(c.jwt_secret) == e.jwt_secret
    &&& Some(c.argon2_memory_kb) == parse_u32_text(setting_text(e.argon2_memory_kb, "65536"@))
    &&& Some(c.argon2_iterations) == parse_u32_text(setting_text(e.argon2_iterations, "3"@))
    &&& Some(c.argon2_parallelism) == parse_u32_text(setting_text(e.argon2_parallelism, "4"@))
    &&& c.storage_backend@ == setting_text(e.storage_backend, "minio"@)
    &&& c.s3_bucket@ == setting_text(e.s3_bucket, "ghostlink-media"@)
    &&& c.s3_region@ == setting_text(e.s3_region, "us-east-1"@)
    &&& c.nats_url@ == setting_text(e.nats_url, "nats://localhost:4222"@)
    &&& c.log_level@ == setting_text(e.log_level, "info"@)
    &&& Some(c.max_message_size_bytes) == parse_usize_text(setting_text(e.max_message_size_bytes, "65536"@))
    &&& Some(c.max_media_size_bytes) == parse_usize_text(setting_text(e.max_media_size_bytes, "52428800"@))
    &&& Some(c.max_group_members) == parse_usize_text(setting_text(e.max_group_members, "256"@))
    &&& Some(c.rate_limit_auth_per_min) == parse_u32_text(setting_text(e.rate_limit_auth_per_min, "10"@))
    &&& Some(c.rate_limit_api_per_min) == parse_u32_text(setting_text(e.rate_limit_api_per_min, "300"@))
}

/// With every setting unset but the token secret, the configuration loads
/// with its documented defaults: port 8080, Argon2 at 65536 KiB, 3 passes
/// and 4 lanes, messages of 64 KiB, media of 50 MiB, groups of 256, and
/// 10 and 300 requests a minute for authentication and the API.
pub proof fn unset_settings_take_defaults(e: EnvSettings, c: AppConfig)
    requires
        e.server_port is None,
        e.jwt_secret is Some,
        e.argon2_memory_kb is None,
        e.argon2_iterations is None,
        e.argon2_parallelism is None,
        e.max_message_size_bytes is None,
        e.max_media_size_bytes is None,
        e.max_group_members is None,
        e.rate_limit_auth_per_min is None,
        e.rate_limit_api_per_min is None,
    ensures
        config_error(e) is None,
        config_from(e, c) ==> {
            &&& c.server_port == 8080
            &&& c.argon2_memory_kb == 65536
            &&& c.argon2_iterations == 3
            &&& c.argon2_parallelism == 4
            &&& c.max_message_size_bytes == 65536
            &&& c.max_media_size_bytes == 52428800
            &&& c.max_group_members == 256
            &&& c.rate_limit_auth_per_min == 10
            &&& c.rate_limit_api_per_min == 300
        },
{
    reveal_strlit("8080");
    reveal_strlit("65536");
    reveal_strlit("3");
    reveal_strlit("4");
    reveal_strlit("52428800");
    reveal_strlit("256");
    reveal_strlit("10");
    reveal_strlit("300");
    reveal_with_fuel(digits_value, 9);
    assert(digits_value("8080"@) == 8080);
    assert(digits_value("65536"@) == 65536);
    assert(digits_value("3"@) == 3);
    assert(digits_value("4"@) == 4);
    assert(digits_value("52428800"@) == 52428800);
    assert(digits_value("256"@) == 256);
    assert(digits_value("10"@) == 10);
    assert(digits_value("300"@) == 300);
}

/// A setting that is set is the one used: every text setting that is set
/// is taken as it is and every other one is its documented default; every
/// numeric setting that is set is the number its text writes; the node list
/// is the set list, split and trimmed; the credentials and the token secret
/// are those set.
pub proof fn set_settings_are_used(e: EnvSettings, c: AppConfig)
    requires
        config_from(e, c),
    ensures
        e.server_host matches Some(v) ==> c.server_host@ == v@,
        e.server_host is None ==> c.server_host@ == "0.0.0.0"@,
        e.scylla_keyspace matches Some(v) ==> c.scylla_keyspace@ == v@,
        e.scylla_keyspace is None ==> c.scylla_keyspace@ == "ghostlink"@,
        e.redis_url matches Some(v) ==> c.redis_url@ == v@,
        e.redis_url is None ==> c.redis_url@ == "redis://localhost:6379"@,
        e.storage_backend matches Some(v) ==> c.storage_backend@ == v@,
        e.storage_backend is None ==> c.storage_backend@ == "minio"@,
        e.s3_bucket matches Some(v) ==> c.s3_bucket@ == v@,
        e.s3_bucket is None ==> c.s3_bucket@ == "ghostlink-media"@,
        e.s3_region matches Some(v) ==> c.s3_region@ == v@,
        e.s3_region is None ==> c.s3_region@ == "us-east-1"@,
        e.nats_url matches Some(v) ==> c.nats_url@ == v@,
        e.nats_url is None ==> c.nats_url@ == "nats://localhost:4222"@,
        e.log_level matches Some(v) ==> c.log_level@ == v@,
        e.log_level is None ==> c.log_level@ == "info"@,
        e.server_port matches Some(v) ==> Some(c.server_port) == parse_u16_text(v@),
        e.argon2_memory_kb matches Some(v) ==> Some(c.argon2_memory_kb) == parse_u32_text(v@),
        e.argon2_iterations matches Some(v) ==> Some(c.argon2_iterations) == parse_u32_text(v@),
        e.argon2_parallelism matches Some(v) ==> Some(c.argon2_parallelism) == parse_u32_text(v@),
        e.max_message_size_bytes matches Some(v) ==> Some(c.max_message_size_bytes) == parse_usize_text(v@),
        e.max_media_size_bytes matches Some(v) ==> Some(c.max_media_size_bytes) == parse_usize_text(v@),
        e.max_group_members matches Some(v) ==> Some(c.max_group_members) == parse_usize_text(v@),
        e.rate_limit_auth_per_min matches Some(v) ==> Some(c.rate_limit_auth_per_min) == parse_u32_text(v@),
        e.rate_limit_api_per_min matches Some(v) ==> Some(c.rate_limit_api_per_min) == parse_u32_text(v@),
        e.scylla_nodes matches Some(v) ==> texts_view(c.scylla_nodes@) == node_list_text(v@),
        c.scylla_username == e.scylla_username,
        c.scylla_password == e.scylla_password,
        e.jwt_secret == Some(c.jwt_secret),
{
}

impl AppConfig {
    /// Loads the configuration from its settings.
    pub fn from_settings(e: &EnvSettings) -> (res: Result<AppConfig, ConfigError>)
        ensures
            match config_error(*e) {
                Some(err) => res == Err::<AppConfig, ConfigError>(err),
                None => res matches Ok(c) && config_from(*e, c),
            },
            res matches Ok(c) ==> (e.server_host matches Some(v) ==> c.server_host@ == v@),
            res matches Ok(c) ==> (e.scylla_keyspace matches Some(v) ==> c.scylla_keyspace@ == v@),
            res matches Ok(c) ==> (e.redis_url matches Some(v) ==> c.redis_url@ == v@),
            res matches Ok(c) ==> (e.storage_backend matches Some(v) ==> c.storage_backend@ == v@),
            res matches Ok(c) ==> (e.s3_bucket matches Some(v) ==> c.s3_bucket@ == v@),
            res matches Ok(c) ==> (e.s3_region matches Some(v) ==> c.s3_region@ == v@),
            res matches Ok(c) ==> (e.nats_url matches Some(v) ==> c.nats_url@ == v@),
            res matches Ok(c) ==> (e.log_level matches Some(v) ==> c.log_level@ == v@),
            res matches Ok(c) ==> (e.server_port matches Some(v) ==> Some(c.server_port) == parse_u16_text(v@)),
            res matches Ok(c) ==> (e.argon2_memory_kb matches Some(v) ==> Some(c.argon2_memory_kb) == parse_u32_text(v@)),
            res matches Ok(c) ==> (e.argon2_iterations matches Some(v) ==> Some(c.argon2_iterations) == parse_u32_text(v@)),
            res matches Ok(c) ==> (e.argon2_parallelism matches Some(v) ==> Some(c.argon2_parallelism) == parse_u32_text(v@)),
            res matches Ok(c) ==> (e.max_message_size_bytes matches Some(v) ==> Some(c.max_message_size_bytes) == parse_usize_text(v@)),
            res matches Ok(c) ==> (e.max_media_size_bytes matches Some(v) ==> Some(c.max_media_size_bytes) == parse_usize_text(v@)),
            res matches Ok(c) ==> (e.max_group_members matches Some(v) ==> Some(c.max_group_members) == parse_usize_text(v@)),
            res matches Ok(c) ==> (e.rate_limit_auth_per_min matches Some(v) ==> Some(c.rate_limit_auth_per_min) == parse_u32_text(v@)),
            res matches Ok(c) ==> (e.rate_limit_api_per_min matches Some(v) ==> Some(c.rate_limit_api_per_min) == parse_u32_text(v@)),
            res matches Ok(c) ==> (e.scylla_nodes matches Some(v) ==> texts_view(c.scylla_nodes@) == node_list_text(v@)),
            res matches Ok(c) ==> c.scylla_username == e.scylla_username && c.scylla_password == e.scylla_password,
            res matches Ok(c) ==> e.jwt_secret == Some(c.jwt_secret),
    {
        proof {
            reveal_strlit("0.0.0.0");
            reveal_strlit("8080");
            reveal_strlit("localhost:9042");
            reveal_strlit("ghostlink");
            reveal_strlit("redis://localhost:6379");
            reveal_strlit("65536");
            reveal_strlit("3");
            reveal_strlit("4");
            reveal_strlit("minio");
            reveal_strlit("ghostlink-media");
            reveal_strlit("us-east-1");
            reveal_strlit("nats://localhost:4222");
            reveal_strlit("info");
            reveal_strlit("52428800");
            reveal_strlit("256");
            reveal_strlit("10");
            reveal_strlit("300");
        }
        let server_host = setting_or(&e.server_host, "0.0.0.0");
        let port_text = setting_or(&e.server_port, "8080");
        let server_port = match parse_u16(port_text.as_str()) {
            Some(p) => p,
            None => { return Err(ConfigError::InvalidServerPort); },
        };
        let nodes_text = setting_or(&e.scylla_nodes, "localhost:9042");
        let scylla_nodes = node_list(nodes_text.as_str());
        let scylla_keyspace = setting_or(&e.scylla_keyspace, "ghostlink");
        let scylla_username = clone_opt(&e.scylla_username);
        let scylla_password = clone_opt(&e.scylla_password);
        let redis_url = setting_or(&e.redis_url, "redis://localhost:6379");
        let jwt_secret = match &e.jwt_secret {
            Some(j) => j.clone(),
            None => { return Err(ConfigError::MissingJwtSecret); },
        };
        let t = setting_or(&e.argon2_memory_kb, "65536");
        let argon2_memory_kb = match parse_u32(t.as_str()) {
            Some(v) => v,
            None => { return Err(ConfigError::InvalidArgon2MemoryKb); },
        };
        let t = setting_or(&e.argon2_iterations, "3");
        let argon2_iterations = match parse_u32(t.as_str()) {
            Some(v) => v,
            None => { return Err(ConfigError::InvalidArgon2Iterations); },
        };
        let t = setting_or(&e.argon2_parallelism, "4");
        let argon2_parallelism = match parse_u32(t.as_str()) {
            Some(v) => v,
            None => { return Err(ConfigError::InvalidArgon2Parallelism); },
        };
        let storage_backend = setting_or(&e.storage_backend, "minio");
        let s3_bucket = setting_or(&e.s3_bucket, "ghostlink-media");
        let s3_region = setting_or(&e.s3_region, "us-east-1");
        let nats_url = setting_or(&e.nats_url, "nats://localhost:4222");
        let log_level = setting_or(&e.log_level, "info");
        let t = setting_or(&e.max_message_size_bytes, "65536");
        let max_message_size_bytes = match parse_usize(t.as_str()) {
            Some(v) => v,
            None => { return Err(ConfigError::InvalidMaxMessageSize); },
        };
        let t = setting_or(&e.max_media_size_bytes, "52428800");
        let max_media_size_bytes = match parse_usize(t.as_str()) {
            Some(v) => v,
            None => { return Err(ConfigError::InvalidMaxMediaSize); },
        };
        let t = setting_or(&e.max_group_members, "256");
        let max_group_members = match parse_usize(t.as_str()) {
            Some(v) => v,
            None => { return Err(ConfigError::InvalidMaxGroupMembers); },
        };
        let t = setting_or(&e.rate_limit_auth_per_min, "10");
        let rate_limit_auth_per_min = match parse_u32(t.as_str()) {
            Some(v) => v,
            None => { return Err(ConfigError::InvalidAuthRateLimit); },
        };
        let t = setting_or(&e.rate_limit_api_per_min, "300");
        let rate_limit_api_per_min = match parse_u32(t.as_str()) {
            Some(v) => v,
            None => { return Err(ConfigError::InvalidApiRateLimit); },
        };
        Ok(AppConfig {
            server_host,
            server_port,
            scylla_nodes,
            scylla_keyspace,
            scylla_username,
            scylla_password,
            redis_url,
            jwt_secret,
            argon2_memory_kb,
            argon2_iterations,
            argon2_parallelism,
            storage_backend,
            s3_bucket,
            s3_region,
            nats_url,
            log_level,
            max_message_size_bytes,
            max_media_size_bytes,
            max_group_members,
            rate_limit_auth_per_min,
            rate_limit_api_per_min,
        })
    }
}

/// What connecting to the stores needs.
#[derive(Debug, Clone)]
pub struct DatabaseConfig {
    pub scylla_nodes: Vec<String>,
    pub scylla_keyspace: String,
    pub scylla_username: Option<String>,
    pub scylla_password: Option<String>,
    pub redis_url: String,
}

/// A copy of a list of texts.
fn clone_texts(v: &Vec<String>) -> (r: Vec<String>)
    ensures
        r@ == v@,
{
    let mut r: Vec<String> = Vec::new();
    let mut i: usize = 0;
    while i < v.len()
        invariant
            i <= v@.len(),
            r@ == v@.take(i as int),
        decreases v@.len() - i,
    {
        r.push(v[i].clone());
        proof {
            assert(v@.take(i + 1) =~= v@.take(i as int).push(v@[i as int]));
        }
        i = i + 1;
    }
    proof {
        assert(v@.take(v@.len() as int) =~= v@);
    }
    r
}

/// A copy of an optional text.
fn clone_opt(o: &Option<String>) -> (r: Option<String>)
    ensures
        r == *o,
{
    match o {
        Some(s) => Some(s.clone()),
        None => None,
    }
}

impl DatabaseConfig {
    /// The store settings of a server configuration.
    pub fn from_app_config(c: &AppConfig) -> (d: DatabaseConfig)
        ensures
            d.scylla_nodes@ == c.scylla_nodes@,
            d.scylla_keyspace == c.scylla_keyspace,
            d.scylla_username == c.scylla_username,
            d.scylla_password == c.scylla_password,
            d.redis_url == c.redis_url,
    {
        DatabaseConfig {
            scylla_nodes: clone_texts(&c.scylla_nodes),
            scylla_keyspace: c.scylla_keyspace.clone(),
            scylla_username: clone_opt(&c.scylla_username),
            scylla_password: clone_opt(&c.scylla_password),
            redis_url: c.redis_url.clone(),
        }
    }

    /// The credentials to log in to the database with: only when both a user
    /// name and a password are configured.
    pub fn credentials(&self) -> (res: Option<(String, String)>)
        ensures
            res == (match (self.scylla_username, self.scylla_password) {
                (Some(u), Some(p)) => Some((u, p)),
                _ => None,
            }),
    {
        match (&self.scylla_username, &self.scylla_password) {
            (Some(u), Some(p)) => Some((u.clone(), p.clone())),
            _ => None,
        }
    }
}

/// A rate limit: one request is replenished every `period_ms` milliseconds,
/// and up to `burst` requests may be spent at once.
#[derive(Debug)]
pub struct RateQuota {
    pub period_ms: u64,
    pub burst: u32,
}

/// The quota that allows `per_min` requests a minute: a full burst of
/// `per_min` requests, replenished one every 60000 / `per_min` milliseconds.
/// No quota can be built for zero requests, nor for more than one a
/// millisecond.
pub open spec fn quota_for(per_min: u32) -> Option<(u64, u32)> {
    if 1 <= per_min && per_min <= 60000 {
        Some(((60000int / (per_min as int)) as u64, per_min))
    } else {
        None
    }
}

/// The quota that allows `per_min` requests a minute.
pub fn quota_per_minute(per_min: u32) -> (q: Option<RateQuota>)
    ensures
        match quota_for(per_min) {
            Some((period_ms, burst)) => q matches Some(r) && r.period_ms == period_ms && r.burst == burst,
            None => q is None,
        },
{
    if per_min == 0 || per_min > 60000 {
        None
    } else {
        Some(RateQuota { period_ms: 60000u64 / (per_min as u64), burst: per_min })
    }
}

/// A quota replenishes its whole burst within a minute, so it lets the
/// limit through every minute; and its period is the longest that does so.
pub proof fn quota_refills_within_a_minute(per_min: u32)
    requires
        1 <= per_min <= 60000,
    ensures
        quota_for(per_min) matches Some((period_ms, burst)) && burst == per_min && period_ms >= 1
            && period_ms * burst <= 60000 && (period_ms + 1) * burst > 60000,
{
    let p: int = 60000int / (per_min as int);
    assert(p * per_min <= 60000 && (p + 1) * per_min > 60000 && p >= 1) by (nonlinear_arith)
        requires
            1 <= per_min <= 60000,
            p == 60000int / (per_min as int),
    ;
}

/// How many registrations a client address may make an hour.
pub const REGISTRATIONS_PER_HOUR: u32 = 3;

/// The quota that allows `per_hour` requests an hour: a full burst of
/// `per_hour` requests, replenished one every 3600000 / `per_hour`
/// milliseconds. No quota can be built for zero requests, nor for more than
/// one a millisecond.
pub open spec fn hourly_quota_for(per_hour: u32) -> Option<(u64, u32)> {
    if 1 <= per_hour && per_hour <= 3_600_000 {
        Some(((3_600_000int / (per_hour as int)) as u64, per_hour))
    } else {
        None
    }
}

/// The quota that allows `per_hour` requests an hour.
pub fn quota_per_hour(per_hour: u32) -> (q: Option<RateQuota>)
    ensures
        match hourly_quota_for(per_hour) {
            Some((period_ms, burst)) => q matches Some(r) && r.period_ms == period_ms && r.burst == burst,
            None => q is None,
        },
{
    if per_hour == 0 || per_hour > 3_600_000 {
        None
    } else {
        Some(RateQuota { period_ms: 3_600_000u64 / (per_hour as u64), burst: per_hour })
    }
}

/// Rate limiting of registration and of login (per client address) and of
/// the other API endpoints (per account).
#[derive(Debug)]
pub struct RateLimitConfig;

impl RateLimitConfig {
    /// The quota of registration: three an hour, one replenished every
    /// twenty minutes.
    pub fn register_quota() -> (q: RateQuota)
        ensures
            q.burst == REGISTRATIONS_PER_HOUR,
            q.period_ms == 1_200_000,
            q.period_ms * q.burst == 3_600_000,
    {
        match quota_per_hour(REGISTRATIONS_PER_HOUR) {
            Some(q) => q,
            None => {
                proof {
                    assert(false);
                }
                RateQuota { period_ms: 1_200_000, burst: REGISTRATIONS_PER_HOUR }
            },
        }
    }

    /// The quota of login: the configured per-minute limit.
    pub fn auth_quota(config: &AppConfig) -> (q: Option<RateQuota>)
        ensures
            match quota_for(config.rate_limit_auth_per_min) {
                Some((period_ms, burst)) => q matches Some(r) && r.period_ms == period_ms && r.burst == burst,
                None => q is None,
            },
    {
        quota_per_minute(config.rate_limit_auth_per_min)
    }

    /// The quota of the other API endpoints: their per-minute limit.
    pub fn api_quota(config: &AppConfig) -> (q: Option<RateQuota>)
        ensures
            match quota_for(config.rate_limit_api_per_min) {
                Some((period_ms, burst)) => q matches Some(r) && r.period_ms == period_ms && r.burst == burst,
                None => q is None,
            },
    {
        quota_per_minute(config.rate_limit_api_per_min)
    }
}

/// The largest request body accepted: the larger of the media and message limits.
pub fn request_body_limit(config: &AppConfig) -> (n: usize)
    ensures
        n == (if config.max_media_size_bytes >= config.max_message_size_bytes {
            config.max_media_size_bytes
        } else {
            config.max_message_size_bytes
        }),
{
    if config.max_media_size_bytes >= config.max_message_size_bytes {
        config.max_media_size_bytes
    } else {
        config.max_message_size_bytes
    }
}

/// The readiness answer: ready (200) only when both stores answered, else
/// unhealthy (503).
pub fn readiness(database_ok: bool, cache_ok: bool) -> (res: (u16, &'static str))
    ensures
        database_ok && cache_ok ==> res.0 == 200 && res.1@ == "ready"@,
        !(database_ok && cache_ok) ==> res.0 == 503 && res.1@ == "unhealthy"@,
{
    if database_ok && cache_ok {
        (200, "ready")
    } else {
        (503, "unhealthy")
    }
}

/// The identifier given to each request, for tracing.
#[derive(Debug, Clone)]
pub struct RequestId(pub String);

impl RequestId {
    /// A fresh request identifier: the text of a new random (version 4) UUID.
    pub fn generate() -> (r: RequestId)
        ensures
            exists|id: u128| r.0@ == #[trigger] uuid_text(id) && id & 0xF000_0000_0000_0000_0000u128
                == 0x4000_0000_0000_0000_0000u128,
    {
        let id = new_uuid_v4();
        assert(id & 0xF000_0000_0000_0000_0000u128 == 0x4000_0000_0000_0000_0000u128) by (bit_vector)
            requires
                id & 0xF000_8000_0000_0000_0000u128 == 0x4000_8000_0000_0000_0000u128;
        RequestId(uuid_to_string(id))
    }
}

} // verus!
