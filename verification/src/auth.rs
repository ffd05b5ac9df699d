//! Authentication of requests: bearer tokens, token subjects, and the claims
//! that issued tokens carry (the account identifier, issue time and expiry;
//! never a username).
use vstd::prelude::*;
use crate::account::{Account, AuthenticatedAccount};
use crate::error::AppError;
use crate::ids::{parse_uuid, spec_parse_uuid, uuid_text, uuid_to_string};
use crate::text::strip_prefix;

verus! {

/// How long an issued token is valid, in seconds (thirty days).
pub const TOKEN_LIFETIME_SECS: usize = 2592000;

/// The claims of an issued token.
#[derive(Debug)]
pub struct JwtClaims {
    /// The account identifier, as text.
    pub sub: String,
    /// Expiry, in seconds since the Unix epoch.
    pub exp: usize,
    /// Issue time, in seconds since the Unix epoch.
    pub iat: usize,
}

impl JwtClaims {
    /// The claims of a token issued to an account at time `now` (seconds since
    /// the epoch): the account's identifier as subject, valid for thirty days.
    pub fn for_account(account_id: u128, now: usize) -> (c: JwtClaims)
        requires
            now + TOKEN_LIFETIME_SECS <= usize::MAX,
        ensures
            c.sub@ == uuid_text(account_id),
            c.iat == now,
            c.exp == now + TOKEN_LIFETIME_SECS,
    {
        JwtClaims { sub: uuid_to_string(account_id), exp: now + TOKEN_LIFETIME_SECS, iat: now }
    }
}

/// What checking a token's signature and expiry gave.
#[derive(Debug)]
pub enum TokenCheck {
    /// Signature and expiry are good; the token's subject claim.
    Valid { sub: String },
    /// The signature is good but the token has expired.
    Expired,
    /// Anything else: bad signature, malformed token, missing claims.
    Invalid,
}

/// The `Bearer ` prefix of an authorization header.
pub open spec fn bearer_prefix() -> Seq<char> {
    "Bearer "@
}

/// The token carried by an `Authorization` header: the text after `Bearer `.
/// A missing header, one that is not visible ASCII, or one without the
/// prefix is refused as an invalid token.
pub fn bearer_token(header: Option<&str>) -> (res: Result<String, AppError>)
    ensures
        match header {
            None => res matches Err(AppError::TokenInvalid),
            Some(h) => if h@.len() >= 7 && h@.subrange(0, 7) == bearer_prefix() {
                res matches Ok(t) && t@ == h@.subrange(7, h@.len() as int)
            } else {
                res matches Err(AppError::TokenInvalid)
            },
        },
{
    match header {
        None => Err(AppError::TokenInvalid),
        Some(h) => {
            let prefix = "Bearer ";
            proof {
                reveal_strlit("Bearer ");
            }
            match strip_prefix(h, prefix) {
                Some(t) => Ok(String::from_str(t)),
                None => Err(AppError::TokenInvalid),
            }
        },
    }
}

/// The account a checked token stands for. An expired token is refused as
/// expired, any other failure as invalid, and a subject that is not a UUID as
/// invalid. A token whose subject is an account's identifier text stands for
/// that account.
pub fn account_id_from_token(check: TokenCheck) -> (res: Result<u128, AppError>)
    ensures
        match check {
            TokenCheck::Expired => res matches Err(AppError::TokenExpired),
            TokenCheck::Invalid => res matches Err(AppError::TokenInvalid),
            TokenCheck::Valid { sub } => match spec_parse_uuid(sub@) {
                Some(id) => res == Ok::<u128, AppError>(id),
                None => res matches Err(AppError::TokenInvalid),
            },
        },
        check matches TokenCheck::Valid { sub } ==> forall|x: u128|
            #[trigger] uuid_text(x) == sub@ ==> res == Ok::<u128, AppError>(x),
{
    match check {
        TokenCheck::Expired => Err(AppError::TokenExpired),
        TokenCheck::Invalid => Err(AppError::TokenInvalid),
        TokenCheck::Valid { sub } => match parse_uuid(sub.as_str()) {
            Some(id) => Ok(id),
            None => Err(AppError::TokenInvalid),
        },
    }
}

/// The authenticated account once the token's account has been looked up: a
/// failed lookup is an internal error, and an account that no longer exists
/// makes the token invalid.
pub fn authenticated_from_lookup(lookup: Result<Option<Account>, ()>) -> (res: Result<
    AuthenticatedAccount,
    AppError,
>)
    ensures
        match lookup {
            Err(_) => res matches Err(AppError::InternalError),
            Ok(None) => res matches Err(AppError::TokenInvalid),
            Ok(Some(a)) => res matches Ok(auth) && auth.id == a.id && auth.username == a.username,
        },
{
    match lookup {
        Err(_) => Err(AppError::InternalError),
        Ok(None) => Err(AppError::TokenInvalid),
        Ok(Some(a)) => Ok(AuthenticatedAccount { id: a.id, username: a.username }),
    }
}

/// The HS256 token that `jsonwebtoken::encode` makes, under the default
/// header, for the claims `{"sub", "exp", "iat"}`, in that order, and a
/// secret.
pub uninterp spec fn spec_jwt_hs256(sub: Seq<char>, exp: usize, iat: usize, secret: Seq<char>) -> Seq<char>;

/// What a token verifies to under a secret: nothing unless it has three
/// parts, a header naming HS256, a signature that verifies under the secret
/// and a payload that is a JSON object; otherwise the payload's `sub` (when a
/// string), `exp` and `iat` (when non-negative integers of 64 bits).
pub uninterp spec fn spec_jwt_claims(token: Seq<char>, secret: Seq<char>) -> Option<(Option<Seq<char>>, Option<u64>, Option<u64>)>;

/// What a token made for these claims carries once verified.
pub open spec fn claims_carried(sub: Seq<char>, exp: usize, iat: usize) -> Option<(Option<Seq<char>>, Option<u64>, Option<u64>)> {
    Some((Some(sub), Some(exp as u64), Some(iat as u64)))
}

/// Signs the claims of a token with `jsonwebtoken::encode` (default HS256
/// header, `EncodingKey::from_secret`). HMAC signing and the serialization of
/// these claims cannot fail, so a token always comes back; it verifies under
/// the same secret and carries the claims it was made with.
#[verifier::external_body]
fn jwt_encode_hs256(sub: &str, exp: usize, iat: usize, secret: &str) -> (res: Option<String>)
    ensures
        res is Some,
        res matches Some(t) ==> t@ == spec_jwt_hs256(sub@, exp, iat, secret@),
        res matches Some(t) ==> spec_jwt_claims(t@, secret@) == claims_carried(sub@, exp, iat),
{
    let mut claims = serde_json::Map::new();
    claims.insert("sub".to_string(), serde_json::Value::from(sub));
    claims.insert("exp".to_string(), serde_json::Value::from(exp));
    claims.insert("iat".to_string(), serde_json::Value::from(iat));
    let key = jsonwebtoken::EncodingKey::from_secret(secret.as_bytes());
    jsonwebtoken::encode(&jsonwebtoken::Header::default(), &claims, &key).ok()
}

/// What decoding a token gave.
enum JwtDecoded {
    /// The token verified and is not expired: its claims.
    Verified { sub: Option<String>, exp: Option<u64>, iat: Option<u64> },
    /// The signature verified but the token has expired.
    Expired,
    /// Anything else.
    Rejected,
}

/// The claims a decoded token gave, as plain values.
pub open spec fn verified_claims(sub: Option<String>, exp: Option<u64>, iat: Option<u64>) -> Option<(Option<Seq<char>>, Option<u64>, Option<u64>)> {
    Some((match sub { Some(s) => Some(s@), None => None }, exp, iat))
}

/// Decodes a token with `jsonwebtoken::decode` under `Validation::default()`
/// (HS256, `exp` required and checked against the clock with its leeway).
/// Whether a verified token has expired depends on the clock, so that is not
/// stated; stated is that only a token that verifies under the secret is
/// ever taken or found expired, and that a taken token's claims are its own.
#[verifier::external_body]
fn jwt_decode_hs256(token: &str, secret: &str) -> (res: JwtDecoded)
    ensures
        (res matches JwtDecoded::Verified { sub, exp, iat } ==> spec_jwt_claims(token@, secret@)
            == verified_claims(sub, exp, iat)),
        res is Expired ==> spec_jwt_claims(token@, secret@) is Some,
{
    let key = jsonwebtoken::DecodingKey::from_secret(secret.as_bytes());
    let v = jsonwebtoken::Validation::default();
    match jsonwebtoken::decode::<serde_json::Map<String, serde_json::Value>>(token, &key, &v) {
        Ok(d) => JwtDecoded::Verified {
            sub: d.claims.get("sub").and_then(|x| x.as_str()).map(|x| x.to_string()),
            exp: d.claims.get("exp").and_then(|x| x.as_u64()),
            iat: d.claims.get("iat").and_then(|x| x.as_u64()),
        },
        Err(e) if *e.kind() == jsonwebtoken::errors::ErrorKind::ExpiredSignature => JwtDecoded::Expired,
        Err(_) => JwtDecoded::Rejected,
    }
}

/// Decodes a token with `jsonwebtoken::decode` under HS256 with no claim
/// checks (`validate_exp` and `validate_aud` off, no required claims): the
/// claims of a token that verifies under the secret, whatever the clock says.
#[verifier::external_body]
fn jwt_claims_hs256(token: &str, secret: &str) -> (res: JwtDecoded)
    ensures
        (res matches JwtDecoded::Verified { sub, exp, iat } ==> spec_jwt_claims(token@, secret@)
            == verified_claims(sub, exp, iat)),
        res is Rejected ==> spec_jwt_claims(token@, secret@) is None,
        res !is Expired,
{
    let key = jsonwebtoken::DecodingKey::from_secret(secret.as_bytes());
    let mut v = jsonwebtoken::Validation::default();
    v.validate_exp = false;
    v.validate_aud = false;
    v.required_spec_claims.clear();
    match jsonwebtoken::decode::<serde_json::Map<String, serde_json::Value>>(token, &key, &v) {
        Ok(d) => JwtDecoded::Verified {
            sub: d.claims.get("sub").and_then(|x| x.as_str()).map(|x| x.to_string()),
            exp: d.claims.get("exp").and_then(|x| x.as_u64()),
            iat: d.claims.get("iat").and_then(|x| x.as_u64()),
        },
        Err(_) => JwtDecoded::Rejected,
    }
}

/// The token issued to an account at time `now` (seconds since the epoch),
/// signed with the server's secret: its subject is the account's identifier
/// and it is valid for thirty days. It never carries a username.
pub fn issue_token(account_id: u128, now: usize, secret: &str) -> (res: String)
    requires
        now + TOKEN_LIFETIME_SECS <= usize::MAX,
    ensures
        res@ == spec_jwt_hs256(uuid_text(account_id), (now + TOKEN_LIFETIME_SECS) as usize, now, secret@),
        spec_jwt_claims(res@, secret@) == claims_carried(
            uuid_text(account_id),
            (now + TOKEN_LIFETIME_SECS) as usize,
            now,
        ),
{
    let c = JwtClaims::for_account(account_id, now);
    match jwt_encode_hs256(c.sub.as_str(), c.exp, c.iat, secret) {
        Some(t) => t,
        None => {
            proof {
                assert(false);
            }
            String::new()
        },
    }
}

/// Checks a token's signature and expiry under the server's secret. Only a
/// token that verifies under the secret and carries a subject, an expiry
/// and an issue time is valid or expired; a valid token gives its subject.
pub fn check_token(token: &str, secret: &str) -> (res: TokenCheck)
    ensures
        res matches TokenCheck::Valid { sub } ==> spec_jwt_claims(token@, secret@) matches Some(
            (Some(s), Some(_), Some(_)),
        ) && s == sub@,
        res is Expired ==> spec_jwt_claims(token@, secret@) matches Some((Some(_), Some(_), Some(_))),
        spec_jwt_claims(token@, secret@) is None ==> res is Invalid,
        spec_jwt_claims(token@, secret@) matches Some((s, e, i)) && (s is None || e is None || i is None)
            ==> res is Invalid,
{
    match jwt_decode_hs256(token, secret) {
        JwtDecoded::Verified { sub: Some(sub), exp: Some(_), iat: Some(_) } => TokenCheck::Valid { sub },
        JwtDecoded::Verified { .. } => TokenCheck::Invalid,
        JwtDecoded::Expired => match jwt_claims_hs256(token, secret) {
            JwtDecoded::Verified { sub: Some(_), exp: Some(_), iat: Some(_) } => TokenCheck::Expired,
            _ => TokenCheck::Invalid,
        },
        JwtDecoded::Rejected => TokenCheck::Invalid,
    }
}

/// The token of a well-formed `Authorization` header: the text after `Bearer `.
pub open spec fn bearer_text(header: Option<&str>) -> Option<Seq<char>> {
    match header {
        Some(h) => if h@.len() >= 7 && h@.subrange(0, 7) == bearer_prefix() {
            Some(h@.subrange(7, h@.len() as int))
        } else {
            None
        },
        None => None,
    }
}

/// The account that a request's `Authorization` header authenticates: a
/// missing or malformed header, or a token that does not verify under the
/// secret, is an invalid token; a verified but expired token is an expired
/// one; otherwise the token's subject must be an account identifier.
pub fn authenticate_bearer(header: Option<&str>, secret: &str) -> (res: Result<u128, AppError>)
    ensures
        bearer_text(header) is None ==> res matches Err(AppError::TokenInvalid),
        bearer_text(header) matches Some(t) && spec_jwt_claims(t, secret@) is None ==> res matches Err(
            AppError::TokenInvalid,
        ),
        res matches Ok(id) ==> bearer_text(header) matches Some(t) && spec_jwt_claims(t, secret@) matches Some(
            (Some(s), Some(_), Some(_)),
        ) && spec_parse_uuid(s) == Some(id),
        res matches Err(AppError::TokenExpired) ==> bearer_text(header) matches Some(t) && spec_jwt_claims(
            t,
            secret@,
        ) matches Some((Some(_), Some(_), Some(_))),
        res matches Err(e) ==> (e is TokenInvalid || e is TokenExpired),
{
    let token = bearer_token(header)?;
    account_id_from_token(check_token(token.as_str(), secret))
}

} // verus!
