//! Accounts: pseudonymous users known by a username only.
use vstd::prelude::*;
use crate::error::AppError;
use crate::ids::{uuid_text, uuid_to_string};
use crate::password::{
    check_password, cost_accepted, hash_password, password_check_outcome, phc_hash_shape, spec_argon2_verify, HashCost,
};
use crate::time::{rfc3339_of_millis, rfc3339_or_now, spec_rfc3339_of_millis};

verus! {

/// A stored account. Instants are milliseconds since the Unix epoch.
#[derive(Debug, Clone)]
pub struct Account {
    pub id: u128,
    pub username: String,
    pub password_hash: String,
    pub created_at_ms: i64,
    pub last_seen_at_ms: Option<i64>,
}

/// The account that a request was authenticated as.
#[derive(Debug, Clone)]
pub struct AuthenticatedAccount {
    pub id: u128,
    pub username: String,
}

/// Clears a string's bytes with `zeroize`, which zeroes them and leaves the
/// string empty; it writes and clears only, so it never panics.
#[verifier::external_body]
pub(crate) fn zeroize_string(s: &mut String)
    ensures
        final(s)@ == Seq::<char>::empty(),
    opens_invariants none
    no_unwind
{
    zeroize::Zeroize::zeroize(s);
}

/// A password held only as long as it is needed, and wiped afterwards.
#[derive(Debug)]
pub struct SensitivePassword {
    pub value: String,
}

impl Drop for SensitivePassword {
    /// The password is wiped when it goes out of use.
    fn drop(&mut self)
        opens_invariants none
        no_unwind
    {
        zeroize_string(&mut self.value);
    }
}

impl SensitivePassword {
    /// Holds a password.
    pub fn new(password: String) -> (res: SensitivePassword)
        ensures
            res.value == password,
    {
        SensitivePassword { value: password }
    }

    /// Wipes the password: its bytes are zeroed and it is left empty.
    pub fn zeroize(&mut self)
        ensures
            final(self).value@ == Seq::<char>::empty(),
    {
        zeroize_string(&mut self.value);
    }
}

/// What creating an account stores.
#[derive(Debug, Clone)]
pub struct NewAccount {
    pub username: String,
    pub password_hash: String,
}

/// The answer to a successful registration or login.
#[derive(Debug)]
pub struct AuthResponse {
    pub token: String,
    pub account_id: u128,
    pub username: String,
}

/// The answer to `GET /account/me`.
#[derive(Debug)]
pub struct AccountMeResponse {
    pub account_id: u128,
    pub username: String,
    pub created_at: String,
    pub last_seen_at: Option<String>,
}

/// The account created by a registration, once its username has been
/// normalized and checked for availability: a taken username is a conflict;
/// otherwise the password is hashed at the configured cost (which succeeds
/// whenever Argon2 accepts the cost) and the account has not been seen yet.
pub fn register_account(
    id: u128,
    username: String,
    username_taken: bool,
    password: &str,
    created_at_ms: i64,
    cost: &HashCost,
) -> (res: Result<Account, AppError>)
    ensures
        username_taken ==> res matches Err(AppError::UsernameConflict),
        !username_taken ==> match res {
            Ok(a) => a.id == id && a.username == username && a.created_at_ms == created_at_ms
                && a.last_seen_at_ms is None && password_check_outcome(password@, a.password_hash@) is Ok
                && phc_hash_shape(*cost, a.password_hash@),
            Err(e) => e is InternalError,
        },
        !username_taken && cost_accepted(*cost) && password@.len() <= 0x3FFF_FFFF ==> res is Ok,
        !username_taken && !cost_accepted(*cost) ==> res is Err,
{
    if username_taken {
        return Err(AppError::UsernameConflict);
    }
    let password_hash = hash_password(password, cost)?;
    Ok(Account { id, username, password_hash, created_at_ms, last_seen_at_ms: None })
}

/// Why a login is refused, if it is: no account under the normalized
/// username, or a password that does not check out against its hash.
pub open spec fn login_refusal(found: Option<Account>, password: Seq<char>) -> Option<AppError> {
    match found {
        None => Some(AppError::InvalidCredentials),
        Some(a) => match password_check_outcome(password, a.password_hash@) {
            Ok(_) => None,
            Err(e) => Some(e),
        },
    }
}

/// The account a login authenticates: the account found under the
/// normalized username, if the password matches. An unknown username and a
/// wrong password are refused with the same error.
pub fn login_account(found: Option<Account>, password: &str) -> (res: Result<Account, AppError>)
    ensures
        match login_refusal(found, password@) {
            None => found matches Some(a) && res == Ok::<Account, AppError>(a),
            Some(e) => res == Err::<Account, AppError>(e),
        },
{
    match found {
        None => Err(AppError::InvalidCredentials),
        Some(a) => {
            match check_password(password, a.password_hash.as_str()) {
                Ok(()) => Ok(a),
                Err(e) => Err(e),
            }
        },
    }
}

/// The account a deletion may go ahead for: the authenticated account, which
/// must still exist, and whose password must be confirmed.
pub fn authorize_deletion(found: Option<Account>, password: &str) -> (res: Result<Account, AppError>)
    ensures
        match found {
            None => res matches Err(AppError::UserNotFound),
            Some(a) => match password_check_outcome(password@, a.password_hash@) {
                Ok(_) => res == Ok::<Account, AppError>(a),
                Err(e) => res == Err::<Account, AppError>(e),
            },
        },
{
    match found {
        None => Err(AppError::UserNotFound),
        Some(a) => {
            match check_password(password, a.password_hash.as_str()) {
                Ok(()) => Ok(a),
                Err(e) => Err(e),
            }
        },
    }
}

/// A login with a wrong password is refused exactly as one under a username
/// that no account has: with invalid credentials, whose message does not say
/// which of the two was wrong.
pub proof fn login_failures_look_alike(a: Account, password: Seq<char>)
    requires
        spec_argon2_verify(password, a.password_hash@) == Some(false),
    ensures
        login_refusal(Some(a), password) == login_refusal(None, password),
        login_refusal(None, password) == Some(AppError::InvalidCredentials),
        crate::error::error_message_text(AppError::InvalidCredentials) == "Invalid username or password"@,
{
}

impl Account {
    /// The profile of an account: the authenticated account, which must still
    /// exist, with its times as RFC 3339 text.
    pub fn me_response(found: Option<Account>) -> (res: Result<AccountMeResponse, AppError>)
        ensures
            match found {
                None => res matches Err(AppError::UserNotFound),
                Some(a) => res matches Ok(r) && r.account_id == a.id && r.username == a.username
                    && (spec_rfc3339_of_millis(a.created_at_ms) matches Some(t) ==> r.created_at@ == t)
                    && match a.last_seen_at_ms {
                    None => r.last_seen_at is None,
                    Some(ms) => match spec_rfc3339_of_millis(ms) {
                        Some(t) => r.last_seen_at matches Some(s) && s@ == t,
                        None => r.last_seen_at is None,
                    },
                },
            },
    {
        match found {
            None => Err(AppError::UserNotFound),
            Some(a) => {
                let last_seen_at = match a.last_seen_at_ms {
                    Some(ms) => rfc3339_of_millis(ms),
                    None => None,
                };
                Ok(AccountMeResponse {
                    account_id: a.id,
                    username: a.username,
                    created_at: rfc3339_or_now(a.created_at_ms),
                    last_seen_at,
                })
            },
        }
    }
}

} // verus!
