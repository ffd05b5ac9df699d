//! The bodies of REST requests, their length rules, and the normalization of
//! usernames (lowercase, letters, digits and underscores only).
use vstd::prelude::*;
use crate::crypto::{OneTimePreKey, SignedPreKey};
use crate::error::AppError;
use crate::types::ContactAction;

verus! {

/// A length rule that a field of a request broke.
#[derive(Debug)]
pub struct LengthViolation {
    /// The field's name.
    pub field: String,
    /// The least length allowed, if any.
    pub min: Option<u64>,
    /// The greatest length allowed, if any.
    pub max: Option<u64>,
}

/// A broken length rule as plain values.
pub open spec fn violation_view(v: LengthViolation) -> (Seq<char>, Option<u64>, Option<u64>) {
    (v.field@, v.min, v.max)
}

/// Whether a length is within optional bounds.
pub open spec fn within(len: nat, min: Option<u64>, max: Option<u64>) -> bool {
    &&& min matches Some(m) ==> len >= m
    &&& max matches Some(m) ==> len <= m
}

/// The rules that the given (field, length, min, max) checks break, in order.
pub open spec fn broken_rules(checks: Seq<(Seq<char>, nat, Option<u64>, Option<u64>)>) -> Seq<
    (Seq<char>, Option<u64>, Option<u64>),
>
    decreases checks.len(),
{
    if checks.len() == 0 {
        Seq::empty()
    } else {
        let last = checks.last();
        let rest = broken_rules(checks.drop_last());
        if within(last.1, last.2, last.3) {
            rest
        } else {
            rest.push((last.0, last.2, last.3))
        }
    }
}

/// Checks one length rule, recording it when broken.
fn check_length(
    violations: &mut Vec<LengthViolation>,
    field: &str,
    len: usize,
    min: Option<u64>,
    max: Option<u64>,
)
    ensures
        within(len as nat, min, max) ==> final(violations)@ == old(violations)@,
        !within(len as nat, min, max) ==> final(violations)@.len() == old(violations)@.len() + 1
            && final(violations)@.drop_last() == old(violations)@ && violation_view(
            final(violations)@.last(),
        ) == (field@, min, max),
{
    let len = len as u64;
    let too_short = match min {
        Some(m) => len < m,
        None => false,
    };
    let too_long = match max {
        Some(m) => len > m,
        None => false,
    };
    if too_short || too_long {
        violations.push(LengthViolation { field: String::from_str(field), min, max });
        proof {
            assert(final(violations)@.drop_last() =~= old(violations)@);
        }
    }
}

/// The views of recorded violations.
pub open spec fn violations_view(v: Seq<LengthViolation>) -> Seq<(Seq<char>, Option<u64>, Option<u64>)> {
    v.map_values(|x: LengthViolation| violation_view(x))
}

/// Pushing one violation adds its view.
proof fn lemma_violations_push(before: Seq<LengthViolation>, after: Seq<LengthViolation>)
    requires
        after.len() == before.len() + 1,
        after.drop_last() == before,
    ensures
        violations_view(after) == violations_view(before).push(violation_view(after.last())),
{
    assert(violations_view(after) =~= violations_view(before).push(violation_view(after.last())));
}

/// Records the rules that the given checks break, in order.
fn check_all(checks: Vec<(&str, usize, Option<u64>, Option<u64>)>) -> (res: Result<(), Vec<LengthViolation>>)
    ensures
        res is Ok <==> broken_rules(
            checks@.map_values(|c: (&str, usize, Option<u64>, Option<u64>)| (c.0@, c.1 as nat, c.2, c.3)),
        ).len() == 0,
        res matches Err(v) ==> violations_view(v@) == broken_rules(
            checks@.map_values(|c: (&str, usize, Option<u64>, Option<u64>)| (c.0@, c.1 as nat, c.2, c.3)),
        ),
{
    let ghost all = checks@.map_values(|c: (&str, usize, Option<u64>, Option<u64>)| (c.0@, c.1 as nat, c.2, c.3));
    let mut violations: Vec<LengthViolation> = Vec::new();
    let mut i: usize = 0;
    while i < checks.len()
        invariant
            i <= checks@.len(),
            all == checks@.map_values(|c: (&str, usize, Option<u64>, Option<u64>)| (c.0@, c.1 as nat, c.2, c.3)),
            violations_view(violations@) == broken_rules(all.take(i as int)),
        decreases checks@.len() - i,
    {
        let (field, len, min, max) = checks[i];
        let ghost before = violations@;
        check_length(&mut violations, field, len, min, max);
        proof {
            assert(all.take(i + 1).drop_last() =~= all.take(i as int));
            assert(all.take(i + 1).last() == all[i as int]);
            if !within(len as nat, min, max) {
                lemma_violations_push(before, violations@);
            }
        }
        i = i + 1;
    }
    proof {
        assert(all.take(checks@.len() as int) =~= all);
    }
    if violations.len() == 0 {
        Ok(())
    } else {
        Err(violations)
    }
}

/// `POST /auth/register`: a new account with its Signal key bundle.
#[derive(Debug)]
pub struct RegisterRequest {
    pub username: String,
    pub password: String,
    pub identity_key: String,
    pub signed_pre_key: SignedPreKey,
    pub one_time_pre_keys: Vec<OneTimePreKey>,
}

/// `POST /auth/login`.
#[derive(Debug)]
pub struct LoginRequest {
    pub username: String,
    pub password: String,
}

/// `DELETE /account/me`: the password, to confirm.
#[derive(Debug)]
pub struct DeleteAccountRequest {
    pub password: String,
}

/// `POST /contacts`: the exact username to send a request to.
#[derive(Debug)]
pub struct AddContactRequest {
    pub username: String,
}

/// `PATCH /contacts/{id}`: what to do with a contact request.
#[derive(Debug)]
pub struct RespondContactRequest {
    pub action: ContactAction,
}

/// `PUT /keys/pre-keys`: one-time pre-keys to add.
#[derive(Debug)]
pub struct UploadPreKeysRequest {
    pub one_time_pre_keys: Vec<OneTimePreKey>,
}

/// A group to create, with the usernames of its first members.
#[derive(Debug)]
pub struct CreateGroupRequest {
    pub name: String,
    pub member_usernames: Vec<String>,
}

/// A member to add to a group.
#[derive(Debug)]
pub struct AddGroupMemberRequest {
    pub username: String,
}

/// A group member's new role.
#[derive(Debug)]
pub struct UpdateMemberRoleRequest {
    pub role: String,
}

/// An invite link to generate.
#[derive(Debug)]
pub struct InviteLinkRequest {
    pub expires_hours: u32,
}

/// One (field, length, min, max) check as plain values.
pub open spec fn check(field: Seq<char>, len: nat, min: Option<u64>, max: Option<u64>) -> (
    Seq<char>,
    nat,
    Option<u64>,
    Option<u64>,
) {
    (field, len, min, max)
}

/// The length rules of a registration: a username of 3 to 32 characters and
/// a password of at least 8.
pub open spec fn register_checks(r: RegisterRequest) -> Seq<(Seq<char>, nat, Option<u64>, Option<u64>)> {
    seq![
        check("username"@, r.username@.len(), Some(3), Some(32)),
        check("password"@, r.password@.len(), Some(8), None),
    ]
}

/// The length rules of a login: a username of 3 to 32 characters and a
/// non-empty password.
pub open spec fn login_checks(r: LoginRequest) -> Seq<(Seq<char>, nat, Option<u64>, Option<u64>)> {
    seq![
        check("username"@, r.username@.len(), Some(3), Some(32)),
        check("password"@, r.password@.len(), Some(1), None),
    ]
}

/// Lengths are counted in characters, as the `validator` crate counts them.
fn char_count(s: &str) -> (n: usize)
    ensures
        n == s@.len(),
{
    s.unicode_len()
}

impl RegisterRequest {
    /// Checks the length rules; the broken ones are listed in field order.
    pub fn validate(&self) -> (res: Result<(), Vec<LengthViolation>>)
        ensures
            res is Ok <==> broken_rules(register_checks(*self)).len() == 0,
            res matches Err(v) ==> violations_view(v@) == broken_rules(register_checks(*self)),
    {
        let mut checks = Vec::new();
        checks.push(("username", char_count(self.username.as_str()), Some(3u64), Some(32u64)));
        checks.push(("password", char_count(self.password.as_str()), Some(8u64), None));
        let res = check_all(checks);
        proof {
            reveal_strlit("username");
            reveal_strlit("password");
            assert(checks@.map_values(|c: (&str, usize, Option<u64>, Option<u64>)| (c.0@, c.1 as nat, c.2, c.3))
                =~= register_checks(*self));
        }
        res
    }
}

/// The length rule of an account deletion: a non-empty password.
pub open spec fn delete_account_checks(r: DeleteAccountRequest) -> Seq<(Seq<char>, nat, Option<u64>, Option<u64>)> {
    seq![check("password"@, r.password@.len(), Some(1), None)]
}

/// The length rule of a contact request: a username of 3 to 32 characters.
pub open spec fn add_contact_checks(r: AddContactRequest) -> Seq<(Seq<char>, nat, Option<u64>, Option<u64>)> {
    seq![check("username"@, r.username@.len(), Some(3), Some(32))]
}

/// The length rule of a pre-key upload: 1 to 100 keys.
pub open spec fn upload_pre_keys_checks(r: UploadPreKeysRequest) -> Seq<(Seq<char>, nat, Option<u64>, Option<u64>)> {
    seq![check("one_time_pre_keys"@, r.one_time_pre_keys@.len(), Some(1), Some(100))]
}

/// The length rule of a group creation: a name of 1 to 64 characters.
pub open spec fn create_group_checks(r: CreateGroupRequest) -> Seq<(Seq<char>, nat, Option<u64>, Option<u64>)> {
    seq![check("name"@, r.name@.len(), Some(1), Some(64))]
}

/// The plain view of a list of checks.
pub open spec fn checks_view(checks: Seq<(&str, usize, Option<u64>, Option<u64>)>) -> Seq<(Seq<char>, nat, Option<u64>, Option<u64>)> {
    checks.map_values(|c: (&str, usize, Option<u64>, Option<u64>)| (c.0@, c.1 as nat, c.2, c.3))
}

/// Checks a single length rule.
fn check_one(field: &str, len: usize, min: Option<u64>, max: Option<u64>) -> (res: Result<(), Vec<LengthViolation>>)
    ensures
        res is Ok <==> broken_rules(seq![check(field@, len as nat, min, max)]).len() == 0,
        res matches Err(v) ==> violations_view(v@) == broken_rules(seq![check(field@, len as nat, min, max)]),
{
    let mut checks = Vec::new();
    checks.push((field, len, min, max));
    let res = check_all(checks);
    proof {
        assert(checks_view(checks@) =~= seq![check(field@, len as nat, min, max)]);
    }
    res
}

impl LoginRequest {
    /// Checks the length rules; the broken ones are listed in field order.
    pub fn validate(&self) -> (res: Result<(), Vec<LengthViolation>>)
        ensures
            res is Ok <==> broken_rules(login_checks(*self)).len() == 0,
            res matches Err(v) ==> violations_view(v@) == broken_rules(login_checks(*self)),
    {
        let mut checks = Vec::new();
        checks.push(("username", char_count(self.username.as_str()), Some(3u64), Some(32u64)));
        checks.push(("password", char_count(self.password.as_str()), Some(1u64), None));
        let res = check_all(checks);
        proof {
            reveal_strlit("username");
            reveal_strlit("password");
            assert(checks_view(checks@) =~= login_checks(*self));
        }
        res
    }
}

impl Drop for DeleteAccountRequest {
    /// The password is wiped when the request goes out of use.
    fn drop(&mut self)
        opens_invariants none
        no_unwind
    {
        crate::account::zeroize_string(&mut self.password);
    }
}

impl DeleteAccountRequest {
    /// Checks the length rule.
    pub fn validate(&self) -> (res: Result<(), Vec<LengthViolation>>)
        ensures
            res is Ok <==> broken_rules(delete_account_checks(*self)).len() == 0,
            res matches Err(v) ==> violations_view(v@) == broken_rules(delete_account_checks(*self)),
    {
        let res = check_one("password", char_count(self.password.as_str()), Some(1u64), None);
        proof {
            reveal_strlit("password");
        }
        res
    }

    /// Wipes the password once it has been checked: its bytes are zeroed and
    /// it is left empty.
    pub fn zeroize(&mut self)
        ensures
            final(self).password@ == Seq::<char>::empty(),
    {
        crate::account::zeroize_string(&mut self.password);
    }
}

impl AddContactRequest {
    /// Checks the length rule.
    pub fn validate(&self) -> (res: Result<(), Vec<LengthViolation>>)
        ensures
            res is Ok <==> broken_rules(add_contact_checks(*self)).len() == 0,
            res matches Err(v) ==> violations_view(v@) == broken_rules(add_contact_checks(*self)),
    {
        let res = check_one("username", char_count(self.username.as_str()), Some(3u64), Some(32u64));
        proof {
            reveal_strlit("username");
        }
        res
    }
}

impl UploadPreKeysRequest {
    /// Checks the length rule.
    pub fn validate(&self) -> (res: Result<(), Vec<LengthViolation>>)
        ensures
            res is Ok <==> broken_rules(upload_pre_keys_checks(*self)).len() == 0,
            res matches Err(v) ==> violations_view(v@) == broken_rules(upload_pre_keys_checks(*self)),
    {
        let res = check_one("one_time_pre_keys", self.one_time_pre_keys.len(), Some(1u64), Some(100u64));
        proof {
            reveal_strlit("one_time_pre_keys");
        }
        res
    }
}

impl CreateGroupRequest {
    /// Checks the length rule.
    pub fn validate(&self) -> (res: Result<(), Vec<LengthViolation>>)
        ensures
            res is Ok <==> broken_rules(create_group_checks(*self)).len() == 0,
            res matches Err(v) ==> violations_view(v@) == broken_rules(create_group_checks(*self)),
    {
        let res = check_one("name", char_count(self.name.as_str()), Some(1u64), Some(64u64));
        proof {
            reveal_strlit("name");
        }
        res
    }
}

/// What `str::to_lowercase` makes of a text.
pub uninterp spec fn spec_to_lowercase(s: Seq<char>) -> Seq<char>;

/// Lowercases a text with `str::to_lowercase`.
#[verifier::external_body]
fn to_lowercase(s: &str) -> (r: String)
    ensures
        r@ == spec_to_lowercase(s@),
{
    s.to_lowercase()
}

/// What `char::is_alphanumeric` says of a character.
pub uninterp spec fn spec_is_alphanumeric(c: char) -> bool;

/// Whether a character is alphabetic or numeric, by `char::is_alphanumeric`.
#[verifier::external_body]
fn is_alphanumeric(c: char) -> (b: bool)
    ensures
        b == spec_is_alphanumeric(c),
{
    c.is_alphanumeric()
}

/// A username as it is stored and looked up: lowercased.
pub fn normalize_username(username: &str) -> (r: String)
    ensures
        r@ == spec_to_lowercase(username@),
{
    to_lowercase(username)
}

/// Whether every character of a username is alphanumeric or an underscore.
pub open spec fn username_charset_ok(s: Seq<char>) -> bool {
    forall|i: int| 0 <= i < s.len() ==> spec_is_alphanumeric(#[trigger] s[i]) || s[i] == '_'
}

/// The username a registration creates: the requested one lowercased, which
/// must hold only alphanumeric characters and underscores.
pub fn registration_username(username: &str) -> (res: Result<String, AppError>)
    ensures
        username_charset_ok(spec_to_lowercase(username@)) ==> (res matches Ok(u) && u@
            == spec_to_lowercase(username@)),
        !username_charset_ok(spec_to_lowercase(username@)) ==> (res matches Err(AppError::Validation(m))
            && m@ == "Username must contain only alphanumeric characters and underscores"@),
{
    let normalized = to_lowercase(username);
    let n = normalized.as_str().unicode_len();
    let mut i: usize = 0;
    while i < n
        invariant
            i <= n,
            n == normalized@.len(),
            normalized@ == spec_to_lowercase(username@),
            forall|j: int| 0 <= j < i ==> spec_is_alphanumeric(#[trigger] normalized@[j]) || normalized@[j] == '_',
        decreases n - i,
    {
        let c = normalized.as_str().get_char(i);
        if !(is_alphanumeric(c) || c == '_') {
            assert(c == normalized@[i as int]);
            assert(!(spec_is_alphanumeric(normalized@[i as int]) || normalized@[i as int] == '_'));
            assert(!username_charset_ok(normalized@));
            return Err(AppError::Validation(
                String::from_str("Username must contain only alphanumeric characters and underscores"),
            ));
        }
        i = i + 1;
    }
    Ok(normalized)
}

} // verus!
