//! Signal Protocol public key material that the server relays, and the
//! fetching of a key bundle, which hands out (and so consumes) one one-time
//! pre-key.
use vstd::prelude::*;
use crate::account::Account;
use crate::cache::cached_pre_key_count;
use crate::error::AppError;

verus! {

/// A one-time pre-key (public part, base64 text).
#[derive(Debug, Clone)]
pub struct OneTimePreKey {
    pub key_id: i32,
    pub public_key: String,
}

/// A signed pre-key (public part and signature, base64 text).
#[derive(Debug, Clone)]
pub struct SignedPreKey {
    pub key_id: i32,
    pub public_key: String,
    pub signature: String,
}

/// The key bundle that another user fetches to start an X3DH key agreement.
#[derive(Debug, Clone)]
pub struct KeyBundle {
    pub account_id: u128,
    pub identity_key: String,
    pub signed_pre_key: SignedPreKey,
    pub one_time_pre_key: Option<OneTimePreKey>,
}

/// Clears a byte vector with `zeroize`, which zeroes its bytes and leaves it
/// empty; it writes and clears only, so it never panics.
#[verifier::external_body]
fn zeroize_bytes(b: &mut Vec<u8>)
    ensures
        final(b)@ == Seq::<u8>::empty(),
    opens_invariants none
    no_unwind
{
    zeroize::Zeroize::zeroize(b);
}

/// Key material held only as long as it is needed, and wiped afterwards.
#[derive(Debug)]
pub struct SensitiveKeyMaterial {
    pub bytes: Vec<u8>,
}

impl Drop for SensitiveKeyMaterial {
    /// The key material is wiped when it goes out of use.
    fn drop(&mut self)
        opens_invariants none
        no_unwind
    {
        zeroize_bytes(&mut self.bytes);
    }
}

impl SensitiveKeyMaterial {
    /// Holds key material.
    pub fn new(bytes: Vec<u8>) -> (res: SensitiveKeyMaterial)
        ensures
            res.bytes == bytes,
    {
        SensitiveKeyMaterial { bytes }
    }

    /// Wipes the key material: its bytes are zeroed and it is left empty.
    pub fn zeroize(&mut self)
        ensures
            final(self).bytes@ == Seq::<u8>::empty(),
    {
        zeroize_bytes(&mut self.bytes);
    }
}

/// What `String::from_utf8_lossy` makes of stored key bytes: the UTF-8 text,
/// with each invalid sequence replaced by U+FFFD.
pub uninterp spec fn spec_utf8_lossy(b: Seq<u8>) -> Seq<char>;

/// Reads stored key bytes as text with `String::from_utf8_lossy`.
#[verifier::external_body]
fn utf8_lossy(b: &[u8]) -> (s: String)
    ensures
        s@ == spec_utf8_lossy(b@),
{
    String::from_utf8_lossy(b).to_string()
}

/// A key-bundle lookup's next step: a query to run, or its answer.
#[derive(Debug)]
pub enum KeyBundleStep {
    /// Read the account's identity key.
    QueryIdentityKey { account_id: u128 },
    /// Read the account's latest signed pre-key.
    QuerySignedPreKey { account_id: u128 },
    /// Read one of the account's one-time pre-keys.
    QueryOneTimePreKey { account_id: u128 },
    /// Delete a one-time pre-key that is about to be handed out, on the
    /// condition that it still exists (`DELETE .. IF EXISTS`), and report
    /// whether the delete applied.
    ConsumeOneTimePreKey { account_id: u128, key_id: i32 },
    /// The lookup's answer: no bundle when the account has no identity key or
    /// no signed pre-key.
    Finished { bundle: Option<KeyBundle> },
}

/// The progress of a key-bundle lookup.
#[derive(Debug)]
pub enum KeyBundleFetch {
    AwaitingIdentityKey { account_id: u128 },
    AwaitingSignedPreKey { account_id: u128, identity_key: Vec<u8> },
    AwaitingOneTimePreKey { account_id: u128, identity_key: Vec<u8>, signed: (i32, Vec<u8>, Vec<u8>) },
    /// The bundle is ready, with the one-time pre-key whose conditional
    /// delete is under way.
    AwaitingConsume {
        account_id: u128,
        identity_key: Vec<u8>,
        signed: (i32, Vec<u8>, Vec<u8>),
        bundle: KeyBundle,
    },
    Done,
}

/// The bundle handed out for the stored rows: the keys read as text.
pub open spec fn bundle_matches(
    bundle: KeyBundle,
    account_id: u128,
    identity_key: Seq<u8>,
    signed: (i32, Seq<u8>, Seq<u8>),
    one_time: Option<(i32, Seq<u8>)>,
) -> bool {
    &&& bundle.account_id == account_id
    &&& bundle.identity_key@ == spec_utf8_lossy(identity_key)
    &&& bundle.signed_pre_key.key_id == signed.0
    &&& bundle.signed_pre_key.public_key@ == spec_utf8_lossy(signed.1)
    &&& bundle.signed_pre_key.signature@ == spec_utf8_lossy(signed.2)
    &&& match one_time {
        Some((id, pk)) => bundle.one_time_pre_key matches Some(k) && k.key_id == id
            && k.public_key@ == spec_utf8_lossy(pk),
        None => bundle.one_time_pre_key is None,
    }
}

impl KeyBundleFetch {
    /// Starts looking up an account's key bundle; the first step reads its
    /// identity key.
    pub fn start(account_id: u128) -> (res: (KeyBundleFetch, KeyBundleStep))
        ensures
            res.0 == (KeyBundleFetch::AwaitingIdentityKey { account_id }),
            res.1 == (KeyBundleStep::QueryIdentityKey { account_id }),
    {
        (KeyBundleFetch::AwaitingIdentityKey { account_id }, KeyBundleStep::QueryIdentityKey { account_id })
    }

    /// Takes the stored identity key, if any: without one the lookup ends with
    /// no bundle; with one it goes on to the signed pre-key.
    pub fn on_identity_key(self, identity_key: Option<Vec<u8>>) -> (res: (KeyBundleFetch, KeyBundleStep))
        requires
            self is AwaitingIdentityKey,
        ensures
            match identity_key {
                None => res.0 is Done && res.1 == (KeyBundleStep::Finished { bundle: None }),
                Some(ik) => res.0 == (KeyBundleFetch::AwaitingSignedPreKey {
                    account_id: self->AwaitingIdentityKey_account_id,
                    identity_key: ik,
                }) && res.1 == (KeyBundleStep::QuerySignedPreKey {
                    account_id: self->AwaitingIdentityKey_account_id,
                }),
            },
    {
        let account_id = match self {
            KeyBundleFetch::AwaitingIdentityKey { account_id } => account_id,
            _ => { proof { assert(false); } 0 },
        };
        match identity_key {
            None => (KeyBundleFetch::Done, KeyBundleStep::Finished { bundle: None }),
            Some(ik) => (
                KeyBundleFetch::AwaitingSignedPreKey { account_id, identity_key: ik },
                KeyBundleStep::QuerySignedPreKey { account_id },
            ),
        }
    }

    /// Takes the latest signed pre-key, if any: without one the lookup ends
    /// with no bundle; with one it goes on to a one-time pre-key.
    pub fn on_signed_pre_key(self, signed: Option<(i32, Vec<u8>, Vec<u8>)>) -> (res: (
        KeyBundleFetch,
        KeyBundleStep,
    ))
        requires
            self is AwaitingSignedPreKey,
        ensures
            match signed {
                None => res.0 is Done && res.1 == (KeyBundleStep::Finished { bundle: None }),
                Some(spk) => res.0 == (KeyBundleFetch::AwaitingOneTimePreKey {
                    account_id: self->AwaitingSignedPreKey_account_id,
                    identity_key: self->AwaitingSignedPreKey_identity_key,
                    signed: spk,
                }) && res.1 == (KeyBundleStep::QueryOneTimePreKey {
                    account_id: self->AwaitingSignedPreKey_account_id,
                }),
            },
    {
        match self {
            KeyBundleFetch::AwaitingSignedPreKey { account_id, identity_key } => match signed {
                None => (KeyBundleFetch::Done, KeyBundleStep::Finished { bundle: None }),
                Some(spk) => (
                    KeyBundleFetch::AwaitingOneTimePreKey { account_id, identity_key, signed: spk },
                    KeyBundleStep::QueryOneTimePreKey { account_id },
                ),
            },
            _ => {
                proof {
                    assert(false);
                }
                (KeyBundleFetch::Done, KeyBundleStep::Finished { bundle: None })
            },
        }
    }

    /// Takes a one-time pre-key, if one is left, and assembles the bundle.
    /// A key that goes into the bundle is deleted first, on the condition
    /// that it still exists, so that it is handed out once; with none left
    /// the bundle goes without one.
    pub fn on_one_time_pre_key(self, one_time: Option<(i32, Vec<u8>)>) -> (res: (
        KeyBundleFetch,
        KeyBundleStep,
    ))
        requires
            self is AwaitingOneTimePreKey,
        ensures
            match (self, res.0, res.1) {
                (
                    KeyBundleFetch::AwaitingOneTimePreKey { account_id, identity_key, signed },
                    KeyBundleFetch::AwaitingConsume { account_id: a0, identity_key: ik, signed: s, bundle },
                    KeyBundleStep::ConsumeOneTimePreKey { account_id: a, key_id },
                ) => one_time matches Some(k) && a == account_id && a0 == account_id && ik == identity_key
                    && s == signed && key_id == k.0 && bundle_matches(
                    bundle,
                    account_id,
                    identity_key@,
                    (signed.0, signed.1@, signed.2@),
                    Some((k.0, k.1@)),
                ),
                (
                    KeyBundleFetch::AwaitingOneTimePreKey { account_id, identity_key, signed },
                    KeyBundleFetch::Done,
                    KeyBundleStep::Finished { bundle: Some(bundle) },
                ) => one_time is None && bundle_matches(
                    bundle,
                    account_id,
                    identity_key@,
                    (signed.0, signed.1@, signed.2@),
                    None,
                ),
                _ => false,
            },
    {
        match self {
            KeyBundleFetch::AwaitingOneTimePreKey { account_id, identity_key, signed } => {
                let signed_pre_key = SignedPreKey {
                    key_id: signed.0,
                    public_key: utf8_lossy(signed.1.as_slice()),
                    signature: utf8_lossy(signed.2.as_slice()),
                };
                let identity = utf8_lossy(identity_key.as_slice());
                match one_time {
                    Some((key_id, public_key)) => {
                        let otpk = OneTimePreKey { key_id, public_key: utf8_lossy(public_key.as_slice()) };
                        let bundle = KeyBundle {
                            account_id,
                            identity_key: identity,
                            signed_pre_key,
                            one_time_pre_key: Some(otpk),
                        };
                        (
                            KeyBundleFetch::AwaitingConsume { account_id, identity_key, signed, bundle },
                            KeyBundleStep::ConsumeOneTimePreKey { account_id, key_id },
                        )
                    },
                    None => {
                        let bundle = KeyBundle {
                            account_id,
                            identity_key: identity,
                            signed_pre_key,
                            one_time_pre_key: None,
                        };
                        (KeyBundleFetch::Done, KeyBundleStep::Finished { bundle: Some(bundle) })
                    },
                }
            },
            _ => {
                proof {
                    assert(false);
                }
                (KeyBundleFetch::Done, KeyBundleStep::Finished { bundle: None })
            },
        }
    }

    /// Takes the outcome of the conditional delete of the one-time pre-key
    /// in the bundle: the bundle is answered only when this lookup's delete
    /// applied; a delete that did not apply means another lookup took the
    /// key first, and the lookup reads another one-time pre-key; a failed
    /// delete ends the lookup with no bundle.
    pub fn on_consumed(self, applied: Option<bool>) -> (res: (KeyBundleFetch, KeyBundleStep))
        requires
            self is AwaitingConsume,
        ensures
            match (self, applied) {
                (KeyBundleFetch::AwaitingConsume { bundle, .. }, Some(true)) => res.0 is Done && res.1
                    == (KeyBundleStep::Finished { bundle: Some(bundle) }),
                (KeyBundleFetch::AwaitingConsume { account_id, identity_key, signed, .. }, Some(false)) => res.0
                    == (KeyBundleFetch::AwaitingOneTimePreKey { account_id, identity_key, signed }) && res.1
                    == (KeyBundleStep::QueryOneTimePreKey { account_id }),
                (_, None) => res.0 is Done && res.1 == (KeyBundleStep::Finished { bundle: None }),
                _ => false,
            },
            res.1 matches KeyBundleStep::Finished { bundle: Some(_) } ==> applied == Some(true),
    {
        match self {
            KeyBundleFetch::AwaitingConsume { account_id, identity_key, signed, bundle } => match applied {
                Some(true) => (KeyBundleFetch::Done, KeyBundleStep::Finished { bundle: Some(bundle) }),
                Some(false) => (
                    KeyBundleFetch::AwaitingOneTimePreKey { account_id, identity_key, signed },
                    KeyBundleStep::QueryOneTimePreKey { account_id },
                ),
                None => (KeyBundleFetch::Done, KeyBundleStep::Finished { bundle: None }),
            },
            _ => {
                proof {
                    assert(false);
                }
                (KeyBundleFetch::Done, KeyBundleStep::Finished { bundle: None })
            },
        }
    }
}

/// The one-time pre-keys in the key store, keyed by (account, key id).
pub type PreKeyStore = Map<(u128, i32), Seq<u8>>;

/// A conditional delete of a one-time pre-key (`DELETE .. IF EXISTS`),
/// which the store applies one at a time: the store afterwards, and whether
/// the delete applied, which it does exactly when the key was there.
pub open spec fn consume_key(store: PreKeyStore, key: (u128, i32)) -> (PreKeyStore, bool) {
    if store.contains_key(key) {
        (store.remove(key), true)
    } else {
        (store, false)
    }
}

/// A one-time pre-key is handed out at most once: a lookup answers a bundle
/// with a key only when its conditional delete of that key applied
/// (`on_consumed`), and of two lookups that found the same key, in whichever
/// order the store applies their deletes, at most one delete applies; the
/// key is gone afterwards, and every other key stays as it was.
pub proof fn one_time_pre_key_handed_out_once(store: PreKeyStore, key: (u128, i32))
    ensures
        ({
            let (after_first, first) = consume_key(store, key);
            let (after_second, second) = consume_key(after_first, key);
            &&& !(first && second)
            &&& first == store.contains_key(key)
            &&& !after_second.contains_key(key)
            &&& forall|other: (u128, i32)| other != key ==> (#[trigger] after_second.contains_key(other)
                <==> store.contains_key(other))
        }),
{
}

/// The answer to a count of the remaining one-time pre-keys.
#[derive(Debug)]
pub struct KeyCountResponse {
    pub count: i64,
}

impl KeyCountResponse {
    /// The answer from a presence-cache lookup: a cached count answers at
    /// once; a failed lookup or one that found nothing leaves it to the key
    /// store (`None`), whose count is then cached.
    pub fn from_cache_lookup(cached: Option<Option<i64>>) -> (res: Option<KeyCountResponse>)
        ensures
            match cached {
                Some(Some(c)) => res matches Some(r) && r.count == c,
                _ => res is None,
            },
    {
        match cached_pre_key_count(cached) {
            Some(c) => Some(KeyCountResponse { count: c }),
            None => None,
        }
    }
}

/// The pre-key count that a count query's first row gives: no row, or one
/// that did not read, counts as zero.
pub fn pre_key_count_of_row(row: Option<i64>) -> (n: i64)
    ensures
        n == (match row {
            Some(c) => c,
            None => 0,
        }),
{
    match row {
        Some(c) => c,
        None => 0,
    }
}

/// The order in which signed pre-keys are compared: by the time they were
/// stored; one stored without a time comes before all others.
pub open spec fn stored_time_rank(t: Option<i64>) -> int {
    match t {
        Some(ms) => ms as int,
        None => i64::MIN as int - 1,
    }
}

/// The position of the latest signed pre-key among those stored for an
/// account, given their storage times: the first of the latest ones; none
/// when the account has none.
pub fn latest_signed_pre_key(times: &Vec<Option<i64>>) -> (res: Option<usize>)
    ensures
        times@.len() == 0 <==> res is None,
        res matches Some(i) ==> i < times@.len() && (forall|j: int| 0 <= j < times@.len()
            ==> stored_time_rank(#[trigger] times@[j]) <= stored_time_rank(times@[i as int])) && (forall|j: int|
            0 <= j < i ==> stored_time_rank(#[trigger] times@[j]) < stored_time_rank(times@[i as int])),
{
    if times.len() == 0 {
        return None;
    }
    let mut best: usize = 0;
    let mut i: usize = 1;
    while i < times.len()
        invariant
            1 <= i <= times@.len(),
            best < i,
            forall|j: int| 0 <= j < i ==> stored_time_rank(#[trigger] times@[j]) <= stored_time_rank(times@[best as int]),
            forall|j: int| 0 <= j < best ==> stored_time_rank(#[trigger] times@[j]) < stored_time_rank(times@[best as int]),
        decreases times@.len() - i,
    {
        let later = match (times[i], times[best]) {
            (Some(a), Some(b)) => a > b,
            (Some(_), None) => true,
            (None, _) => false,
        };
        if later {
            best = i;
        }
        i = i + 1;
    }
    Some(best)
}

/// The account whose bundle is requested, given the account found under the
/// normalized username: an unknown username is refused.
pub fn bundle_owner(found: Option<Account>) -> (res: Result<u128, AppError>)
    ensures
        match found {
            Some(a) => res == Ok::<u128, AppError>(a.id),
            None => res matches Err(AppError::UserNotFound),
        },
{
    match found {
        Some(a) => Ok(a.id),
        None => Err(AppError::UserNotFound),
    }
}

/// The answer to a bundle request once the target account was found: the
/// bundle, or an internal error where the account has no complete key set.
pub fn bundle_response(bundle: Option<KeyBundle>) -> (res: Result<KeyBundle, AppError>)
    ensures
        match bundle {
            Some(b) => res == Ok::<KeyBundle, AppError>(b),
            None => res matches Err(AppError::InternalError),
        },
{
    match bundle {
        Some(b) => Ok(b),
        None => Err(AppError::InternalError),
    }
}

} // verus!
