//! The keys and lifetimes of the shared cache: global presence, cached
//! one-time pre-key counts and session tokens.
use vstd::prelude::*;
use crate::ids::{uuid_text, uuid_text_injective, uuid_to_string};
use crate::text::join_texts;

verus! {

/// How long a presence mark lives, in seconds; clients refresh it every 60.
pub const PRESENCE_TTL_SECS: u64 = 65;

/// How long a cached pre-key count lives, in seconds.
pub const PRE_KEY_COUNT_TTL_SECS: u64 = 300;

/// How long a stored session lives, in seconds (thirty days).
pub const SESSION_TTL_SECS: u64 = 2592000;

/// The key that marks an account online: `presence:{account_id}`.
pub open spec fn presence_key_text(account_id: u128) -> Seq<char> {
    "presence:"@ + uuid_text(account_id)
}

/// The key of an account's cached pre-key count: `prekey_count:{account_id}`.
pub open spec fn pre_key_count_key_text(account_id: u128) -> Seq<char> {
    "prekey_count:"@ + uuid_text(account_id)
}

/// The key of a session: `session:{token_hash}`.
pub open spec fn session_key_text(token_hash: Seq<char>) -> Seq<char> {
    "session:"@ + token_hash
}

/// The key of the set of an account's session token hashes:
/// `account_sessions:{account_id}`. Storing a session adds its hash there,
/// so that all of an account's sessions can be found and invalidated.
pub open spec fn account_sessions_key_text(account_id: u128) -> Seq<char> {
    "account_sessions:"@ + uuid_text(account_id)
}

/// The key that marks an account online.
pub fn presence_key(account_id: u128) -> (k: String)
    ensures
        k@ == presence_key_text(account_id),
{
    let id = uuid_to_string(account_id);
    join_texts("presence:", id.as_str())
}

/// The key of an account's cached pre-key count.
pub fn pre_key_count_key(account_id: u128) -> (k: String)
    ensures
        k@ == pre_key_count_key_text(account_id),
{
    let id = uuid_to_string(account_id);
    join_texts("prekey_count:", id.as_str())
}

/// The key of a session.
pub fn session_key(token_hash: &str) -> (k: String)
    ensures
        k@ == session_key_text(token_hash@),
{
    join_texts("session:", token_hash)
}

/// The key of the set of an account's session token hashes.
pub fn account_sessions_key(account_id: u128) -> (k: String)
    ensures
        k@ == account_sessions_key_text(account_id),
{
    let id = uuid_to_string(account_id);
    join_texts("account_sessions:", id.as_str())
}

/// The keys deleted when all of an account's sessions are invalidated: the
/// session key of each token hash in the account's set, in order, then the
/// set itself.
pub open spec fn invalidation_keys(account_id: u128, token_hashes: Seq<Seq<char>>) -> Seq<Seq<char>> {
    token_hashes.map_values(|h: Seq<char>| session_key_text(h)).push(account_sessions_key_text(account_id))
}

/// The keys to delete to invalidate all of an account's sessions, given the
/// token hashes in its set.
pub fn invalidation_keys_of(account_id: u128, token_hashes: &Vec<String>) -> (keys: Vec<String>)
    ensures
        keys@.map_values(|k: String| k@) == invalidation_keys(
            account_id,
            token_hashes@.map_values(|h: String| h@),
        ),
{
    let ghost hs = token_hashes@.map_values(|h: String| h@);
    let mut keys: Vec<String> = Vec::new();
    let mut i: usize = 0;
    while i < token_hashes.len()
        invariant
            i <= token_hashes@.len(),
            hs == token_hashes@.map_values(|h: String| h@),
            keys@.map_values(|k: String| k@) == hs.take(i as int).map_values(|h: Seq<char>| session_key_text(h)),
        decreases token_hashes@.len() - i,
    {
        let k = session_key(token_hashes[i].as_str());
        let ghost before = keys@;
        keys.push(k);
        proof {
            assert(keys@.map_values(|k: String| k@) =~= before.map_values(|k: String| k@).push(k@));
            assert(hs.take(i + 1).map_values(|h: Seq<char>| session_key_text(h)) =~= hs.take(
                i as int,
            ).map_values(|h: Seq<char>| session_key_text(h)).push(session_key_text(hs[i as int])));
        }
        i = i + 1;
    }
    let ghost before = keys@;
    keys.push(account_sessions_key(account_id));
    proof {
        assert(hs.take(hs.len() as int) =~= hs);
        assert(keys@.map_values(|k: String| k@) =~= before.map_values(|k: String| k@).push(
            account_sessions_key_text(account_id),
        ));
    }
    keys
}

/// Invalidating an account's sessions removes every session whose hash is in
/// the account's set, and leaves every other session in place.
pub proof fn invalidation_removes_exactly_the_account_sessions(
    stored: Set<Seq<char>>,
    account_id: u128,
    token_hashes: Seq<Seq<char>>,
    other: Seq<char>,
)
    ensures
        ({
            let after = stored.difference(invalidation_keys(account_id, token_hashes).to_set());
            &&& forall|i: int| 0 <= i < token_hashes.len() ==> !after.contains(
                #[trigger] session_key_text(token_hashes[i]),
            )
            &&& !token_hashes.contains(other) ==> (after.contains(session_key_text(other))
                == stored.contains(session_key_text(other)))
        }),
{
    reveal_strlit("session:");
    reveal_strlit("account_sessions:");
    let keys = invalidation_keys(account_id, token_hashes);
    assert forall|i: int| 0 <= i < token_hashes.len() implies keys.to_set().contains(
        #[trigger] session_key_text(token_hashes[i]),
    ) by {
        assert(keys[i] == session_key_text(token_hashes[i]));
    }
    if !token_hashes.contains(other) {
        let k = session_key_text(other);
        if keys.to_set().contains(k) {
            let j = choose|j: int| 0 <= j < keys.len() && keys[j] == k;
            if j < token_hashes.len() {
                let h = token_hashes[j];
                assert(keys[j] == session_key_text(h));
                assert(k.subrange(8, k.len() as int) =~= other);
                assert(session_key_text(h).subrange(8, session_key_text(h).len() as int) =~= h);
                assert(token_hashes[j] == other);
            } else {
                assert(keys[j] == account_sessions_key_text(account_id));
                assert(k[0] == 's');
                assert(account_sessions_key_text(account_id)[0] == 'a');
            }
        }
    }
}

/// The pre-key count to report: the cached one when the cache answered with
/// a count; otherwise the stored count must be read (and cached).
pub fn cached_pre_key_count(cached: Option<Option<i64>>) -> (res: Option<i64>)
    ensures
        res == (match cached {
            Some(Some(c)) => Some(c),
            _ => None,
        }),
{
    match cached {
        Some(Some(c)) => Some(c),
        _ => None,
    }
}

/// Distinct accounts have distinct presence keys, so marking one account
/// online or offline never touches another's mark; the same holds of the
/// pre-key count keys, and presence keys never clash with count keys.
pub proof fn cache_keys_are_distinct(a: u128, b: u128)
    requires
        a != b,
    ensures
        presence_key_text(a) != presence_key_text(b),
        pre_key_count_key_text(a) != pre_key_count_key_text(b),
        presence_key_text(a) != pre_key_count_key_text(b),
{
    reveal_strlit("presence:");
    reveal_strlit("prekey_count:");
    if uuid_text(a) == uuid_text(b) {
        uuid_text_injective(a, b);
    }
    let pa = presence_key_text(a);
    let pb = presence_key_text(b);
    assert(pa.subrange(9, 45) == uuid_text(a));
    assert(pb.subrange(9, 45) == uuid_text(b));
    let ca = pre_key_count_key_text(a);
    let cb = pre_key_count_key_text(b);
    assert(ca.subrange(13, 49) == uuid_text(a));
    assert(cb.subrange(13, 49) == uuid_text(b));
    assert(pa.len() != cb.len());
}

} // verus!
