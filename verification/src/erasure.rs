//! What deleting an account erases, across the stores: both sides of each of
//! its contact relationships, its key material, its offline queue, its
//! account row and username entry, and its sessions; and a model of the
//! stores in which a deletion leaves no record of the account behind.
use vstd::prelude::*;
use crate::contact::{apply_contact_op, apply_contact_ops, contact_ids, erasure_ops, erasure_removes_both_sides, Contact, ContactOp, ContactTable};

verus! {

/// A store that holds an account's records under its identifier.
#[derive(Debug, Clone, Copy, PartialEq, Eq, Structural)]
pub enum AccountTable {
    IdentityKeys,
    SignedPreKeys,
    PreKeys,
    OfflineQueue,
    Accounts,
    Sessions,
}

/// One erasure of a deletion.
#[derive(Debug)]
pub enum Erasure {
    /// A change to the contact store (one side of a relationship).
    Contact(ContactOp),
    /// Everything a store holds under the account's identifier.
    Table(AccountTable),
    /// The username index entry of the account's username.
    UsernameEntry,
}

/// The erasures of the contact store, in order.
pub open spec fn contact_erasures(ops: Seq<ContactOp>) -> Seq<Erasure> {
    ops.map_values(|o: ContactOp| Erasure::Contact(o))
}

/// The erasures that follow the contact store's: the key material, the
/// offline queue, the account row, the username entry, then the sessions.
pub open spec fn table_erasures() -> Seq<Erasure> {
    seq![
        Erasure::Table(AccountTable::IdentityKeys),
        Erasure::Table(AccountTable::SignedPreKeys),
        Erasure::Table(AccountTable::PreKeys),
        Erasure::Table(AccountTable::OfflineQueue),
        Erasure::Table(AccountTable::Accounts),
        Erasure::UsernameEntry,
        Erasure::Table(AccountTable::Sessions),
    ]
}

/// The erasures that deleting an account makes, given the contacts it
/// lists: both sides of every relationship, then every other store.
pub open spec fn deletion_erasures(account_id: u128, contacts: Seq<Contact>) -> Seq<Erasure> {
    contact_erasures(erasure_ops(account_id, contact_ids(contacts))) + table_erasures()
}

/// The erasures of an account's deletion, in the order they are made.
pub fn plan_account_deletion(account_id: u128, contacts: &Vec<Contact>) -> (ops: Vec<Erasure>)
    ensures
        ops@ == deletion_erasures(account_id, contacts@),
{
    let ghost ids = contact_ids(contacts@);
    let mut ops: Vec<Erasure> = Vec::new();
    let mut i: usize = 0;
    proof {
        assert(contact_erasures(erasure_ops(account_id, ids.take(0))) =~= Seq::<Erasure>::empty());
    }
    while i < contacts.len()
        invariant
            i <= contacts@.len(),
            ids == contact_ids(contacts@),
            ops@ == contact_erasures(erasure_ops(account_id, ids.take(i as int))),
        decreases contacts@.len() - i,
    {
        let c = contacts[i].contact_id;
        let ghost before = erasure_ops(account_id, ids.take(i as int));
        ops.push(Erasure::Contact(ContactOp::Remove { owner_id: account_id, contact_id: c }));
        ops.push(Erasure::Contact(ContactOp::Remove { owner_id: c, contact_id: account_id }));
        proof {
            assert(ids.take(i + 1).drop_last() =~= ids.take(i as int));
            assert(ids.take(i + 1).last() == c);
            let after = erasure_ops(account_id, ids.take(i + 1));
            assert(after == before.push(ContactOp::Remove { owner_id: account_id, contact_id: c }).push(
                ContactOp::Remove { owner_id: c, contact_id: account_id },
            ));
            assert(ops@ =~= contact_erasures(after));
        }
        i = i + 1;
    }
    proof {
        assert(ids.take(contacts@.len() as int) =~= ids);
    }
    let ghost contact_part = ops@;
    ops.push(Erasure::Table(AccountTable::IdentityKeys));
    ops.push(Erasure::Table(AccountTable::SignedPreKeys));
    ops.push(Erasure::Table(AccountTable::PreKeys));
    ops.push(Erasure::Table(AccountTable::OfflineQueue));
    ops.push(Erasure::Table(AccountTable::Accounts));
    ops.push(Erasure::UsernameEntry);
    ops.push(Erasure::Table(AccountTable::Sessions));
    proof {
        assert(ops@ =~= contact_part + table_erasures());
    }
    ops
}

/// The stores, as far as a deletion touches them: the contact rows, the
/// (store, account) pairs under which a store holds records, and the
/// username index.
pub type AccountStores = (ContactTable, Set<(AccountTable, u128)>, Map<Seq<char>, u128>);

/// The stores after one erasure of the deletion of `account_id`, whose
/// username is `username`.
pub open spec fn apply_erasure(s: AccountStores, account_id: u128, username: Seq<char>, op: Erasure) -> AccountStores {
    match op {
        Erasure::Contact(c) => (apply_contact_op(s.0, c), s.1, s.2),
        Erasure::Table(t) => (s.0, s.1.remove((t, account_id)), s.2),
        Erasure::UsernameEntry => (s.0, s.1, s.2.remove(username)),
    }
}

/// The stores after a sequence of erasures, made in order.
pub open spec fn apply_erasures(
    s: AccountStores,
    account_id: u128,
    username: Seq<char>,
    ops: Seq<Erasure>,
) -> AccountStores
    decreases ops.len(),
{
    if ops.len() == 0 {
        s
    } else {
        apply_erasure(apply_erasures(s, account_id, username, ops.drop_last()), account_id, username, ops.last())
    }
}

proof fn lemma_apply_erasures_append(
    s: AccountStores,
    a: u128,
    n: Seq<char>,
    first: Seq<Erasure>,
    second: Seq<Erasure>,
)
    ensures
        apply_erasures(s, a, n, first + second) == apply_erasures(apply_erasures(s, a, n, first), a, n, second),
    decreases second.len(),
{
    if second.len() > 0 {
        lemma_apply_erasures_append(s, a, n, first, second.drop_last());
        assert((first + second).drop_last() =~= first + second.drop_last());
        assert((first + second).last() == second.last());
    } else {
        assert(first + second =~= first);
    }
}

proof fn lemma_contact_erasures(s: AccountStores, a: u128, n: Seq<char>, ops: Seq<ContactOp>)
    ensures
        apply_erasures(s, a, n, contact_erasures(ops)) == (apply_contact_ops(s.0, ops), s.1, s.2),
    decreases ops.len(),
{
    if ops.len() > 0 {
        lemma_contact_erasures(s, a, n, ops.drop_last());
        assert(contact_erasures(ops).drop_last() =~= contact_erasures(ops.drop_last()));
    }
}

/// Deleting an account leaves no record of it: once every relationship it
/// has is among the contacts it lists, the deletion's erasures remove both
/// sides of each of them, everything the other stores hold under its
/// identifier, and its username entry; every other record stays as it was.
pub proof fn account_deletion_leaves_nothing_behind(
    s: AccountStores,
    account_id: u128,
    username: Seq<char>,
    contacts: Seq<Contact>,
)
    requires
        forall|x: u128|
            #![trigger s.0.contains_key((account_id, x))]
            #![trigger s.0.contains_key((x, account_id))]
            (s.0.contains_key((account_id, x)) || s.0.contains_key((x, account_id))) ==> contact_ids(
                contacts,
            ).contains(x),
    ensures
        ({
            let after = apply_erasures(s, account_id, username, deletion_erasures(account_id, contacts));
            &&& forall|x: u128| !#[trigger] after.0.contains_key((account_id, x)) && !after.0.contains_key((x, account_id))
            &&& forall|t: AccountTable| !#[trigger] after.1.contains((t, account_id))
            &&& !after.2.contains_key(username)
            &&& forall|k: (u128, u128)| k.0 != account_id && k.1 != account_id ==> #[trigger] after.0.contains_key(k)
                == s.0.contains_key(k) && (s.0.contains_key(k) ==> after.0[k] == s.0[k])
            &&& forall|r: (AccountTable, u128)| r.1 != account_id ==> #[trigger] after.1.contains(r) == s.1.contains(r)
            &&& after.2 == s.2.remove(username)
        }),
{
    let ids = contact_ids(contacts);
    let cops = erasure_ops(account_id, ids);
    lemma_apply_erasures_append(s, account_id, username, contact_erasures(cops), table_erasures());
    lemma_contact_erasures(s, account_id, username, cops);
    erasure_removes_both_sides(s.0, account_id, ids);
    let mid = apply_erasures(s, account_id, username, contact_erasures(cops));
    let t = table_erasures();
    reveal_with_fuel(apply_erasures, 8);
    assert(t.drop_last().drop_last().drop_last().drop_last().drop_last().drop_last().drop_last() =~= Seq::<
        Erasure,
    >::empty());
    let after = apply_erasures(mid, account_id, username, t);
    assert(after.0 == mid.0);
    assert(after.1 =~= mid.1.remove((AccountTable::IdentityKeys, account_id)).remove(
        (AccountTable::SignedPreKeys, account_id),
    ).remove((AccountTable::PreKeys, account_id)).remove((AccountTable::OfflineQueue, account_id)).remove(
        (AccountTable::Accounts, account_id),
    ).remove((AccountTable::Sessions, account_id)));
    assert(after.2 == mid.2.remove(username));
    assert forall|x: u128| !#[trigger] after.0.contains_key((account_id, x)) && !after.0.contains_key(
        (x, account_id),
    ) by {
        if s.0.contains_key((account_id, x)) || s.0.contains_key((x, account_id)) {
            assert(ids.contains(x));
        }
    }
    assert forall|t0: AccountTable| !#[trigger] after.1.contains((t0, account_id)) by {
        match t0 {
            AccountTable::IdentityKeys => {},
            AccountTable::SignedPreKeys => {},
            AccountTable::PreKeys => {},
            AccountTable::OfflineQueue => {},
            AccountTable::Accounts => {},
            AccountTable::Sessions => {},
        }
    }
}

} // verus!
