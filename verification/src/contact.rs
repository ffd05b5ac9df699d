//! Contact relationships between accounts and the rules of the contact
//! endpoints. Each relationship is stored twice, once per side, as a status
//! byte keyed by (owner, contact): a request is pending-sent (0) for the
//! requester and pending-received (1) for the target, accepting sets both
//! sides to accepted (2), blocking sets the blocker's side to blocked (4),
//! and declining or deleting removes both sides.
use vstd::prelude::*;
use crate::account::Account;
use crate::error::AppError;
use crate::requests::{normalize_username, spec_to_lowercase};
use crate::text::text_eq;
use crate::time::{rfc3339_or_now, spec_rfc3339_of_millis};
use crate::types::{contact_status_of_stored, ContactAction, ContactStatus};

verus! {

/// A contact relationship as seen by its owner.
#[derive(Debug, Clone)]
pub struct Contact {
    pub owner_id: u128,
    pub contact_id: u128,
    pub username: String,
    pub status: ContactStatus,
    pub added_at_ms: i64,
}

/// A contact as the REST API returns it.
#[derive(Debug)]
pub struct ContactResponse {
    pub contact_id: u128,
    pub username: String,
    pub status: ContactStatus,
    pub added_at: String,
}

impl Contact {
    /// A stored contact row of `owner_id`, with its status byte read.
    pub fn from_row(owner_id: u128, contact_id: u128, username: String, status: i8, added_at_ms: i64) -> (c: Contact)
        ensures
            c.owner_id == owner_id,
            c.contact_id == contact_id,
            c.username == username,
            c.status == contact_status_of_stored(status),
            c.added_at_ms == added_at_ms,
    {
        Contact {
            owner_id,
            contact_id,
            username,
            status: ContactStatus::from_stored(status),
            added_at_ms,
        }
    }

    /// The contact as the REST API returns it, with the time as RFC 3339 text.
    pub fn to_response(&self) -> (r: ContactResponse)
        ensures
            r.contact_id == self.contact_id,
            r.username == self.username,
            r.status == self.status,
            spec_rfc3339_of_millis(self.added_at_ms) matches Some(t) ==> r.added_at@ == t,
    {
        ContactResponse {
            contact_id: self.contact_id,
            username: self.username.clone(),
            status: self.status,
            added_at: rfc3339_or_now(self.added_at_ms),
        }
    }
}

/// A stored row of the contact list, as the store hands it back: `None` for
/// a row that did not read as (contact, username, status, added at).
pub type ContactRow = Option<(u128, String, i8, i64)>;

/// The contacts of `owner_id` in the order of its stored rows; rows that did
/// not read are left out.
pub open spec fn contacts_of_rows(owner_id: u128, rows: Seq<ContactRow>) -> Seq<Contact>
    decreases rows.len(),
{
    if rows.len() == 0 {
        Seq::empty()
    } else {
        let rest = contacts_of_rows(owner_id, rows.drop_last());
        match rows.last() {
            Some((contact_id, username, status, added_at_ms)) => rest.push(Contact {
                owner_id,
                contact_id,
                username,
                status: contact_status_of_stored(status),
                added_at_ms,
            }),
            None => rest,
        }
    }
}

/// The contact list of `owner_id` from its stored rows.
pub fn contacts_from_rows(owner_id: u128, rows: Vec<ContactRow>) -> (res: Vec<Contact>)
    ensures
        res@ == contacts_of_rows(owner_id, rows@),
{
    let mut res: Vec<Contact> = Vec::new();
    let mut i: usize = 0;
    while i < rows.len()
        invariant
            i <= rows.len(),
            res@ == contacts_of_rows(owner_id, rows@.take(i as int)),
        decreases rows.len() - i,
    {
        assert(rows@.take(i as int) == rows@.take((i + 1) as int).drop_last());
        match &rows[i] {
            Some((contact_id, username, status, added_at_ms)) => {
                let c = Contact::from_row(owner_id, *contact_id, username.clone(), *status, *added_at_ms);
                res.push(c);
            },
            None => {},
        }
        i = i + 1;
    }
    assert(rows@.take(rows.len() as int) == rows@);
    res
}

/// Whether two accounts are contacts, given the status byte stored for
/// (one, other), if any: only an accepted relationship counts.
pub fn is_accepted_row(status: Option<i8>) -> (res: bool)
    ensures
        res == (status == Some(2i8)),
{
    match status {
        Some(s) => s == 2,
        None => false,
    }
}

/// A change to the contact store.
#[derive(Debug)]
pub enum ContactOp {
    /// Store a request: pending-sent for the owner, pending-received for the contact.
    CreateRequest { owner_id: u128, contact_id: u128, contact_username: String, owner_username: String },
    /// Set both sides to accepted.
    Accept { owner_id: u128, contact_id: u128 },
    /// Set the owner's side to blocked.
    Block { owner_id: u128, contact_id: u128 },
    /// Delete the owner's side.
    Remove { owner_id: u128, contact_id: u128 },
}

/// The rows of the contact store, keyed by (owner, contact): the contact's
/// username as the owner sees it, and the status byte.
pub type ContactTable = Map<(u128, u128), (Seq<char>, i8)>;

/// The username of a row, or the empty text where the row is missing (an
/// update that creates a row leaves its username unset).
pub open spec fn row_username(t: ContactTable, key: (u128, u128)) -> Seq<char> {
    if t.contains_key(key) {
        t[key].0
    } else {
        Seq::empty()
    }
}

/// The store with a row's status set, its username kept.
pub open spec fn with_status(t: ContactTable, key: (u128, u128), status: i8) -> ContactTable {
    t.insert(key, (row_username(t, key), status))
}

/// The store after one change. Updates create missing rows, as the store's
/// updates do.
pub open spec fn apply_contact_op(t: ContactTable, op: ContactOp) -> ContactTable {
    match op {
        ContactOp::CreateRequest { owner_id, contact_id, contact_username, owner_username } => t.insert(
            (owner_id, contact_id),
            (contact_username@, 0i8),
        ).insert((contact_id, owner_id), (owner_username@, 1i8)),
        ContactOp::Accept { owner_id, contact_id } => with_status(
            with_status(t, (owner_id, contact_id), 2i8),
            (contact_id, owner_id),
            2i8,
        ),
        ContactOp::Block { owner_id, contact_id } => with_status(t, (owner_id, contact_id), 4i8),
        ContactOp::Remove { owner_id, contact_id } => t.remove((owner_id, contact_id)),
    }
}

/// The rows an owner lists: for each contact, the username and the status.
pub open spec fn owner_rows(t: ContactTable, owner: u128) -> Map<u128, (Seq<char>, ContactStatus)> {
    Map::new(
        |c: u128| t.contains_key((owner, c)),
        |c: u128| (t[(owner, c)].0, contact_status_of_stored(t[(owner, c)].1)),
    )
}

/// The store after a list of changes, applied in order.
pub open spec fn apply_contact_ops(t: ContactTable, ops: Seq<ContactOp>) -> ContactTable
    decreases ops.len(),
{
    if ops.len() == 0 {
        t
    } else {
        apply_contact_op(apply_contact_ops(t, ops.drop_last()), ops.last())
    }
}

/// Whether `a` has `b` as an accepted contact in the store.
pub open spec fn are_contacts_in(t: ContactTable, a: u128, b: u128) -> bool {
    t.contains_key((a, b)) && t[(a, b)].1 == 2
}

/// The usernames compared when an account tries to add itself: both lowercased.
pub open spec fn is_self_request(requested: Seq<char>, own: Seq<char>) -> bool {
    spec_to_lowercase(requested) == spec_to_lowercase(own)
}

/// The username a contact request is sent to: the requested one lowercased.
/// An account cannot add itself.
pub fn contact_request_target(requested: &str, own_username: &str) -> (res: Result<String, AppError>)
    ensures
        is_self_request(requested@, own_username@) ==> (res matches Err(AppError::Validation(m))
            && m@ == "Cannot add yourself as a contact"@),
        !is_self_request(requested@, own_username@) ==> (res matches Ok(t) && t@
            == spec_to_lowercase(requested@)),
{
    let target = normalize_username(requested);
    let own = normalize_username(own_username);
    if text_eq(target.as_str(), own.as_str()) {
        Err(AppError::Validation(String::from_str("Cannot add yourself as a contact")))
    } else {
        Ok(target)
    }
}

/// Whether the owner already has any relationship with an account.
pub open spec fn has_relationship(existing: Seq<Contact>, id: u128) -> bool {
    exists|i: int| 0 <= i < existing.len() && #[trigger] existing[i].contact_id == id
}

/// The change that a contact request makes, given the account found under
/// the requested username, if any: an unknown username is refused, and so is
/// a request to an account the owner already has a relationship (of any
/// status) with.
pub fn plan_contact_request(
    owner_id: u128,
    owner_username: String,
    target: &Option<Account>,
    existing: &Vec<Contact>,
) -> (res: Result<ContactOp, AppError>)
    ensures
        target is None ==> res matches Err(AppError::UserNotFound),
        target matches Some(t) ==> (has_relationship(existing@, t.id) ==> res matches Err(
            AppError::ContactExists,
        )),
        target matches Some(t) ==> (!has_relationship(existing@, t.id) ==> res == Ok::<ContactOp, AppError>(
            ContactOp::CreateRequest {
                owner_id,
                contact_id: t.id,
                contact_username: t.username,
                owner_username,
            },
        )),
{
    let found = match target {
        Some(t) => t,
        None => { return Err(AppError::UserNotFound); },
    };
    let mut i: usize = 0;
    while i < existing.len()
        invariant
            i <= existing@.len(),
            *target == Some(*found),
            forall|j: int| 0 <= j < i ==> #[trigger] existing@[j].contact_id != found.id,
        decreases existing@.len() - i,
    {
        if existing[i].contact_id == found.id {
            return Err(AppError::ContactExists);
        }
        i = i + 1;
    }
    Ok(ContactOp::CreateRequest {
        owner_id,
        contact_id: found.id,
        contact_username: found.username.clone(),
        owner_username,
    })
}

/// The answer to `GET /contacts`: every relationship, in order, as the REST
/// API returns it.
pub fn contact_responses(contacts: &Vec<Contact>) -> (res: Vec<ContactResponse>)
    ensures
        res@.len() == contacts@.len(),
        forall|i: int| 0 <= i < contacts@.len() ==> {
            let c = #[trigger] contacts@[i];
            let r = res@[i];
            &&& r.contact_id == c.contact_id
            &&& r.username == c.username
            &&& r.status == c.status
            &&& spec_rfc3339_of_millis(c.added_at_ms) matches Some(t) ==> r.added_at@ == t
        },
{
    let mut res: Vec<ContactResponse> = Vec::new();
    let mut i: usize = 0;
    while i < contacts.len()
        invariant
            i <= contacts@.len(),
            res@.len() == i,
            forall|j: int| 0 <= j < i ==> {
                let c = #[trigger] contacts@[j];
                let r = res@[j];
                &&& r.contact_id == c.contact_id
                &&& r.username == c.username
                &&& r.status == c.status
                &&& spec_rfc3339_of_millis(c.added_at_ms) matches Some(t) ==> r.added_at@ == t
            },
        decreases contacts@.len() - i,
    {
        let r = contacts[i].to_response();
        res.push(r);
        i = i + 1;
    }
    res
}

/// The first relationship of the list with an account is at index `i`.
pub open spec fn first_with(existing: Seq<Contact>, id: u128, i: int) -> bool {
    &&& 0 <= i < existing.len()
    &&& existing[i].contact_id == id
    &&& forall|j: int| 0 <= j < i ==> #[trigger] existing[j].contact_id != id
}

/// The changes that answering a contact request makes: accepting sets both
/// sides to accepted and is allowed only for an incoming pending request;
/// declining deletes both sides; blocking blocks the owner's side. The
/// relationship must exist (the first one listed with the contact counts).
pub fn plan_contact_response(
    existing: &Vec<Contact>,
    owner_id: u128,
    contact_id: u128,
    action: ContactAction,
) -> (res: Result<Vec<ContactOp>, AppError>)
    ensures
        !has_relationship(existing@, contact_id) ==> res matches Err(AppError::UserNotFound),
        forall|i: int| #[trigger] first_with(existing@, contact_id, i) ==> match action {
            ContactAction::Accept => if existing@[i].status == ContactStatus::PendingReceived {
                res matches Ok(ops) && ops@ == seq![ContactOp::Accept { owner_id, contact_id }]
            } else {
                res matches Err(AppError::Validation(m)) && m@
                    == "Can only accept incoming pending contact requests"@
            },
            ContactAction::Decline => res matches Ok(ops) && ops@ == seq![
                ContactOp::Remove { owner_id, contact_id },
                ContactOp::Remove { owner_id: contact_id, contact_id: owner_id },
            ],
            ContactAction::Block => res matches Ok(ops) && ops@ == seq![
                ContactOp::Block { owner_id, contact_id },
            ],
        },
{
    let mut i: usize = 0;
    while i < existing.len()
        invariant
            i <= existing@.len(),
            forall|j: int| 0 <= j < i ==> #[trigger] existing@[j].contact_id != contact_id,
        decreases existing@.len() - i,
    {
        if existing[i].contact_id == contact_id {
            assert(first_with(existing@, contact_id, i as int));
            assert forall|k: int| #[trigger] first_with(existing@, contact_id, k) implies k == i by {
                if k < i {
                } else if k > i {
                    assert(existing@[i as int].contact_id != contact_id);
                }
            }
            let mut ops = Vec::new();
            match action {
                ContactAction::Accept => {
                    if existing[i].status != ContactStatus::PendingReceived {
                        return Err(AppError::Validation(
                            String::from_str("Can only accept incoming pending contact requests"),
                        ));
                    }
                    ops.push(ContactOp::Accept { owner_id, contact_id });
                },
                ContactAction::Decline => {
                    ops.push(ContactOp::Remove { owner_id, contact_id });
                    ops.push(ContactOp::Remove { owner_id: contact_id, contact_id: owner_id });
                },
                ContactAction::Block => {
                    ops.push(ContactOp::Block { owner_id, contact_id });
                },
            }
            proof {
                assert(ops@ =~= match action {
                    ContactAction::Accept => seq![ContactOp::Accept { owner_id, contact_id }],
                    ContactAction::Decline => seq![
                        ContactOp::Remove { owner_id, contact_id },
                        ContactOp::Remove { owner_id: contact_id, contact_id: owner_id },
                    ],
                    ContactAction::Block => seq![ContactOp::Block { owner_id, contact_id }],
                });
            }
            return Ok(ops);
        }
        i = i + 1;
    }
    Err(AppError::UserNotFound)
}

/// The changes that deleting a contact makes: both sides are removed.
pub fn plan_contact_removal(owner_id: u128, contact_id: u128) -> (ops: Vec<ContactOp>)
    ensures
        ops@ == seq![
            ContactOp::Remove { owner_id, contact_id },
            ContactOp::Remove { owner_id: contact_id, contact_id: owner_id },
        ],
{
    let mut ops = Vec::new();
    ops.push(ContactOp::Remove { owner_id, contact_id });
    ops.push(ContactOp::Remove { owner_id: contact_id, contact_id: owner_id });
    proof {
        assert(ops@ =~= seq![
            ContactOp::Remove { owner_id, contact_id },
            ContactOp::Remove { owner_id: contact_id, contact_id: owner_id },
        ]);
    }
    ops
}

/// The changes that erase an account's relationships: both sides of the
/// relationship with each listed contact, in order.
pub open spec fn erasure_ops(account_id: u128, contact_ids: Seq<u128>) -> Seq<ContactOp>
    decreases contact_ids.len(),
{
    if contact_ids.len() == 0 {
        Seq::empty()
    } else {
        let c = contact_ids.last();
        erasure_ops(account_id, contact_ids.drop_last()).push(
            ContactOp::Remove { owner_id: account_id, contact_id: c },
        ).push(ContactOp::Remove { owner_id: c, contact_id: account_id })
    }
}

/// The identifiers of a contact list.
pub open spec fn contact_ids(contacts: Seq<Contact>) -> Seq<u128> {
    contacts.map_values(|c: Contact| c.contact_id)
}

/// Erasing an account's relationships removes both sides of each listed
/// relationship and leaves every other row of the store as it was.
pub proof fn erasure_removes_both_sides(t: ContactTable, account_id: u128, ids: Seq<u128>)
    ensures
        forall|k: (u128, u128)| {
            let erased = (k.0 == account_id && ids.contains(k.1)) || (k.1 == account_id && ids.contains(k.0));
            &&& #[trigger] apply_contact_ops(t, erasure_ops(account_id, ids)).contains_key(k) == (
            t.contains_key(k) && !erased)
            &&& !erased ==> apply_contact_ops(t, erasure_ops(account_id, ids))[k] == t[k]
        },
    decreases ids.len(),
{
    if ids.len() > 0 {
        let rest = ids.drop_last();
        let c = ids.last();
        erasure_removes_both_sides(t, account_id, rest);
        let e = erasure_ops(account_id, rest);
        let ops = erasure_ops(account_id, ids);
        assert(ops.drop_last().drop_last() =~= e);
        assert(ops.drop_last().last() == ContactOp::Remove { owner_id: account_id, contact_id: c });
        assert(ops.last() == ContactOp::Remove { owner_id: c, contact_id: account_id });
        let mid = ops.drop_last();
        assert(mid.len() > 0);
        assert(apply_contact_ops(t, mid) == apply_contact_op(apply_contact_ops(t, mid.drop_last()), mid.last()));
        assert(apply_contact_ops(t, mid) == apply_contact_ops(t, e).remove((account_id, c)));
        assert(apply_contact_ops(t, ops) == apply_contact_op(apply_contact_ops(t, mid), ops.last()));
        assert forall|x: u128| #[trigger] ids.contains(x) <==> (rest.contains(x) || x == c) by {
            if ids.contains(x) && x != c {
                let j = choose|j: int| 0 <= j < ids.len() && ids[j] == x;
                assert(j < rest.len());
                assert(rest[j] == x);
            }
            if rest.contains(x) {
                let j = choose|j: int| 0 <= j < rest.len() && rest[j] == x;
                assert(ids[j] == x);
            }
            if x == c {
                assert(ids[ids.len() - 1] == x);
            }
        }
    }
}

/// A contact request between two accounts without contacts shows, in each
/// one's list, exactly the other under the username sent with the request:
/// pending-sent to the requester and pending-received to the target; once the
/// target accepts, both lists show the same contact, under the same name, as
/// accepted, and each is the other's accepted contact.
pub proof fn request_then_accept_makes_mutual_contacts(
    t: ContactTable,
    a: u128,
    b: u128,
    a_name: String,
    b_name: String,
)
    requires
        a != b,
        owner_rows(t, a).dom() =~= Set::<u128>::empty(),
        owner_rows(t, b).dom() =~= Set::<u128>::empty(),
    ensures
        ({
            let t1 = apply_contact_op(
                t,
                ContactOp::CreateRequest { owner_id: a, contact_id: b, contact_username: b_name, owner_username: a_name },
            );
            let t2 = apply_contact_op(t1, ContactOp::Accept { owner_id: b, contact_id: a });
            &&& owner_rows(t1, a) =~= map![b => (b_name@, ContactStatus::PendingSent)]
            &&& owner_rows(t1, b) =~= map![a => (a_name@, ContactStatus::PendingReceived)]
            &&& !are_contacts_in(t1, a, b) && !are_contacts_in(t1, b, a)
            &&& owner_rows(t2, a) =~= map![b => (b_name@, ContactStatus::Accepted)]
            &&& owner_rows(t2, b) =~= map![a => (a_name@, ContactStatus::Accepted)]
            &&& are_contacts_in(t2, a, b) && are_contacts_in(t2, b, a)
        }),
{
    let t1 = apply_contact_op(
        t,
        ContactOp::CreateRequest { owner_id: a, contact_id: b, contact_username: b_name, owner_username: a_name },
    );
    let t2 = apply_contact_op(t1, ContactOp::Accept { owner_id: b, contact_id: a });
    assert forall|c: u128| #[trigger] t.contains_key((a, c)) == false && t.contains_key((b, c)) == false by {
        assert(!owner_rows(t, a).dom().contains(c));
        assert(!owner_rows(t, b).dom().contains(c));
    }
    assert(owner_rows(t1, a) =~= map![b => (b_name@, ContactStatus::PendingSent)]);
    assert(contact_status_of_stored(1i8) == ContactStatus::PendingReceived);
    assert forall|c: u128| #[trigger] owner_rows(t1, b).dom().contains(c) <==> c == a by {
        if c != a {
            assert(!owner_rows(t, b).dom().contains(c));
            assert((b, c) != (a, b));
        }
    }
    assert(owner_rows(t1, b) =~= map![a => (a_name@, ContactStatus::PendingReceived)]);
    assert(owner_rows(t2, a) =~= map![b => (b_name@, ContactStatus::Accepted)]);
    assert forall|c: u128| #[trigger] owner_rows(t2, b).dom().contains(c) <==> c == a by {
        if c != a {
            assert(!owner_rows(t, b).dom().contains(c));
            assert((b, c) != (a, b));
        }
    }
    assert(contact_status_of_stored(2i8) == ContactStatus::Accepted);
    assert(owner_rows(t2, b) =~= map![a => (a_name@, ContactStatus::Accepted)]);
}

/// Rows that all read give one contact each, in order.
proof fn lemma_contacts_of_read_rows(owner_id: u128, rows: Seq<ContactRow>)
    requires
        forall|i: int| 0 <= i < rows.len() ==> (#[trigger] rows[i]) is Some,
    ensures
        contacts_of_rows(owner_id, rows).len() == rows.len(),
        forall|i: int| 0 <= i < rows.len() ==> (rows[i] matches Some(r) && #[trigger] contacts_of_rows(
            owner_id,
            rows,
        )[i] == Contact {
            owner_id,
            contact_id: r.0,
            username: r.1,
            status: contact_status_of_stored(r.2),
            added_at_ms: r.3,
        }),
    decreases rows.len(),
{
    if rows.len() > 0 {
        let rest = rows.drop_last();
        assert forall|i: int| 0 <= i < rest.len() implies (#[trigger] rest[i]) is Some by {
            assert(rest[i] == rows[i]);
        }
        lemma_contacts_of_read_rows(owner_id, rest);
        assert(rows.last() is Some);
        assert forall|i: int| 0 <= i < rows.len() implies (rows[i] matches Some(r) && #[trigger] contacts_of_rows(
            owner_id,
            rows,
        )[i] == Contact {
            owner_id,
            contact_id: r.0,
            username: r.1,
            status: contact_status_of_stored(r.2),
            added_at_ms: r.3,
        }) by {
            if i < rest.len() {
                assert(rest[i] == rows[i]);
            }
        }
    }
}

/// The contact list shows what the store holds: when each row read for an
/// owner is that owner's row in the store, each listed contact carries the
/// username and status that the store holds for it.
pub proof fn listed_contacts_are_the_stored_rows(t: ContactTable, owner_id: u128, rows: Seq<ContactRow>)
    requires
        forall|i: int| 0 <= i < rows.len() ==> (#[trigger] rows[i] matches Some(r) && t.contains_key(
            (owner_id, r.0),
        ) && t[(owner_id, r.0)] == (r.1@, r.2)),
    ensures
        contacts_of_rows(owner_id, rows).len() == rows.len(),
        forall|i: int| 0 <= i < rows.len() ==> {
            let c = #[trigger] contacts_of_rows(owner_id, rows)[i];
            &&& c.owner_id == owner_id
            &&& owner_rows(t, owner_id).contains_key(c.contact_id)
            &&& owner_rows(t, owner_id)[c.contact_id] == (c.username@, c.status)
        },
{
    assert forall|i: int| 0 <= i < rows.len() implies (#[trigger] rows[i]) is Some by {}
    lemma_contacts_of_read_rows(owner_id, rows);
}

/// Declining a request or deleting a contact leaves neither side with a
/// relationship, so neither is the other's contact.
pub proof fn removal_ends_relationship_both_ways(t: ContactTable, a: u128, b: u128)
    ensures
        ({
            let t2 = apply_contact_ops(
                t,
                seq![
                    ContactOp::Remove { owner_id: a, contact_id: b },
                    ContactOp::Remove { owner_id: b, contact_id: a },
                ],
            );
            &&& !t2.contains_key((a, b))
            &&& !t2.contains_key((b, a))
            &&& !are_contacts_in(t2, a, b) && !are_contacts_in(t2, b, a)
        }),
{
    let ops = seq![
        ContactOp::Remove { owner_id: a, contact_id: b },
        ContactOp::Remove { owner_id: b, contact_id: a },
    ];
    reveal_with_fuel(apply_contact_ops, 3);
    assert(ops.drop_last().drop_last() =~= Seq::<ContactOp>::empty());
    assert(ops.drop_last() =~= seq![ContactOp::Remove { owner_id: a, contact_id: b }]);
}

/// Blocking changes only the blocker's side: the blocker sees the contact as
/// blocked, and the other account's side is left as it was.
pub proof fn block_is_one_sided(t: ContactTable, a: u128, b: u128)
    requires
        a != b,
    ensures
        contact_status_of_stored(apply_contact_op(t, ContactOp::Block { owner_id: a, contact_id: b })[(a, b)].1)
            == ContactStatus::Blocked,
        !are_contacts_in(apply_contact_op(t, ContactOp::Block { owner_id: a, contact_id: b }), a, b),
        apply_contact_op(t, ContactOp::Block { owner_id: a, contact_id: b }).contains_key((b, a))
            == t.contains_key((b, a)),
        apply_contact_op(t, ContactOp::Block { owner_id: a, contact_id: b })[(b, a)] == t[(b, a)],
{
}

} // verus!
