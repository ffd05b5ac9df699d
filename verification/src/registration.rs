//! The writes of a registration, in order, and their undoing: the username
//! is claimed first, then the account row and the key material are written;
//! when a write fails, the ones already made are undone, last first, so that
//! a failed registration leaves none of its records behind.
use vstd::prelude::*;
use crate::account::Account;
use crate::error::AppError;

verus! {

/// One record that a registration writes.
#[derive(Debug, Clone, Copy, PartialEq, Eq, Structural)]
pub enum RegistrationWrite {
    /// The username index entry, claimed with a conditional insert.
    ClaimUsername,
    /// The account row.
    InsertAccount,
    /// The identity key.
    StoreIdentityKey,
    /// The signed pre-key.
    StoreSignedPreKey,
    /// The one-time pre-keys.
    StorePreKeys,
}

/// The writes of a registration, in the order they are made.
pub open spec fn write_order() -> Seq<RegistrationWrite> {
    seq![
        RegistrationWrite::ClaimUsername,
        RegistrationWrite::InsertAccount,
        RegistrationWrite::StoreIdentityKey,
        RegistrationWrite::StoreSignedPreKey,
        RegistrationWrite::StorePreKeys,
    ]
}

/// The write at a position of the order.
fn write_at(i: usize) -> (w: RegistrationWrite)
    requires
        i < 5,
    ensures
        w == write_order()[i as int],
{
    if i == 0 {
        RegistrationWrite::ClaimUsername
    } else if i == 1 {
        RegistrationWrite::InsertAccount
    } else if i == 2 {
        RegistrationWrite::StoreIdentityKey
    } else if i == 3 {
        RegistrationWrite::StoreSignedPreKey
    } else {
        RegistrationWrite::StorePreKeys
    }
}

/// A registration's next step.
#[derive(Debug, PartialEq, Eq, Structural)]
pub enum RegistrationStep {
    /// Make a write; its outcome comes back to `on_written`.
    Write(RegistrationWrite),
    /// Delete a record that this registration wrote; then `on_undone`.
    Undo(RegistrationWrite),
    /// The registration is over: every write was made, or it failed and
    /// what it wrote is undone.
    Finished { ok: bool },
}

/// The progress of a registration: how many writes of the order were made,
/// and whether it is undoing them after a failure.
#[derive(Debug)]
pub struct RegistrationWrites {
    pub written: usize,
    pub undoing: bool,
}

/// The step that undoes the writes left, or the end of a failed registration
/// when none is left.
pub open spec fn undo_step(written: nat) -> RegistrationStep {
    if written == 0 {
        RegistrationStep::Finished { ok: false }
    } else {
        RegistrationStep::Undo(write_order()[written - 1])
    }
}

impl RegistrationWrites {
    /// Starts a registration; the first write claims the username.
    pub fn start() -> (res: (RegistrationWrites, RegistrationStep))
        ensures
            res.0.written == 0 && !res.0.undoing,
            res.1 == RegistrationStep::Write(RegistrationWrite::ClaimUsername),
    {
        (RegistrationWrites { written: 0, undoing: false }, RegistrationStep::Write(RegistrationWrite::ClaimUsername))
    }

    /// Takes the outcome of the current write: `Some(true)` when it was made,
    /// `Some(false)` when a conditional write was not applied, `None` when
    /// it failed. A write that was made moves on to the next one, or ends the
    /// registration once all are made. Otherwise nothing of this write is
    /// kept and the writes made before it are undone, last first; a username
    /// claim that did not go through leaves nothing to undo.
    pub fn on_written(self, outcome: Option<bool>) -> (res: (RegistrationWrites, RegistrationStep))
        requires
            !self.undoing,
            self.written < 5,
        ensures
            outcome == Some(true) ==> res.0.written == self.written + 1 && !res.0.undoing && res.1 == (if self.written
                + 1 == 5 {
                RegistrationStep::Finished { ok: true }
            } else {
                RegistrationStep::Write(write_order()[self.written + 1])
            }),
            outcome != Some(true) ==> res.0.written == self.written && res.0.undoing && res.1 == undo_step(
                self.written as nat,
            ),
    {
        match outcome {
            Some(true) => {
                let written = self.written + 1;
                if written == 5 {
                    (RegistrationWrites { written, undoing: false }, RegistrationStep::Finished { ok: true })
                } else {
                    (RegistrationWrites { written, undoing: false }, RegistrationStep::Write(write_at(written)))
                }
            },
            _ => {
                let step = if self.written == 0 {
                    RegistrationStep::Finished { ok: false }
                } else {
                    RegistrationStep::Undo(write_at(self.written - 1))
                };
                (RegistrationWrites { written: self.written, undoing: true }, step)
            },
        }
    }

    /// Takes the end of an undo, whatever it gave: the record before it is
    /// undone next, until none is left and the registration ends as failed.
    pub fn on_undone(self) -> (res: (RegistrationWrites, RegistrationStep))
        requires
            self.undoing,
            0 < self.written <= 5,
        ensures
            res.0.written == self.written - 1,
            res.0.undoing,
            res.1 == undo_step((self.written - 1) as nat),
    {
        let written = self.written - 1;
        let step = if written == 0 {
            RegistrationStep::Finished { ok: false }
        } else {
            RegistrationStep::Undo(write_at(written - 1))
        };
        (RegistrationWrites { written, undoing: true }, step)
    }
}

/// The answer to a registration that ended: a failed one is an internal
/// error, as store errors are.
pub fn registration_result(ok: bool) -> (res: Result<(), AppError>)
    ensures
        ok ==> res is Ok,
        !ok ==> res matches Err(AppError::InternalError),
{
    if ok {
        Ok(())
    } else {
        Err(AppError::InternalError)
    }
}

/// The undo steps that a failure after `written` writes leads to, one per
/// write made, last first: what `on_written` and then `on_undone` give.
pub open spec fn undo_steps(written: nat) -> Seq<RegistrationWrite>
    decreases written,
{
    if written == 0 {
        Seq::empty()
    } else {
        seq![write_order()[written - 1]].add(undo_steps((written - 1) as nat))
    }
}

/// The records of a registration in the store once some writes were made
/// and some records deleted.
pub open spec fn records_after(
    before: Set<RegistrationWrite>,
    writes: Seq<RegistrationWrite>,
    undos: Seq<RegistrationWrite>,
) -> Set<RegistrationWrite> {
    before.union(writes.to_set()).difference(undos.to_set())
}

/// A failed registration leaves nothing behind: after a failure at any
/// write, the undo steps are the writes already made, last first, and once
/// they are done none of the registration's records is left.
pub proof fn failed_registration_is_undone(written: nat)
    requires
        written <= 5,
    ensures
        undo_steps(written) =~= write_order().take(written as int).reverse(),
        records_after(Set::empty(), write_order().take(written as int), undo_steps(written)).is_empty(),
    decreases written,
{
    if written > 0 {
        failed_registration_is_undone((written - 1) as nat);
        let w = written as int;
        assert(write_order().take(w).reverse() =~= seq![write_order()[w - 1]].add(
            write_order().take(w - 1).reverse(),
        ));
    }
    let r = records_after(Set::empty(), write_order().take(written as int), undo_steps(written));
    assert forall|x: RegistrationWrite| !r.contains(x) by {
        if write_order().take(written as int).to_set().contains(x) {
            let i = choose|i: int| 0 <= i < written && write_order().take(written as int)[i] == x;
            assert(write_order().take(written as int).reverse()[written - 1 - i] == x);
            assert(undo_steps(written).contains(x));
        }
    }
    assert(r =~= Set::empty());
}

/// The username index: each claimed username and the account that claimed
/// it.
pub type UsernameIndex = Map<Seq<char>, u128>;

/// A conditional claim of a username (`INSERT .. IF NOT EXISTS`), which the
/// store applies one at a time: the index afterwards, and whether the claim
/// applied, which it does exactly when the name was free.
pub open spec fn claim_username(index: UsernameIndex, name: Seq<char>, account_id: u128) -> (UsernameIndex, bool) {
    if index.contains_key(name) {
        (index, false)
    } else {
        (index.insert(name, account_id), true)
    }
}

/// A username goes to one account: of two registrations that claim the
/// same name, in whichever order the store applies their claims, at most
/// one claim applies, and a claimed name keeps the account that claimed it
/// first. A registration whose claim does not apply writes nothing else
/// (`on_written`).
pub proof fn username_claimed_once(index: UsernameIndex, name: Seq<char>, first_id: u128, second_id: u128)
    ensures
        ({
            let (after_first, first) = claim_username(index, name, first_id);
            let (after_second, second) = claim_username(after_first, name, second_id);
            &&& !(first && second)
            &&& after_second.contains_key(name)
            &&& after_second[name] == (if index.contains_key(name) { index[name] } else { first_id })
            &&& after_second == after_first
        }),
{
}

/// The account found under a username: the one the index names, when its
/// row is stored.
pub open spec fn account_by_username(
    index: UsernameIndex,
    rows: Map<u128, Account>,
    name: Seq<char>,
) -> Option<Account> {
    if index.contains_key(name) && rows.contains_key(index[name]) {
        Some(rows[index[name]])
    } else {
        None
    }
}

/// A registration is found by its username: when the name was free, the
/// claim applies, and once the account row is written the lookup by that
/// name gives the registered account; the other names find what they found
/// before, but for one that pointed at a row under the same identifier.
pub proof fn registered_account_is_found(index: UsernameIndex, rows: Map<u128, Account>, account: Account)
    requires
        !index.contains_key(account.username@),
    ensures
        ({
            let (claimed, applied) = claim_username(index, account.username@, account.id);
            let stored = rows.insert(account.id, account);
            &&& applied
            &&& account_by_username(claimed, stored, account.username@) == Some(account)
            &&& forall|other: Seq<char>| other != account.username@ && !(index.contains_key(other) && index[other]
                == account.id) ==> #[trigger] account_by_username(claimed, stored, other) == account_by_username(
                index,
                rows,
                other,
            )
        }),
{
}

} // verus!
