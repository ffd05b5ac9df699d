//! The per-pod registry of live WebSocket connections. An account may be
//! connected from several devices; each connection is known by the number that
//! the server gave it when it was accepted.
use vstd::prelude::*;
use dashmap::DashMap;

verus! {

#[verifier::external_type_specification]
#[verifier::external_body]
#[verifier::reject_recursive_types(K)]
#[verifier::reject_recursive_types(V)]
#[verifier::reject_recursive_types(S)]
pub struct ExDashMap<K, V, S>(DashMap<K, V, S>);

/// The table type behind the registry: account to connection numbers.
pub type ConnectionTable = DashMap<u128, Vec<u64>>;

/// What a connection table holds: for each account, its connections in the
/// order they were registered.
pub uninterp spec fn connection_table(m: ConnectionTable) -> Map<u128, Seq<u64>>;

/// An empty table, from `DashMap::new`.
#[verifier::external_body]
fn table_new() -> (table: ConnectionTable)
    ensures
        connection_table(table) =~= Map::empty(),
{
    DashMap::new()
}

/// A copy of an account's connection list, from `DashMap::get`.
#[verifier::external_body]
fn table_get(m: &ConnectionTable, account_id: u128) -> (res: Option<Vec<u64>>)
    ensures
        res is Some <==> connection_table(*m).contains_key(account_id),
        res matches Some(v) ==> v@ == connection_table(*m)[account_id],
{
    match m.get(&account_id) {
        Some(entry) => Some(entry.value().clone()),
        None => None,
    }
}

/// Sets an account's connection list, from `DashMap::insert`.
#[verifier::external_body]
fn table_insert(m: &mut ConnectionTable, account_id: u128, conns: Vec<u64>)
    ensures
        connection_table(*final(m)) == connection_table(*old(m)).insert(account_id, conns@),
{
    m.insert(account_id, conns);
}

/// Drops an account's entry, from `DashMap::remove`.
#[verifier::external_body]
fn table_remove(m: &mut ConnectionTable, account_id: u128)
    ensures
        connection_table(*final(m)) == connection_table(*old(m)).remove(account_id),
{
    m.remove(&account_id);
}

/// Whether an account has an entry, from `DashMap::contains_key`.
#[verifier::external_body]
fn table_contains(m: &ConnectionTable, account_id: u128) -> (res: bool)
    ensures
        res == connection_table(*m).contains_key(account_id),
{
    m.contains_key(&account_id)
}

/// Every entry of the table, each once and in the table's own order, from
/// `DashMap::iter`; each entry is mapped to its account and a copy of its list.
#[verifier::external_body]
fn table_entries(m: &ConnectionTable) -> (res: Vec<(u128, Vec<u64>)>)
    ensures
        forall|i: int|
            0 <= i < res@.len() ==> connection_table(*m).contains_key(#[trigger] res@[i].0)
                && connection_table(*m)[res@[i].0] == res@[i].1@,
        forall|i: int, j: int| 0 <= i < j < res@.len() ==> res@[i].0 != res@[j].0,
        forall|k: u128|
            connection_table(*m).contains_key(k) ==> exists|i: int|
                0 <= i < res@.len() && #[trigger] res@[i].0 == k,
{
    let mut out = Vec::new();
    for entry in m.iter() {
        out.push((*entry.key(), entry.value().clone()));
    }
    out
}

/// The step of summing list lengths over a table's accounts.
pub open spec fn add_connections_of(t: Map<u128, Seq<u64>>) -> spec_fn(nat, u128) -> nat {
    |acc: nat, k: u128| acc + t[k].len()
}

/// The number of connections in a table: the sum of its lists' lengths.
pub open spec fn total_connections(t: Map<u128, Seq<u64>>) -> nat {
    t.dom().fold(0nat, add_connections_of(t))
}

/// The sum of the list lengths of the accounts `ks`, in order.
pub open spec fn connections_of_keys(t: Map<u128, Seq<u64>>, ks: Seq<u128>) -> nat
    decreases ks.len(),
{
    if ks.len() == 0 {
        0
    } else {
        connections_of_keys(t, ks.drop_last()) + t[ks.last()].len()
    }
}

/// Summing over a table's accounts does not depend on their order: over a list
/// of distinct accounts it gives the fold over the set of those accounts.
proof fn lemma_fold_over_keys(t: Map<u128, Seq<u64>>, ks: Seq<u128>)
    requires
        forall|i: int, j: int| 0 <= i < j < ks.len() ==> ks[i] != ks[j],
    ensures
        Set::new(|k: u128| ks.contains(k)).finite(),
        Set::new(|k: u128| ks.contains(k)).fold(0nat, add_connections_of(t))
            == connections_of_keys(t, ks),
    decreases ks.len(),
{
    broadcast use vstd::set::group_set_axioms;
    let s = Set::new(|k: u128| ks.contains(k));
    let f = add_connections_of(t);
    if ks.len() == 0 {
        assert(s =~= Set::empty());
        vstd::set::fold::lemma_fold_empty(0nat, f);
    } else {
        let rest = ks.drop_last();
        let last = ks.last();
        lemma_fold_over_keys(t, rest);
        let s0 = Set::new(|k: u128| rest.contains(k));
        assert(s =~= s0.insert(last)) by {
            assert forall|k: u128| s.contains(k) <==> s0.insert(last).contains(k) by {
                if ks.contains(k) && k != last {
                    let i = choose|i: int| 0 <= i < ks.len() && ks[i] == k;
                    assert(rest[i] == k);
                }
                if rest.contains(k) {
                    let i = choose|i: int| 0 <= i < rest.len() && rest[i] == k;
                    assert(ks[i] == k);
                }
            }
        }
        assert(!s0.contains(last)) by {
            if rest.contains(last) {
                let i = choose|i: int| 0 <= i < rest.len() && rest[i] == last;
                assert(ks[i] == ks[ks.len() - 1]);
            }
        }
        assert(vstd::set::fold::is_fun_commutative(f));
        vstd::set::fold::lemma_fold_insert(s0, 0nat, f, last);
    }
}

/// The registry of the connections open on this pod.
pub struct ConnectionHub {
    connections: ConnectionTable,
}

impl View for ConnectionHub {
    type V = Map<u128, Seq<u64>>;

    closed spec fn view(&self) -> Map<u128, Seq<u64>> {
        connection_table(self.connections)
    }
}

/// A registry is well formed when it holds finitely many accounts and every
/// account in it has at least one connection.
pub open spec fn hub_well_formed(t: Map<u128, Seq<u64>>) -> bool {
    &&& t.dom().finite()
    &&& forall|k: u128| #[trigger] t.contains_key(k) ==> t[k].len() > 0
}

/// The registry after registering a connection for an account: the connection
/// is appended to the account's list, which is created if missing.
pub open spec fn registered(t: Map<u128, Seq<u64>>, account_id: u128, conn: u64) -> Map<
    u128,
    Seq<u64>,
> {
    if t.contains_key(account_id) {
        t.insert(account_id, t[account_id].push(conn))
    } else {
        t.insert(account_id, seq![conn])
    }
}

/// The filter that keeps every connection but `conn`.
pub open spec fn other_than(conn: u64) -> spec_fn(u64) -> bool {
    |c: u64| c != conn
}

/// The registry after unregistering a connection: every occurrence of it is
/// dropped from the account's list, and an account left with no connection is
/// dropped; an account not in the registry is left alone.
pub open spec fn unregistered(t: Map<u128, Seq<u64>>, account_id: u128, conn: u64) -> Map<
    u128,
    Seq<u64>,
> {
    if t.contains_key(account_id) {
        let rest = t[account_id].filter(other_than(conn));
        if rest.len() == 0 {
            t.remove(account_id)
        } else {
            t.insert(account_id, rest)
        }
    } else {
        t
    }
}

impl ConnectionHub {
    /// The registry's well-formedness.
    pub open spec fn well_formed(&self) -> bool {
        hub_well_formed(self@)
    }

    /// Every registry is well formed.
    #[verifier::type_invariant]
    spec fn registry_invariant(self) -> bool {
        hub_well_formed(connection_table(self.connections))
    }

    /// An empty registry.
    pub fn new() -> (hub: ConnectionHub)
        ensures
            hub@ == Map::<u128, Seq<u64>>::empty(),
            hub.well_formed(),
    {
        ConnectionHub { connections: table_new() }
    }

    /// Takes the table out, leaving an empty one in its place.
    fn take_table(&mut self) -> (table: ConnectionTable)
        ensures
            connection_table(table) == old(self)@,
            final(self)@ == Map::<u128, Seq<u64>>::empty(),
    {
        let mut table = table_new();
        std::mem::swap(&mut table, &mut self.connections);
        table
    }

    /// Registers a new connection of an account.
    pub fn register(&mut self, account_id: u128, conn: u64)
        ensures
            final(self).well_formed(),
            final(self)@ == registered(old(self)@, account_id, conn),
    {
        proof {
            use_type_invariant(&*self);
        }
        let mut table = self.take_table();
        let conns = match table_get(&table, account_id) {
            Some(mut v) => {
                v.push(conn);
                v
            },
            None => {
                let mut v = Vec::new();
                v.push(conn);
                v
            },
        };
        table_insert(&mut table, account_id, conns);
        proof {
            let t = old(self)@;
            assert(connection_table(table) == registered(t, account_id, conn));
            assert(connection_table(table).dom() =~= t.dom().insert(account_id));
        }
        self.connections = table;
    }

    /// Unregisters a connection of an account.
    pub fn unregister(&mut self, account_id: u128, conn: u64)
        ensures
            final(self).well_formed(),
            final(self)@ == unregistered(old(self)@, account_id, conn),
    {
        proof {
            use_type_invariant(&*self);
        }
        let ghost t = self@;
        let mut table = self.take_table();
        if let Some(v) = table_get(&table, account_id) {
            let ghost pred = other_than(conn);
            let mut rest: Vec<u64> = Vec::new();
            let mut i: usize = 0;
            while i < v.len()
                invariant
                    i <= v@.len(),
                    pred == other_than(conn),
                    rest@ == v@.take(i as int).filter(pred),
                decreases v@.len() - i,
            {
                let c = v[i];
                if c != conn {
                    rest.push(c);
                }
                proof {
                    let s1 = v@.take(i + 1);
                    assert(s1.drop_last() =~= v@.take(i as int));
                    assert(s1.last() == c);
                    reveal_with_fuel(Seq::<_>::filter, 1);
                    assert(s1.filter(pred) == (if pred(c) {
                        v@.take(i as int).filter(pred).push(c)
                    } else {
                        v@.take(i as int).filter(pred)
                    }));
                }
                i = i + 1;
            }
            assert(v@.take(v@.len() as int) =~= v@);
            if rest.len() == 0 {
                table_remove(&mut table, account_id);
                proof {
                    assert(connection_table(table).dom() =~= t.dom().remove(account_id));
                }
            } else {
                table_insert(&mut table, account_id, rest);
                proof {
                    assert(connection_table(table).dom() =~= t.dom().insert(account_id));
                }
            }
        }
        self.connections = table;
    }

    /// The connections a message for an account is handed to: all of them, in
    /// registration order; none when the account is not connected here.
    pub fn send_to_account(&self, account_id: u128) -> (targets: Vec<u64>)
        ensures
            targets@ == (if self@.contains_key(account_id) {
                self@[account_id]
            } else {
                Seq::<u64>::empty()
            }),
    {
        match table_get(&self.connections, account_id) {
            Some(v) => v,
            None => Vec::new(),
        }
    }

    /// The number of connections open on this pod, over all accounts (a count
    /// too large for `usize` is reported as `usize::MAX`).
    pub fn connection_count(&self) -> (n: usize)
        ensures
            n == (if total_connections(self@) < usize::MAX {
                total_connections(self@)
            } else {
                usize::MAX as nat
            }),
    {
        proof {
            use_type_invariant(self);
        }
        let entries = table_entries(&self.connections);
        let ghost t = self@;
        let ghost ks = entries@.map_values(|e: (u128, Vec<u64>)| e.0);
        let mut n: usize = 0;
        let mut i: usize = 0;
        while i < entries.len()
            invariant
                i <= entries@.len(),
                ks.len() == entries@.len(),
                forall|j: int| 0 <= j < entries@.len() ==> ks[j] == entries@[j].0,
                forall|j: int|
                    0 <= j < entries@.len() ==> t.contains_key(#[trigger] entries@[j].0)
                        && t[entries@[j].0] == entries@[j].1@,
                n == (if connections_of_keys(t, ks.take(i as int)) < usize::MAX {
                    connections_of_keys(t, ks.take(i as int))
                } else {
                    usize::MAX as nat
                }),
            decreases entries@.len() - i,
        {
            let len = entries[i].1.len();
            n = n.saturating_add(len);
            proof {
                let s1 = ks.take(i + 1);
                assert(s1.drop_last() =~= ks.take(i as int));
                assert(s1.last() == entries@[i as int].0);
            }
            i = i + 1;
        }
        proof {
            assert(ks.take(entries@.len() as int) =~= ks);
            assert forall|a: int, b: int| 0 <= a < b < ks.len() implies ks[a] != ks[b] by {
                assert(ks[a] == entries@[a].0);
                assert(ks[b] == entries@[b].0);
            }
            lemma_fold_over_keys(t, ks);
            assert(t.dom() =~= Set::new(|k: u128| ks.contains(k))) by {
                assert forall|k: u128| t.dom().contains(k) <==> ks.contains(k) by {
                    if t.contains_key(k) {
                        let j = choose|j: int| 0 <= j < entries@.len() && #[trigger] entries@[j].0 == k;
                        assert(ks[j] == k);
                    }
                    if ks.contains(k) {
                        let j = choose|j: int| 0 <= j < ks.len() && ks[j] == k;
                        assert(entries@[j].0 == k);
                    }
                }
            }
        }
        n
    }

    /// Whether an account has a connection open on this pod.
    pub fn is_online_local(&self, account_id: u128) -> (res: bool)
        ensures
            res == self@.contains_key(account_id),
            res <==> self@.contains_key(account_id) && self@[account_id].len() > 0,
    {
        proof {
            use_type_invariant(self);
        }
        table_contains(&self.connections, account_id)
    }
}

/// Folding list lengths over a finite set of accounts gives the same sum for
/// two tables whose lists have the same lengths on that set.
proof fn lemma_fold_agree(s: Set<u128>, t1: Map<u128, Seq<u64>>, t2: Map<u128, Seq<u64>>)
    requires
        s.finite(),
        forall|k: u128| #[trigger] s.contains(k) ==> t1[k].len() == t2[k].len(),
    ensures
        s.fold(0nat, add_connections_of(t1)) == s.fold(0nat, add_connections_of(t2)),
    decreases s.len(),
{
    broadcast use vstd::set::group_set_axioms;
    let f1 = add_connections_of(t1);
    let f2 = add_connections_of(t2);
    assert(vstd::set::fold::is_fun_commutative(f1));
    assert(vstd::set::fold::is_fun_commutative(f2));
    if s.len() == 0 {
        assert(s =~= Set::empty());
        vstd::set::fold::lemma_fold_empty(0nat, f1);
        vstd::set::fold::lemma_fold_empty(0nat, f2);
    } else {
        let x = s.choose();
        let r = s.remove(x);
        lemma_fold_agree(r, t1, t2);
        assert(s =~= r.insert(x));
        vstd::set::fold::lemma_fold_insert(r, 0nat, f1, x);
        vstd::set::fold::lemma_fold_insert(r, 0nat, f2, x);
    }
}

/// Registering a connection puts the account online on this pod, appends the
/// connection to its list, keeps the registry well formed, and raises the
/// connection count by exactly one.
pub proof fn register_adds_one_connection(t: Map<u128, Seq<u64>>, account_id: u128, conn: u64)
    requires
        hub_well_formed(t),
    ensures
        hub_well_formed(registered(t, account_id, conn)),
        registered(t, account_id, conn).contains_key(account_id),
        registered(t, account_id, conn)[account_id].last() == conn,
        total_connections(registered(t, account_id, conn)) == total_connections(t) + 1,
{
    broadcast use vstd::set::group_set_axioms;
    let t2 = registered(t, account_id, conn);
    let f1 = add_connections_of(t);
    let f2 = add_connections_of(t2);
    assert(vstd::set::fold::is_fun_commutative(f1));
    assert(vstd::set::fold::is_fun_commutative(f2));
    let r = t.dom().remove(account_id);
    lemma_fold_agree(r, t, t2);
    assert(t2.dom() =~= r.insert(account_id));
    vstd::set::fold::lemma_fold_insert(r, 0nat, f2, account_id);
    if t.contains_key(account_id) {
        assert(t.dom() =~= r.insert(account_id));
        vstd::set::fold::lemma_fold_insert(r, 0nat, f1, account_id);
    } else {
        assert(t.dom() =~= r);
    }
}

/// The filter that drops a connection keeps a list that never held it.
proof fn lemma_filter_other_than_absent(s: Seq<u64>, conn: u64)
    requires
        !s.contains(conn),
    ensures
        s.filter(other_than(conn)) == s,
    decreases s.len(),
{
    reveal_with_fuel(Seq::<_>::filter, 1);
    if s.len() > 0 {
        let rest = s.drop_last();
        assert(!rest.contains(conn)) by {
            if rest.contains(conn) {
                let i = choose|i: int| 0 <= i < rest.len() && rest[i] == conn;
                assert(s[i] == conn);
            }
        }
        lemma_filter_other_than_absent(rest, conn);
        assert(s.last() != conn) by {
            if s.last() == conn {
                assert(s[s.len() - 1] == conn);
            }
        }
        assert(rest.push(s.last()) =~= s);
    } else {
        assert(s.filter(other_than(conn)) =~= s);
    }
}

/// Unregistering a connection undoes registering it: when the connection was
/// not already registered for the account, registering and then unregistering
/// it gives back the registry as it was.
pub proof fn unregister_undoes_register(t: Map<u128, Seq<u64>>, account_id: u128, conn: u64)
    requires
        hub_well_formed(t),
        !(t.contains_key(account_id) && t[account_id].contains(conn)),
    ensures
        unregistered(registered(t, account_id, conn), account_id, conn) == t,
{
    reveal_with_fuel(Seq::<_>::filter, 1);
    if t.contains_key(account_id) {
        let old_list = t[account_id];
        lemma_filter_other_than_absent(old_list, conn);
        assert(old_list.push(conn).drop_last() =~= old_list);
        assert(old_list.push(conn).filter(other_than(conn)) == old_list);
        assert(unregistered(registered(t, account_id, conn), account_id, conn) =~= t);
    } else {
        let single = seq![conn];
        assert(single.drop_last() =~= Seq::<u64>::empty());
        assert(Seq::<u64>::empty().filter(other_than(conn)) =~= Seq::<u64>::empty());
        assert(single.filter(other_than(conn)).len() == 0);
        assert(unregistered(registered(t, account_id, conn), account_id, conn) =~= t);
    }
}

/// Unregistering the only connection of an account takes the account offline
/// on this pod.
pub proof fn unregister_last_goes_offline(t: Map<u128, Seq<u64>>, account_id: u128, conn: u64)
    requires
        hub_well_formed(t),
        t.contains_key(account_id),
        forall|i: int| 0 <= i < t[account_id].len() ==> t[account_id][i] == conn,
    ensures
        !unregistered(t, account_id, conn).contains_key(account_id),
{
    let s = t[account_id];
    let f = s.filter(other_than(conn));
    if f.len() > 0 {
        s.lemma_filter_contains_rev(other_than(conn), f[0]);
        assert(f.contains(f[0]));
        assert(false);
    }
}

/// Unregistering a connection removes that connection only: the account
/// keeps every other connection it had, in the order they were registered,
/// and so stays online while it has one; it gains none; no other account's
/// connections change.
pub proof fn unregister_keeps_other_connections(t: Map<u128, Seq<u64>>, account_id: u128, conn: u64)
    requires
        hub_well_formed(t),
    ensures
        ({
            let u = unregistered(t, account_id, conn);
            &&& forall|b: u128| b != account_id ==> (#[trigger] u.contains_key(b) == t.contains_key(b) && (
            t.contains_key(b) ==> u[b] == t[b]))
            &&& forall|i: int|
                t.contains_key(account_id) && 0 <= i < t[account_id].len() && #[trigger] t[account_id][i] != conn
                    ==> u.contains_key(account_id) && u[account_id].contains(t[account_id][i])
            &&& forall|j: int|
                u.contains_key(account_id) && 0 <= j < u[account_id].len() ==> t.contains_key(account_id)
                    && t[account_id].contains(#[trigger] u[account_id][j]) && u[account_id][j] != conn
            &&& u.contains_key(account_id) ==> u[account_id] == t[account_id].filter(|x: u64| x != conn)
        }),
{
    let u = unregistered(t, account_id, conn);
    if t.contains_key(account_id) {
        let s = t[account_id];
        let f = s.filter(other_than(conn));
        assert(other_than(conn) =~= (|x: u64| x != conn));
        assert(f == s.filter(|x: u64| x != conn));
        assert forall|i: int| 0 <= i < s.len() && #[trigger] s[i] != conn implies u.contains_key(account_id)
            && u[account_id].contains(s[i]) by {
            s.lemma_filter_contains(other_than(conn), i);
            assert(f.contains(s[i]));
            assert(f.len() > 0);
        }
        assert forall|j: int| u.contains_key(account_id) && 0 <= j < u[account_id].len() implies s.contains(
            #[trigger] u[account_id][j],
        ) && u[account_id][j] != conn by {
            assert(f.contains(f[j]));
            s.lemma_filter_contains_rev(other_than(conn), f[j]);
            s.lemma_filter_pred(other_than(conn), j);
        }
    }
}

impl Default for ConnectionHub {
    fn default() -> (hub: ConnectionHub)
        ensures
            hub@ == Map::<u128, Seq<u64>>::empty(),
            hub.well_formed(),
    {
        ConnectionHub::new()
    }
}

} // verus!
