//! The registry of connected clients.
//!
//! A client is known by the identity of its connection, a number that the
//! server gives to each connection it accepts; nicknames need not differ.
//! The registry keeps its clients in the order in which they were added.
//! Every operation is one step: the program that shares a registry between
//! threads calls each under one lock, so that whatever the threads do is
//! some sequence of these steps.

use vstd::prelude::*;

verus! {

/// What the server keeps of one connected client.
#[derive(Debug)]
pub struct Client {
    /// The identity of the client's connection.
    pub id: u64,
    /// The nickname fixed at the handshake.
    pub name: String,
}

/// A client with its nickname as a sequence of characters.
pub struct ClientView {
    pub id: u64,
    pub name: Seq<char>,
}

impl View for Client {
    type V = ClientView;

    open spec fn view(&self) -> ClientView {
        ClientView { id: self.id, name: self.name@ }
    }
}

impl Clone for Client {
    fn clone(&self) -> (r: Self)
        ensures
            r@ == self@,
    {
        Client { id: self.id, name: self.name.clone() }
    }
}

/// The views of a sequence of clients.
pub open spec fn client_views(clients: Seq<Client>) -> Seq<ClientView> {
    clients.map_values(|c: Client| c@)
}

/// Whether a client with the connection `id` is among `clients`.
pub open spec fn registered(clients: Seq<ClientView>, id: u64) -> bool {
    exists|i: int| 0 <= i < clients.len() && clients[i].id == id
}

/// `clients` without those of the connection `id`, the others in their order.
pub open spec fn without(clients: Seq<ClientView>, id: u64) -> Seq<ClientView> {
    clients.filter(|c: ClientView| c.id != id)
}

/// Whether no two of `clients` share a connection.
pub open spec fn distinct_ids(clients: Seq<ClientView>) -> bool {
    forall|i: int, j: int| 0 <= i < j < clients.len() ==> clients[i].id != clients[j].id
}

/// The clients that are connected, in the order in which they were added.
pub struct ClientRegistry {
    clients: Vec<Client>,
}

impl View for ClientRegistry {
    type V = Seq<ClientView>;

    closed spec fn view(&self) -> Seq<ClientView> {
        client_views(self.clients@)
    }
}

/// A registry without clients.
pub fn create_clients_list() -> (clients: ClientRegistry)
    ensures
        clients@ == Seq::<ClientView>::empty(),
{
    let clients = ClientRegistry { clients: Vec::new() };
    assert(clients@ =~= Seq::<ClientView>::empty());
    clients
}

/// Adds the client of the connection `id` at the end of the registry.
pub fn add_client(clients: &mut ClientRegistry, id: u64, name: String)
    ensures
        final(clients)@ == old(clients)@.push(ClientView { id, name: name@ }),
        final(clients)@.len() == old(clients)@.len() + 1,
        final(clients)@.contains(ClientView { id, name: name@ }),
        registered(final(clients)@, id),
        distinct_ids(old(clients)@) && !registered(old(clients)@, id) ==> distinct_ids(
            final(clients)@,
        ),
{
    let ghost added = ClientView { id, name: name@ };
    clients.clients.push(Client { id, name });
    proof {
        let after = clients@;
        assert(after =~= old(clients)@.push(added));
        assert(after[after.len() - 1] == added);
    }
}

/// Removes from the registry every client of the connection `id`. Nothing
/// changes where there is none.
pub fn remove_client(clients: &mut ClientRegistry, id: u64)
    ensures
        final(clients)@ == without(old(clients)@, id),
        !registered(final(clients)@, id),
        !registered(old(clients)@, id) ==> final(clients)@ == old(clients)@,
        distinct_ids(old(clients)@) ==> distinct_ids(final(clients)@),
        distinct_ids(old(clients)@) && registered(old(clients)@, id) ==> final(clients)@.len()
            == old(clients)@.len() - 1,
{
    let ghost before = clients@;
    let mut i: usize = 0;
    let ghost mut seen: int = 0;
    while i < clients.clients.len()
        invariant
            0 <= i <= clients.clients.len(),
            0 <= seen <= before.len(),
            clients.clients.len() - i == before.len() - seen,
            clients@.take(i as int) == without(before.take(seen), id),
            clients@.skip(i as int) == before.skip(seen),
        decreases clients.clients.len() - i,
    {
        proof {
            lemma_without_step(before, id, seen);
            assert(clients@.skip(i as int)[0] == before.skip(seen)[0]);
        }
        let ghost current = clients@;
        if clients.clients[i].id == id {
            clients.clients.remove(i);
            proof {
                assert(clients@.take(i as int) =~= current.take(i as int));
                assert(clients@.skip(i as int) =~= current.skip(i as int).skip(1));
                assert(before.skip(seen + 1) =~= before.skip(seen).skip(1));
            }
        } else {
            i += 1;
            proof {
                assert(current.take(i as int) =~= current.take(i - 1).push(current[i - 1]));
                assert(current.skip(i as int) =~= current.skip(i - 1).skip(1));
                assert(before.skip(seen + 1) =~= before.skip(seen).skip(1));
            }
        }
        proof {
            seen = seen + 1;
        }
    }
    proof {
        assert(clients@.take(i as int) =~= clients@);
        assert(before.take(seen) =~= before);
        lemma_without_excludes(before, id);
        lemma_without_non_member(before, id);
        lemma_without_keeps_distinct(before, id);
        lemma_without_member_len(before, id);
    }
}

/// The number of clients in the registry.
pub fn get_client_count(clients: &ClientRegistry) -> (count: usize)
    ensures
        count == clients@.len(),
{
    clients.clients.len()
}

/// The clients in the registry as they are now, in their order.
pub fn snapshot(clients: &ClientRegistry) -> (members: Vec<Client>)
    ensures
        client_views(members@) == clients@,
{
    let mut members: Vec<Client> = Vec::new();
    let mut i: usize = 0;
    while i < clients.clients.len()
        invariant
            0 <= i <= clients.clients.len(),
            client_views(members@) == clients@.take(i as int),
        decreases clients.clients.len() - i,
    {
        let ghost before = members@;
        let member = clients.clients[i].clone();
        members.push(member);
        i += 1;
        proof {
            assert(clients@[i - 1] == clients.clients@[i - 1]@);
            assert(clients@.take(i as int) =~= clients@.take(i - 1).push(clients@[i - 1]));
            assert(client_views(members@) =~= client_views(before).push(member@));
        }
    }
    assert(clients@.take(i as int) =~= clients@);
    members
}

/// Taking one more client into account either keeps what `without` gave so
/// far or adds that client at its end.
proof fn lemma_without_step(clients: Seq<ClientView>, id: u64, n: int)
    requires
        0 <= n < clients.len(),
    ensures
        without(clients.take(n + 1), id) == if clients[n].id != id {
            without(clients.take(n), id).push(clients[n])
        } else {
            without(clients.take(n), id)
        },
{
    reveal(Seq::filter);
    assert(clients.take(n + 1).drop_last() =~= clients.take(n));
}

/// After a removal no client of that connection is left.
pub proof fn lemma_without_excludes(clients: Seq<ClientView>, id: u64)
    ensures
        !registered(without(clients, id), id),
        forall|c: ClientView| #[trigger] without(clients, id).contains(c) ==> clients.contains(c),
{
    let pred = |c: ClientView| c.id != id;
    let kept = without(clients, id);
    assert forall|i: int| 0 <= i < kept.len() implies kept[i].id != id by {
        clients.lemma_filter_pred(pred, i);
    }
    assert forall|c: ClientView| #[trigger] without(clients, id).contains(c) implies clients.contains(
        c,
    ) by {
        clients.lemma_filter_contains_rev(pred, c);
    }
}

/// Removing a connection that is not registered changes nothing.
pub proof fn lemma_without_non_member(clients: Seq<ClientView>, id: u64)
    ensures
        !registered(clients, id) ==> without(clients, id) == clients,
    decreases clients.len(),
{
    reveal(Seq::filter);
    if clients.len() > 0 && !registered(clients, id) {
        let rest = clients.drop_last();
        assert forall|i: int| 0 <= i < rest.len() implies rest[i].id != id by {
            assert(rest[i] == clients[i]);
        }
        lemma_without_non_member(rest, id);
        assert(clients.last() == clients[clients.len() - 1]);
        assert(rest.push(clients.last()) =~= clients);
    }
}

/// Every client that a removal leaves stood in the registry before it, and
/// two that it leaves stand in the order in which they stood.
proof fn lemma_without_keeps_order(clients: Seq<ClientView>, id: u64)
    ensures
        forall|i: int, j: int|
            0 <= i < j < without(clients, id).len() ==> exists|a: int, b: int|
                0 <= a < b < clients.len() && clients[a] == #[trigger] without(clients, id)[i]
                    && clients[b] == #[trigger] without(clients, id)[j],
        forall|i: int|
            0 <= i < without(clients, id).len() ==> exists|a: int|
                0 <= a < clients.len() && clients[a] == #[trigger] without(clients, id)[i],
    decreases clients.len(),
{
    reveal(Seq::filter);
    if clients.len() > 0 {
        let rest = clients.drop_last();
        let kept = without(clients, id);
        lemma_without_keeps_order(rest, id);
        assert forall|i: int| 0 <= i < kept.len() implies exists|a: int|
            0 <= a < clients.len() && clients[a] == #[trigger] kept[i] by {
            if i < without(rest, id).len() {
                let a = choose|a: int| 0 <= a < rest.len() && rest[a] == without(rest, id)[i];
                assert(clients[a] == kept[i]);
            } else {
                assert(clients[clients.len() - 1] == kept[i]);
            }
        }
        assert forall|i: int, j: int| 0 <= i < j < kept.len() implies exists|a: int, b: int|
            0 <= a < b < clients.len() && clients[a] == #[trigger] kept[i] && clients[b]
                == #[trigger] kept[j] by {
            if j < without(rest, id).len() {
                let (a, b) = choose|a: int, b: int|
                    0 <= a < b < rest.len() && rest[a] == without(rest, id)[i] && rest[b]
                        == without(rest, id)[j];
                assert(clients[a] == kept[i] && clients[b] == kept[j]);
            } else {
                let a = choose|a: int| 0 <= a < rest.len() && rest[a] == without(rest, id)[i];
                assert(clients[a] == kept[i] && clients[clients.len() - 1] == kept[j]);
            }
        }
    }
}

/// A removal leaves no two clients of one connection where there were none.
pub proof fn lemma_without_keeps_distinct(clients: Seq<ClientView>, id: u64)
    ensures
        distinct_ids(clients) ==> distinct_ids(without(clients, id)),
{
    if distinct_ids(clients) {
        let kept = without(clients, id);
        lemma_without_keeps_order(clients, id);
        assert forall|i: int, j: int| 0 <= i < j < kept.len() implies kept[i].id != kept[j].id by {
            let (a, b) = choose|a: int, b: int|
                0 <= a < b < clients.len() && clients[a] == kept[i] && clients[b] == kept[j];
            assert(clients[a].id != clients[b].id);
        }
    }
}

/// Where no two clients share a connection, removing one that is registered
/// makes the registry shorter by exactly one.
pub proof fn lemma_without_member_len(clients: Seq<ClientView>, id: u64)
    ensures
        distinct_ids(clients) && registered(clients, id) ==> without(clients, id).len()
            == clients.len() - 1,
    decreases clients.len(),
{
    reveal(Seq::filter);
    if distinct_ids(clients) && registered(clients, id) {
        let rest = clients.drop_last();
        let at = choose|i: int| 0 <= i < clients.len() && clients[i].id == id;
        assert forall|i: int, j: int| 0 <= i < j < rest.len() implies rest[i].id != rest[j].id by {
            assert(rest[i] == clients[i] && rest[j] == clients[j]);
        }
        if clients.last().id == id {
            assert forall|i: int| 0 <= i < rest.len() implies rest[i].id != id by {
                assert(rest[i] == clients[i]);
                assert(clients[i].id != clients[clients.len() - 1].id);
            }
            lemma_without_non_member(rest, id);
        } else {
            assert(at < rest.len());
            assert(rest[at].id == id);
            lemma_without_member_len(rest, id);
        }
    }
}

/// One step on a registry, as a value: what a session asks of it.
pub enum RegistryOp {
    /// Add this client.
    Register(ClientView),
    /// Remove the clients of this connection.
    Deregister(u64),
}

/// The registry after one step.
pub open spec fn apply(clients: Seq<ClientView>, op: RegistryOp) -> Seq<ClientView> {
    match op {
        RegistryOp::Register(c) => clients.push(c),
        RegistryOp::Deregister(id) => without(clients, id),
    }
}

/// The registry after a sequence of steps, taken one after the other.
pub open spec fn apply_all(clients: Seq<ClientView>, ops: Seq<RegistryOp>) -> Seq<ClientView>
    decreases ops.len(),
{
    if ops.len() == 0 {
        clients
    } else {
        apply(apply_all(clients, ops.drop_last()), ops.last())
    }
}

/// Whether, in `ops`, every registration is followed at some point by the
/// removal of the same connection.
pub open spec fn every_registration_undone(ops: Seq<RegistryOp>) -> bool {
    forall|i: int|
        0 <= i < ops.len() && #[trigger] ops[i] is Register ==> exists|j: int|
            i < j < ops.len() && ops[j] == RegistryOp::Deregister(ops[i]->Register_0.id)
}

/// A client that is left after a sequence of steps was registered by one of
/// them, and no later step removed its connection.
proof fn lemma_survivors(ops: Seq<RegistryOp>)
    ensures
        forall|c: ClientView| #[trigger]
            apply_all(Seq::empty(), ops).contains(c) ==> exists|i: int|
                0 <= i < ops.len() && ops[i] == RegistryOp::Register(c) && forall|j: int|
                    i < j < ops.len() ==> ops[j] != RegistryOp::Deregister(c.id),
    decreases ops.len(),
{
    if ops.len() > 0 {
        let before = ops.drop_last();
        let mid = apply_all(Seq::empty(), before);
        let end = apply_all(Seq::empty(), ops);
        lemma_survivors(before);
        assert forall|c: ClientView| #[trigger] end.contains(c) implies exists|i: int|
            0 <= i < ops.len() && ops[i] == RegistryOp::Register(c) && forall|j: int|
                i < j < ops.len() ==> ops[j] != RegistryOp::Deregister(c.id) by {
            match ops.last() {
                RegistryOp::Register(added) => {
                    let at = choose|k: int| 0 <= k < end.len() && end[k] == c;
                    if at < mid.len() {
                        assert(mid[at] == c);
                        assert(mid.contains(c));
                        let i = choose|i: int|
                            0 <= i < before.len() && before[i] == RegistryOp::Register(c)
                                && forall|j: int|
                                i < j < before.len() ==> before[j] != RegistryOp::Deregister(c.id);
                        assert(ops[i] == before[i]);
                        assert forall|j: int| i < j < ops.len() implies ops[j]
                            != RegistryOp::Deregister(c.id) by {
                            if j < before.len() {
                                assert(ops[j] == before[j]);
                            }
                        }
                    } else {
                        assert(ops[ops.len() - 1] == RegistryOp::Register(c));
                    }
                },
                RegistryOp::Deregister(id) => {
                    lemma_without_excludes(mid, id);
                    assert(mid.contains(c));
                    let at = choose|k: int| 0 <= k < end.len() && end[k] == c;
                    assert(c.id != id);
                    let i = choose|i: int|
                        0 <= i < before.len() && before[i] == RegistryOp::Register(c)
                            && forall|j: int|
                            i < j < before.len() ==> before[j] != RegistryOp::Deregister(c.id);
                    assert(ops[i] == before[i]);
                    assert forall|j: int| i < j < ops.len() implies ops[j]
                        != RegistryOp::Deregister(c.id) by {
                        if j < before.len() {
                            assert(ops[j] == before[j]);
                        }
                    }
                },
            }
        }
    }
}

/// Whatever the order in which sessions register and deregister, once every
/// registration has been followed by the removal of the same connection the
/// registry is empty again.
pub proof fn lemma_all_undone_leaves_empty(ops: Seq<RegistryOp>)
    requires
        every_registration_undone(ops),
    ensures
        apply_all(Seq::empty(), ops) == Seq::<ClientView>::empty(),
{
    let end = apply_all(Seq::empty(), ops);
    lemma_survivors(ops);
    if end.len() > 0 {
        let c = end[0];
        assert(end.contains(c));
        let i = choose|i: int|
            0 <= i < ops.len() && ops[i] == RegistryOp::Register(c) && forall|j: int|
                i < j < ops.len() ==> ops[j] != RegistryOp::Deregister(c.id);
        assert(ops[i] is Register);
        assert(false);
    }
    assert(end =~= Seq::<ClientView>::empty());
}

} // verus!
