//! The handler of one connection, as a state machine.
//!
//! The program owns the socket. It tells the handler what happened on it
//! (the connection was accepted, a line arrived, the stream ended or
//! failed), and the handler answers with the session's next state, the
//! change to the registry and the action to carry out. A session starts by
//! awaiting its handshake, becomes active with the nickname that the
//! handshake gave, and ends terminated; it is in the registry exactly while
//! it is active.

use vstd::prelude::*;
use vstd::string::*;

use crate::server::client_manager::{
    add_client, lemma_without_excludes, registered, remove_client, without, ClientRegistry,
    ClientView,
};
use crate::server::message_handler::{handle_client_messages, line_action};
use crate::server::network::{
    action_view, broadcast, broadcast_of, get_nickname, nickname_of_line, nickname_request_view,
    reply_of, request_nickname, Action, ActionView,
};
use crate::{Packet, PacketType, PacketView};

verus! {

/// Where a session stands.
#[derive(Debug)]
pub enum SessionState {
    /// The nickname is not known yet; the session is not registered.
    AwaitingHandshake,
    /// The session is registered under this nickname.
    Active(String),
    /// The session is over.
    Terminated,
}

/// A session's state with its nickname as a sequence of characters.
pub enum SessionStateView {
    AwaitingHandshake,
    Active(Seq<char>),
    Terminated,
}

impl View for SessionState {
    type V = SessionStateView;

    open spec fn view(&self) -> SessionStateView {
        match self {
            SessionState::AwaitingHandshake => SessionStateView::AwaitingHandshake,
            SessionState::Active(nickname) => SessionStateView::Active(nickname@),
            SessionState::Terminated => SessionStateView::Terminated,
        }
    }
}

/// What happened on a session's connection.
#[derive(Debug)]
pub enum SessionEvent {
    /// The connection was accepted.
    Connected,
    /// A line arrived.
    Line(String),
    /// The stream ended, or reading from it or writing to it failed.
    Closed,
}

/// An event with its line as a sequence of characters.
pub enum SessionEventView {
    Connected,
    Line(Seq<char>),
    Closed,
}

impl View for SessionEvent {
    type V = SessionEventView;

    open spec fn view(&self) -> SessionEventView {
        match self {
            SessionEvent::Connected => SessionEventView::Connected,
            SessionEvent::Line(line) => SessionEventView::Line(line@),
            SessionEvent::Closed => SessionEventView::Closed,
        }
    }
}

/// What one step of a handler leaves: the session's state, the registry,
/// and the action to carry out.
pub struct Step {
    pub state: SessionStateView,
    pub clients: Seq<ClientView>,
    pub action: Option<ActionView>,
}

/// The notice that `nickname` has joined.
pub open spec fn join_view(nickname: Seq<char>) -> PacketView {
    PacketView {
        kind: PacketType::Join,
        content: "*** "@ + nickname + " joined ***"@,
        nickname: Some(nickname),
    }
}

/// The notice that `nickname` has left.
pub open spec fn leave_view(nickname: Seq<char>) -> PacketView {
    PacketView {
        kind: PacketType::Leave,
        content: "*** "@ + nickname + " left ***"@,
        nickname: Some(nickname),
    }
}

/// The step of the session `id` on `event`.
///
/// Awaiting its handshake, a session is prompted for a nickname when it is
/// connected. The line that follows must give a nickname: then the session
/// is registered and its arrival told to every client, itself included; on
/// any other line, or when the stream closes, the session ends without
/// having been registered and without a notice.
///
/// An active session stays active on every line; what the line asks for is
/// `line_action`. When its stream closes the session is removed from the
/// registry and its departure told to the clients that remain.
///
/// A terminated session does nothing.
pub open spec fn session_step(
    state: SessionStateView,
    clients: Seq<ClientView>,
    id: u64,
    event: SessionEventView,
) -> Step {
    match state {
        SessionStateView::AwaitingHandshake => match event {
            SessionEventView::Connected => Step {
                state,
                clients,
                action: reply_of(nickname_request_view()),
            },
            SessionEventView::Line(line) => match nickname_of_line(line) {
                Ok(nickname) => {
                    let joined = clients.push(ClientView { id, name: nickname });
                    Step {
                        state: SessionStateView::Active(nickname),
                        clients: joined,
                        action: broadcast_of(joined, join_view(nickname)),
                    }
                },
                Err(_) => Step { state: SessionStateView::Terminated, clients, action: None },
            },
            SessionEventView::Closed => Step {
                state: SessionStateView::Terminated,
                clients,
                action: None,
            },
        },
        SessionStateView::Active(nickname) => match event {
            SessionEventView::Connected => Step { state, clients, action: None },
            SessionEventView::Line(line) => Step {
                state,
                clients,
                action: line_action(clients, nickname, line),
            },
            SessionEventView::Closed => {
                let rest = without(clients, id);
                Step {
                    state: SessionStateView::Terminated,
                    clients: rest,
                    action: broadcast_of(rest, leave_view(nickname)),
                }
            },
        },
        SessionStateView::Terminated => Step { state, clients, action: None },
    }
}

/// Takes the session `id` one step further on `event`.
pub fn handle_client(
    state: SessionState,
    clients: &mut ClientRegistry,
    id: u64,
    event: SessionEvent,
) -> (r: (SessionState, Option<Action>))
    ensures
        session_step(state@, old(clients)@, id, event@) == (Step {
            state: r.0@,
            clients: final(clients)@,
            action: action_view(r.1),
        }),
{
    match state {
        SessionState::AwaitingHandshake => match event {
            SessionEvent::Connected => (SessionState::AwaitingHandshake, request_nickname()),
            SessionEvent::Line(line) => match get_nickname(line.as_str()) {
                Ok(nickname) => {
                    add_client(clients, id, nickname.clone());
                    let join_packet = Packet::join(nickname.clone());
                    let action = broadcast(clients, &join_packet);
                    (SessionState::Active(nickname), action)
                },
                Err(_) => (SessionState::Terminated, None),
            },
            SessionEvent::Closed => (SessionState::Terminated, None),
        },
        SessionState::Active(nickname) => match event {
            SessionEvent::Connected => (SessionState::Active(nickname), None),
            SessionEvent::Line(line) => {
                let action = handle_client_messages(clients, nickname.as_str(), line.as_str());
                (SessionState::Active(nickname), action)
            },
            SessionEvent::Closed => {
                remove_client(clients, id);
                let leave_packet = Packet::leave(nickname);
                let action = broadcast(clients, &leave_packet);
                (SessionState::Terminated, action)
            },
        },
        SessionState::Terminated => (SessionState::Terminated, None),
    }
}

/// A terminated session stays terminated, leaves the registry as it is and
/// sends nothing, whatever happens.
pub proof fn lemma_terminated_is_final(clients: Seq<ClientView>, id: u64, event: SessionEventView)
    ensures
        session_step(SessionStateView::Terminated, clients, id, event) == (Step {
            state: SessionStateView::Terminated,
            clients,
            action: None,
        }),
{
}

/// The nickname of an active session is fixed: whatever happens, the
/// session stays active under the same nickname or terminates.
pub proof fn lemma_nickname_is_fixed(
    clients: Seq<ClientView>,
    id: u64,
    nickname: Seq<char>,
    event: SessionEventView,
)
    ensures
        ({
            let next = session_step(SessionStateView::Active(nickname), clients, id, event).state;
            next == SessionStateView::Active(nickname) || next == SessionStateView::Terminated
        }),
{
}

/// A session whose handshake fails is never registered, and nothing is sent
/// on its account.
pub proof fn lemma_failed_handshake(clients: Seq<ClientView>, id: u64, line: Seq<char>)
    requires
        nickname_of_line(line) is Err,
    ensures
        session_step(
            SessionStateView::AwaitingHandshake,
            clients,
            id,
            SessionEventView::Line(line),
        ) == (Step { state: SessionStateView::Terminated, clients, action: None }),
{
}

/// When an active session closes, its connection is no longer registered,
/// and the notice of its departure is addressed to all that remain and to
/// none else.
pub proof fn lemma_departure(clients: Seq<ClientView>, id: u64, nickname: Seq<char>)
    ensures
        ({
            let step = session_step(
                SessionStateView::Active(nickname),
                clients,
                id,
                SessionEventView::Closed,
            );
            &&& step.state == SessionStateView::Terminated
            &&& !registered(step.clients, id)
            &&& step.action == broadcast_of(step.clients, leave_view(nickname))
        }),
{
    lemma_without_excludes(clients, id);
}

/// The clients of the connection `id` in the registry, in their order.
pub open spec fn entries_of(clients: Seq<ClientView>, id: u64) -> Seq<ClientView> {
    clients.filter(|c: ClientView| c.id == id)
}

/// Whether the registry agrees with the state of the session `id`: an
/// active session is registered once, under its nickname, and a session
/// that is not active is not registered.
pub open spec fn consistent(state: SessionStateView, clients: Seq<ClientView>, id: u64) -> bool {
    match state {
        SessionStateView::Active(nickname) => entries_of(clients, id) == seq![
            ClientView { id, name: nickname },
        ],
        _ => entries_of(clients, id) == Seq::<ClientView>::empty(),
    }
}

/// A connection has no entries exactly when it is not registered.
pub proof fn lemma_no_entries(clients: Seq<ClientView>, id: u64)
    ensures
        entries_of(clients, id) == Seq::<ClientView>::empty() <==> !registered(clients, id),
    decreases clients.len(),
{
    reveal(Seq::filter);
    if clients.len() == 0 {
        assert(entries_of(clients, id) =~= Seq::<ClientView>::empty());
    } else {
        let rest = clients.drop_last();
        let last = clients[clients.len() - 1];
        lemma_no_entries(rest, id);
        if last.id == id {
            assert(entries_of(clients, id) == entries_of(rest, id).push(last));
            assert(entries_of(clients, id).len() > 0);
            assert(registered(clients, id));
        } else {
            assert(entries_of(clients, id) == entries_of(rest, id));
            if registered(clients, id) {
                let at = choose|i: int| 0 <= i < clients.len() && clients[i].id == id;
                assert(rest[at].id == id);
            }
            if registered(rest, id) {
                let at = choose|i: int| 0 <= i < rest.len() && rest[i].id == id;
                assert(clients[at].id == id);
            }
        }
    }
}

/// A client that is added joins the entries of its own connection and of no
/// other.
proof fn lemma_entries_push(clients: Seq<ClientView>, added: ClientView, id: u64)
    ensures
        entries_of(clients.push(added), id) == if added.id == id {
            entries_of(clients, id).push(added)
        } else {
            entries_of(clients, id)
        },
{
    reveal(Seq::filter);
    assert(clients.push(added).drop_last() =~= clients);
}

/// Removing a connection leaves the entries of every other as they were.
proof fn lemma_entries_without(clients: Seq<ClientView>, removed: u64, id: u64)
    requires
        removed != id,
    ensures
        entries_of(without(clients, removed), id) == entries_of(clients, id),
    decreases clients.len(),
{
    reveal(Seq::filter);
    if clients.len() > 0 {
        let rest = clients.drop_last();
        lemma_entries_without(rest, removed, id);
        if clients.last().id != removed {
            lemma_entries_push(without(rest, removed), clients.last(), id);
        }
    }
}

/// A step of a session keeps the registry in agreement with that session's
/// state: the session is registered exactly while it is active.
pub proof fn lemma_step_keeps_own(
    state: SessionStateView,
    clients: Seq<ClientView>,
    id: u64,
    event: SessionEventView,
)
    requires
        consistent(state, clients, id),
    ensures
        consistent(
            session_step(state, clients, id, event).state,
            session_step(state, clients, id, event).clients,
            id,
        ),
{
    let step = session_step(state, clients, id, event);
    match state {
        SessionStateView::AwaitingHandshake => {
            if let SessionEventView::Line(line) = event {
                if let Ok(nickname) = nickname_of_line(line) {
                    let added = ClientView { id, name: nickname };
                    lemma_entries_push(clients, added, id);
                    assert(Seq::<ClientView>::empty().push(added) =~= seq![added]);
                }
            }
        },
        SessionStateView::Active(nickname) => {
            if event is Closed {
                lemma_without_excludes(clients, id);
                lemma_no_entries(step.clients, id);
            }
        },
        SessionStateView::Terminated => {},
    }
}

/// A step of one session leaves the registry in agreement with the state of
/// every other session.
pub proof fn lemma_step_keeps_others(
    state: SessionStateView,
    clients: Seq<ClientView>,
    id: u64,
    event: SessionEventView,
    other_state: SessionStateView,
    other: u64,
)
    requires
        other != id,
        consistent(other_state, clients, other),
    ensures
        consistent(other_state, session_step(state, clients, id, event).clients, other),
{
    let step = session_step(state, clients, id, event);
    match state {
        SessionStateView::AwaitingHandshake => {
            if let SessionEventView::Line(line) = event {
                if let Ok(nickname) = nickname_of_line(line) {
                    lemma_entries_push(clients, ClientView { id, name: nickname }, other);
                }
            }
        },
        SessionStateView::Active(nickname) => {
            if event is Closed {
                lemma_entries_without(clients, id, other);
            }
        },
        SessionStateView::Terminated => {},
    }
}

} // verus!
