//! What the server sends, and to whom.
//!
//! Nothing here touches a socket. A function that the server calls in order
//! to send returns an `Action`: the line to write and the sessions to write
//! it to. The program carries the action out; for a broadcast it hands its
//! way of writing to one session to `deliver`, which sees to it that every
//! recipient gets its own attempt, so that a session whose stream is broken
//! takes no line from the others.

use vstd::prelude::*;
use vstd::string::*;

use crate::server::client_manager::{client_views, snapshot, Client, ClientRegistry, ClientView};
use crate::{packet_line, packet_of_line, Packet, PacketType, PacketView};

verus! {

/// What the handler of one session asks the program to send.
#[derive(Debug)]
pub enum Action {
    /// Write the line to the handler's own session.
    Reply(String),
    /// Write the line to each of these sessions, in this order.
    Broadcast(String, Vec<Client>),
}

/// An action with its texts as sequences of characters.
pub enum ActionView {
    Reply(Seq<char>),
    Broadcast(Seq<char>, Seq<ClientView>),
}

impl View for Action {
    type V = ActionView;

    open spec fn view(&self) -> ActionView {
        match self {
            Action::Reply(line) => ActionView::Reply(line@),
            Action::Broadcast(line, to) => ActionView::Broadcast(line@, client_views(to@)),
        }
    }
}

/// The view of an action that may be absent.
pub open spec fn action_view(action: Option<Action>) -> Option<ActionView> {
    match action {
        Some(a) => Some(a@),
        None => None,
    }
}

/// Why a handshake failed.
#[derive(Debug, Clone, Copy, PartialEq, Eq, Structural)]
pub enum HandshakeError {
    /// The line is not a packet.
    InvalidPacket,
    /// The packet is not a nickname response.
    UnexpectedKind,
    /// The nickname is empty.
    EmptyNickname,
}

impl HandshakeError {
    /// What went wrong, in words.
    pub fn message(&self) -> (r: &'static str)
        ensures
            r@ == match self {
                HandshakeError::InvalidPacket => "invalid JSON packet"@,
                HandshakeError::UnexpectedKind => "invalid packet type for nickname"@,
                HandshakeError::EmptyNickname => "nickname is empty"@,
            },
    {
        match self {
            HandshakeError::InvalidPacket => "invalid JSON packet",
            HandshakeError::UnexpectedKind => "invalid packet type for nickname",
            HandshakeError::EmptyNickname => "nickname is empty",
        }
    }
}

/// The action that sends a packet to the handler's own session.
pub open spec fn reply_of(p: PacketView) -> Option<ActionView> {
    match packet_line(p) {
        Some(line) => Some(ActionView::Reply(line)),
        None => None,
    }
}

/// The action that sends a packet to each of `clients`.
pub open spec fn broadcast_of(clients: Seq<ClientView>, p: PacketView) -> Option<ActionView> {
    match packet_line(p) {
        Some(line) => Some(ActionView::Broadcast(line, clients)),
        None => None,
    }
}

/// The packet that prompts for a nickname.
pub open spec fn nickname_request_view() -> PacketView {
    PacketView {
        kind: PacketType::NicknameRequest,
        content: "Please enter your nickname: "@,
        nickname: None,
    }
}

/// The nickname that a line of the handshake gives: the line is a nickname
/// response whose content is not empty.
pub open spec fn nickname_of_line(line: Seq<char>) -> Result<Seq<char>, HandshakeError> {
    match packet_of_line(line) {
        None => Err(HandshakeError::InvalidPacket),
        Some(p) => if p.kind != PacketType::NicknameResponse {
            Err(HandshakeError::UnexpectedKind)
        } else if p.content.len() == 0 {
            Err(HandshakeError::EmptyNickname)
        } else {
            Ok(p.content)
        },
    }
}

/// Sends a packet to every client in the registry, as it is now. A packet
/// that cannot be written is sent to nobody.
pub fn broadcast(clients: &ClientRegistry, packet: &Packet) -> (r: Option<Action>)
    ensures
        action_view(r) == broadcast_of(clients@, packet@),
{
    match packet.to_line() {
        Some(line) => Some(Action::Broadcast(line, snapshot(clients))),
        None => None,
    }
}

/// Reads the nickname from the line that answers the prompt.
pub fn get_nickname(line: &str) -> (r: Result<String, HandshakeError>)
    ensures
        match r {
            Ok(nickname) => nickname_of_line(line@) == Ok::<Seq<char>, HandshakeError>(nickname@),
            Err(e) => nickname_of_line(line@) == Err::<Seq<char>, HandshakeError>(e),
        },
{
    let packet = match Packet::from_json(line) {
        Ok(p) => p,
        Err(_) => {
            return Err(HandshakeError::InvalidPacket);
        },
    };
    if packet.packet_type == PacketType::NicknameResponse {
        if packet.content.as_str().is_empty() {
            Err(HandshakeError::EmptyNickname)
        } else {
            Ok(packet.content)
        }
    } else {
        Err(HandshakeError::UnexpectedKind)
    }
}

/// Prompts the session for its nickname.
pub fn request_nickname() -> (r: Option<Action>)
    ensures
        action_view(r) == reply_of(nickname_request_view()),
{
    let packet = Packet::nickname_request();
    send_packet(&packet)
}

/// Sends a packet to the handler's own session. A packet that cannot be
/// written is not sent.
pub fn send_packet(packet: &Packet) -> (r: Option<Action>)
    ensures
        action_view(r) == reply_of(packet@),
{
    match packet.to_line() {
        Some(line) => Some(Action::Reply(line)),
        None => None,
    }
}

/// The recipients whose write failed, in their order: `sent` says of each
/// recipient whether its write succeeded.
pub open spec fn failed_recipients(recipients: Seq<ClientView>, sent: Seq<bool>) -> Seq<ClientView>
    recommends
        recipients.len() == sent.len(),
    decreases recipients.len(),
{
    if recipients.len() == 0 {
        Seq::empty()
    } else {
        let before = failed_recipients(recipients.drop_last(), sent.drop_last());
        if sent.last() {
            before
        } else {
            before.push(recipients.last())
        }
    }
}

/// Writes a line to each recipient by means of `send`, which says whether
/// its write succeeded, and returns the recipients whose write failed.
///
/// Each recipient gets its own call of `send`, in the order of the
/// recipients, whatever became of the calls before it: a recipient that
/// cannot be reached takes the line from no other, and the failure is
/// reported, not raised.
pub fn deliver<F: Fn(&Client, &str) -> bool>(
    line: &str,
    recipients: &Vec<Client>,
    send: F,
) -> (failed: Vec<Client>)
    requires
        forall|i: int| 0 <= i < recipients.len() ==> call_requires(send, (&recipients[i], line)),
    ensures
        exists|sent: Seq<bool>|
            {
                &&& sent.len() == recipients.len()
                &&& forall|i: int|
                    0 <= i < recipients.len() ==> call_ensures(
                        send,
                        (&recipients[i], line),
                        #[trigger] sent[i],
                    )
                &&& client_views(failed@) == failed_recipients(client_views(recipients@), sent)
            },
{
    let mut failed: Vec<Client> = Vec::new();
    let ghost mut sent: Seq<bool> = Seq::empty();
    let mut i: usize = 0;
    while i < recipients.len()
        invariant
            0 <= i <= recipients.len(),
            sent.len() == i,
            forall|k: int|
                0 <= k < recipients.len() ==> call_requires(send, (&recipients[k], line)),
            forall|k: int|
                0 <= k < i ==> call_ensures(send, (&recipients[k], line), #[trigger] sent[k]),
            client_views(failed@) == failed_recipients(
                client_views(recipients@).take(i as int),
                sent,
            ),
        decreases recipients.len() - i,
    {
        let ghost before = failed@;
        let ok = send(&recipients[i], line);
        if !ok {
            failed.push(recipients[i].clone());
        }
        proof {
            let views = client_views(recipients@);
            let old_sent = sent;
            sent = sent.push(ok);
            assert(sent.drop_last() =~= old_sent);
            assert(views.take(i + 1).drop_last() =~= views.take(i as int));
            assert(views.take(i + 1).last() == recipients@[i as int]@);
            if !ok {
                assert(client_views(failed@) =~= client_views(before).push(
                    recipients@[i as int]@,
                ));
            }
        }
        i += 1;
    }
    proof {
        assert(client_views(recipients@).take(i as int) =~= client_views(recipients@));
    }
    failed
}

} // verus!
