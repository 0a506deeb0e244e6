//! What the server does with a line that an active session has sent.

use vstd::prelude::*;
use vstd::string::*;

use crate::server::client_manager::{get_client_count, ClientRegistry, ClientView};
use crate::server::network::{
    action_view, broadcast, broadcast_of, reply_of, send_packet, Action, ActionView,
};
use crate::text::{decimal, str_eq};
use crate::{packet_of_line, Packet, PacketType, PacketView};

verus! {

/// The message that the server relays for a session: the content that the
/// session sent, under the nickname that the server holds for it.
pub open spec fn relayed_message(content: Seq<char>, nickname: Seq<char>) -> PacketView {
    PacketView { kind: PacketType::Message, content, nickname: Some(nickname) }
}

/// The answer to the question `connection`: the number of clients.
pub open spec fn connection_view(count: nat) -> PacketView {
    PacketView { kind: PacketType::Connection, content: decimal(count), nickname: None }
}

/// What follows from a message packet: it goes to every client, stamped
/// with the sender's nickname.
pub open spec fn message_action(
    clients: Seq<ClientView>,
    packet: PacketView,
    nickname: Seq<char>,
) -> Option<ActionView> {
    broadcast_of(clients, relayed_message(packet.content, nickname))
}

/// What follows from an information request: the question `connection` is
/// answered to the asking session alone, any other is ignored.
pub open spec fn info_action(clients: Seq<ClientView>, packet: PacketView) -> Option<ActionView> {
    if packet.content == "connection"@ {
        reply_of(connection_view(clients.len()))
    } else {
        None
    }
}

/// What follows from a packet of an active session.
pub open spec fn packet_action(
    clients: Seq<ClientView>,
    packet: PacketView,
    nickname: Seq<char>,
) -> Option<ActionView> {
    match packet.kind {
        PacketType::Message => message_action(clients, packet, nickname),
        PacketType::InfoRequest => info_action(clients, packet),
        _ => None,
    }
}

/// What follows from a line of an active session. A line that is no packet
/// is dropped.
pub open spec fn line_action(
    clients: Seq<ClientView>,
    nickname: Seq<char>,
    line: Seq<char>,
) -> Option<ActionView> {
    match packet_of_line(line) {
        Some(packet) => packet_action(clients, packet, nickname),
        None => None,
    }
}

/// Handles one line that the session `nickname` has sent.
pub fn handle_client_messages(clients: &ClientRegistry, nickname: &str, line: &str) -> (r: Option<
    Action,
>)
    ensures
        action_view(r) == line_action(clients@, nickname@, line@),
{
    match Packet::from_json(line) {
        Ok(packet) => match packet.packet_type {
            PacketType::Message => handle_message(clients, &packet, nickname),
            PacketType::InfoRequest => handle_info_request(clients, &packet),
            _ => None,
        },
        Err(_) => None,
    }
}

/// Answers an information request.
pub fn handle_info_request(clients: &ClientRegistry, packet: &Packet) -> (r: Option<Action>)
    ensures
        action_view(r) == info_action(clients@, packet@),
{
    if str_eq(packet.content.as_str(), "connection") {
        let count = get_client_count(clients);
        let connection_packet = Packet::connection(count);
        send_packet(&connection_packet)
    } else {
        None
    }
}

/// Relays a message to every client, under the sender's own nickname.
pub fn handle_message(clients: &ClientRegistry, packet: &Packet, nickname: &str) -> (r: Option<
    Action,
>)
    ensures
        action_view(r) == message_action(clients@, packet@, nickname@),
{
    let message_packet = Packet::message(packet.content.clone(), String::from_str(nickname));
    broadcast(clients, &message_packet)
}

} // verus!
