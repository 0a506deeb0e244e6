//! What the client makes of the command line and of the lines that the
//! server sends.

use vstd::prelude::*;
use vstd::string::*;

use crate::text::{after_first, before_first, has_char, split_at_first};
use crate::{packet_of_line, Packet, PacketType, PacketView};

verus! {

/// The address that the arguments of the command line ask for, before it is
/// taken apart: the first argument behind the program's name, with the port
/// 8080 where it names none; `localhost:8080` where there is no argument.
pub open spec fn requested_address(args: Seq<Seq<char>>) -> Seq<char> {
    if args.len() >= 2 {
        if args[1].contains(':') {
            args[1]
        } else {
            args[1] + ":8080"@
        }
    } else {
        "localhost:8080"@
    }
}

/// The address to connect to: the host and the port of the requested
/// address, which are what stands before its first colon and what stands
/// between its first and its second.
pub open spec fn connection_address(args: Seq<Seq<char>>) -> Seq<char> {
    let requested = requested_address(args);
    before_first(requested, ':') + ":"@ + before_first(after_first(requested, ':'), ':')
}

/// The texts of a sequence of strings.
pub open spec fn arg_views(args: Seq<String>) -> Seq<Seq<char>> {
    args.map_values(|a: String| a@)
}

/// The address to connect to, from the arguments of the command line, the
/// program's name first.
pub fn get_connection_address(args: &Vec<String>) -> (address: String)
    ensures
        address@ == connection_address(arg_views(args@)),
{
    let iport = if args.len() >= 2 {
        assert(arg_views(args@)[1] == args@[1]@);
        if has_char(args[1].as_str(), ':') {
            args[1].clone()
        } else {
            let mut with_port = args[1].clone();
            with_port.append(":8080");
            with_port
        }
    } else {
        String::from_str("localhost:8080")
    };
    let (ip, rest) = split_at_first(iport.as_str(), ':');
    let (port, _) = split_at_first(rest, ':');
    let mut address = String::from_str(ip);
    address.append(":");
    address.append(port);
    address
}

/// What the client shows of a packet, if anything: the content of a prompt
/// or of a notice, a message behind its sender's nickname, and the answer to
/// a question or an error behind a word that says what it is.
pub open spec fn display_of(p: PacketView) -> Option<Seq<char>> {
    match p.kind {
        PacketType::NicknameRequest => Some(p.content),
        PacketType::NicknameResponse => None,
        PacketType::Message => match p.nickname {
            Some(nickname) => Some(nickname + " : "@ + p.content),
            None => None,
        },
        PacketType::Join => Some(p.content),
        PacketType::Leave => Some(p.content),
        PacketType::InfoRequest => None,
        PacketType::Connection => Some("Connected clients: "@ + p.content),
        PacketType::Error => Some("Error: "@ + p.content),
    }
}

/// What the client shows of a line that it received. A line that is no
/// packet shows nothing.
pub open spec fn display_of_line(line: Seq<char>) -> Option<Seq<char>> {
    match packet_of_line(line) {
        Some(p) => display_of(p),
        None => None,
    }
}

/// The text that the client shows for a packet, if any.
pub fn display_text(packet: &Packet) -> (r: Option<String>)
    ensures
        match r {
            Some(text) => display_of(packet@) == Some(text@),
            None => display_of(packet@) is None,
        },
{
    match packet.packet_type {
        PacketType::NicknameRequest => Some(packet.content.clone()),
        PacketType::NicknameResponse => None,
        PacketType::Message => match &packet.nickname {
            Some(nickname) => {
                let mut text = nickname.clone();
                text.append(" : ");
                text.append(packet.content.as_str());
                Some(text)
            },
            None => None,
        },
        PacketType::Join => Some(packet.content.clone()),
        PacketType::Leave => Some(packet.content.clone()),
        PacketType::InfoRequest => None,
        PacketType::Connection => {
            let mut text = String::from_str("Connected clients: ");
            text.append(packet.content.as_str());
            Some(text)
        },
        PacketType::Error => {
            let mut text = String::from_str("Error: ");
            text.append(packet.content.as_str());
            Some(text)
        },
    }
}

/// The text that the client shows for a line that it received, if any.
pub fn receive_line(line: &str) -> (r: Option<String>)
    ensures
        match r {
            Some(text) => display_of_line(line@) == Some(text@),
            None => display_of_line(line@) is None,
        },
{
    match Packet::from_json(line) {
        Ok(packet) => display_text(&packet),
        Err(_) => None,
    }
}

} // verus!
