//! A line-oriented chat protocol: the packets that travel between a client
//! and the server, the server's registry of connected clients and the
//! decisions of its connection handler, and the client's line editor.
//!
//! Everything here works on plain values. Sockets, threads and the terminal
//! belong to the program around this library: it reads lines and key
//! presses, hands them in, and carries out the actions that come back.

use vstd::prelude::*;
use vstd::string::*;

pub mod client;
pub mod json;
pub mod server;
pub mod text;

use crate::json::{json_document, json_string, lookup, member, parse, quote, Field, FieldView};
use crate::text::{has_char, str_eq, trim, trimmed};

verus! {

/// The kinds of packet that travel between a chat client and the server.
#[derive(Debug, Clone, Copy, PartialEq, Eq, Structural)]
pub enum PacketType {
    NicknameRequest,
    NicknameResponse,
    Message,
    Join,
    Leave,
    InfoRequest,
    Connection,
    Error,
}

/// Why a packet could not be written or read.
#[derive(Debug, Clone, Copy, PartialEq, Eq, Structural)]
pub enum PacketError {
    /// The packet has no JSON text.
    Serialization,
    /// The line is not one JSON object that describes a packet.
    Malformed,
}

/// One framed protocol message.
#[derive(Debug)]
pub struct Packet {
    pub packet_type: PacketType,
    pub content: String,
    pub nickname: Option<String>,
}

/// A packet with its texts as sequences of characters.
pub struct PacketView {
    pub kind: PacketType,
    pub content: Seq<char>,
    pub nickname: Option<Seq<char>>,
}

impl View for Packet {
    type V = PacketView;

    open spec fn view(&self) -> PacketView {
        PacketView {
            kind: self.packet_type,
            content: self.content@,
            nickname: match self.nickname {
                Some(n) => Some(n@),
                None => None,
            },
        }
    }
}

/// Whether a text holds no line feed, so that it fits on one line of the
/// wire.
pub open spec fn single_line(s: Seq<char>) -> bool {
    !s.contains('\n')
}

impl PacketType {
    /// The tag that stands for this kind on the wire.
    pub open spec fn name(self) -> Seq<char> {
        match self {
            PacketType::NicknameRequest => "NicknameRequest"@,
            PacketType::NicknameResponse => "NicknameResponse"@,
            PacketType::Message => "Message"@,
            PacketType::Join => "Join"@,
            PacketType::Leave => "Leave"@,
            PacketType::InfoRequest => "InfoRequest"@,
            PacketType::Connection => "Connection"@,
            PacketType::Error => "Error"@,
        }
    }

    /// The kind that a tag stands for, if any.
    pub open spec fn of_name(name: Seq<char>) -> Option<PacketType> {
        if name == "NicknameRequest"@ {
            Some(PacketType::NicknameRequest)
        } else if name == "NicknameResponse"@ {
            Some(PacketType::NicknameResponse)
        } else if name == "Message"@ {
            Some(PacketType::Message)
        } else if name == "Join"@ {
            Some(PacketType::Join)
        } else if name == "Leave"@ {
            Some(PacketType::Leave)
        } else if name == "InfoRequest"@ {
            Some(PacketType::InfoRequest)
        } else if name == "Connection"@ {
            Some(PacketType::Connection)
        } else if name == "Error"@ {
            Some(PacketType::Error)
        } else {
            None
        }
    }

    /// Whether a packet of this kind names the user it speaks of.
    pub open spec fn carries_nickname(self) -> bool {
        self == PacketType::Message || self == PacketType::Join || self == PacketType::Leave
    }

    /// The tag that stands for this kind on the wire.
    pub fn as_str(&self) -> (r: &'static str)
        ensures
            r@ == self.name(),
    {
        match self {
            PacketType::NicknameRequest => "NicknameRequest",
            PacketType::NicknameResponse => "NicknameResponse",
            PacketType::Message => "Message",
            PacketType::Join => "Join",
            PacketType::Leave => "Leave",
            PacketType::InfoRequest => "InfoRequest",
            PacketType::Connection => "Connection",
            PacketType::Error => "Error",
        }
    }

    /// The kind that a tag stands for; `None` for any other text.
    pub fn from_name(name: &str) -> (r: Option<PacketType>)
        ensures
            r == PacketType::of_name(name@),
    {
        if str_eq(name, "NicknameRequest") {
            Some(PacketType::NicknameRequest)
        } else if str_eq(name, "NicknameResponse") {
            Some(PacketType::NicknameResponse)
        } else if str_eq(name, "Message") {
            Some(PacketType::Message)
        } else if str_eq(name, "Join") {
            Some(PacketType::Join)
        } else if str_eq(name, "Leave") {
            Some(PacketType::Leave)
        } else if str_eq(name, "InfoRequest") {
            Some(PacketType::InfoRequest)
        } else if str_eq(name, "Connection") {
            Some(PacketType::Connection)
        } else if str_eq(name, "Error") {
            Some(PacketType::Error)
        } else {
            None
        }
    }
}

/// Every kind is found again under its own tag: no two kinds share one.
pub proof fn lemma_kind_names_distinct(kind: PacketType)
    ensures
        PacketType::of_name(kind.name()) == Some(kind),
{
    reveal_strlit("NicknameRequest");
    reveal_strlit("NicknameResponse");
    reveal_strlit("Message");
    reveal_strlit("Join");
    reveal_strlit("Leave");
    reveal_strlit("InfoRequest");
    reveal_strlit("Connection");
    reveal_strlit("Error");
    assert("NicknameRequest"@.len() == 15);
    assert("NicknameResponse"@.len() == 16);
    assert("Message"@.len() == 7);
    assert("Join"@.len() == 4);
    assert("Leave"@.len() == 5);
    assert("InfoRequest"@.len() == 11);
    assert("Connection"@.len() == 10);
    assert("Error"@.len() == 5);
    assert("Leave"@[0] == 'L');
    assert("Error"@[0] == 'E');
}

/// The JSON text of a kind: its tag between double quotes.
pub open spec fn kind_json(kind: PacketType) -> Seq<char> {
    "\""@ + kind.name() + "\""@
}

/// The JSON text of a nickname: `null` where there is none, else the
/// nickname as a JSON string literal.
pub open spec fn nickname_json(nickname: Option<Seq<char>>) -> Option<Seq<char>> {
    match nickname {
        None => Some("null"@),
        Some(n) => json_string(n),
    }
}

/// The line that stands for a packet on the wire, without its line feed: one
/// JSON object with the members `kind`, `content` and `nickname`, in this
/// order. `None` where one of the texts has no JSON string literal.
pub open spec fn packet_json(p: PacketView) -> Option<Seq<char>> {
    match (json_string(p.content), nickname_json(p.nickname)) {
        (Some(content), Some(nickname)) => Some(
            "{\"kind\":"@ + kind_json(p.kind) + ",\"content\":"@ + content + ",\"nickname\":"@
                + nickname + "}"@,
        ),
        _ => None,
    }
}

/// What is written for a packet: its JSON text and a line feed. `None`
/// where the packet has no JSON text.
pub open spec fn packet_line(p: PacketView) -> Option<Seq<char>> {
    match packet_json(p) {
        Some(json) => Some(json + "\n"@),
        None => None,
    }
}

/// The packet that the members `kind`, `content` and `nickname` of a JSON
/// object describe. `kind` must be a string that is the tag of a kind,
/// `content` a string, and `nickname` a string, `null` or absent.
pub open spec fn packet_of_members(
    kind: Option<FieldView>,
    content: Option<FieldView>,
    nickname: Option<FieldView>,
) -> Option<PacketView> {
    match (kind, content) {
        (Some(FieldView::Text(tag)), Some(FieldView::Text(text))) => match (
            PacketType::of_name(tag),
            nickname,
        ) {
            (Some(k), None) => Some(PacketView { kind: k, content: text, nickname: None }),
            (Some(k), Some(FieldView::Null)) => Some(
                PacketView { kind: k, content: text, nickname: None },
            ),
            (Some(k), Some(FieldView::Text(n))) => Some(
                PacketView { kind: k, content: text, nickname: Some(n) },
            ),
            _ => None,
        },
        _ => None,
    }
}

/// The packet that a line of the wire describes: the line, without the
/// white space around it, is not empty, does not span lines, and is a JSON
/// document whose members describe a packet.
pub open spec fn packet_of_line(line: Seq<char>) -> Option<PacketView> {
    let text = trimmed(line);
    if text.len() == 0 || !single_line(text) {
        None
    } else {
        match json_document(text) {
            Some(members) => packet_of_members(
                member(members, "kind"@),
                member(members, "content"@),
                member(members, "nickname"@),
            ),
            None => None,
        }
    }
}

/// The line that a log shows for a packet.
pub open spec fn log_line(p: PacketView) -> Seq<char> {
    let head = "["@ + p.kind.name();
    match p.kind {
        PacketType::NicknameRequest => head + "] : "@ + p.content,
        PacketType::NicknameResponse => head + "] : "@ + p.content,
        PacketType::Message => head + "] "@ + match p.nickname {
            Some(n) => n,
            None => "Unknown"@,
        } + " : "@ + p.content,
        _ => head + "] "@ + p.content,
    }
}

/// The member under which a packet writes its nickname.
pub open spec fn nickname_member(nickname: Option<Seq<char>>) -> FieldView {
    match nickname {
        Some(n) => FieldView::Text(n),
        None => FieldView::Null,
    }
}

impl Clone for Packet {
    fn clone(&self) -> (r: Self)
        ensures
            r@ == self@,
    {
        Packet {
            packet_type: self.packet_type,
            content: self.content.clone(),
            nickname: match &self.nickname {
                Some(n) => Some(n.clone()),
                None => None,
            },
        }
    }
}

impl Packet {
    /// Whether the nickname is there exactly when the kind carries one.
    pub open spec fn well_formed(self) -> bool {
        self.nickname is Some <==> self.packet_type.carries_nickname()
    }

    pub fn new(packet_type: PacketType, content: String, nickname: Option<String>) -> (r: Self)
        ensures
            r.packet_type == packet_type,
            r.content == content,
            r.nickname == nickname,
    {
        Self { packet_type, content, nickname }
    }

    /// The server's prompt for a nickname.
    pub fn nickname_request() -> (r: Self)
        ensures
            r.packet_type == PacketType::NicknameRequest,
            r.content@ == "Please enter your nickname: "@,
            r.nickname is None,
            r.well_formed(),
    {
        Self::new(
            PacketType::NicknameRequest,
            String::from_str("Please enter your nickname: "),
            None,
        )
    }

    /// The client's answer to the prompt; the nickname travels as the content.
    pub fn nickname_response(nickname: String) -> (r: Self)
        ensures
            r.packet_type == PacketType::NicknameResponse,
            r.content == nickname,
            r.nickname is None,
            r.well_formed(),
    {
        Self::new(PacketType::NicknameResponse, nickname, None)
    }

    /// A chat message of the user `nickname`.
    pub fn message(content: String, nickname: String) -> (r: Self)
        ensures
            r.packet_type == PacketType::Message,
            r.content == content,
            r.nickname == Some(nickname),
            r.well_formed(),
    {
        Self::new(PacketType::Message, content, Some(nickname))
    }

    /// The notice that `nickname` has joined.
    pub fn join(nickname: String) -> (r: Self)
        ensures
            r.packet_type == PacketType::Join,
            r.content@ == "*** "@ + nickname@ + " joined ***"@,
            r.nickname == Some(nickname),
            r.well_formed(),
    {
        let mut content = String::from_str("*** ");
        content.append(nickname.as_str());
        content.append(" joined ***");
        Self::new(PacketType::Join, content, Some(nickname))
    }

    /// The notice that `nickname` has left.
    pub fn leave(nickname: String) -> (r: Self)
        ensures
            r.packet_type == PacketType::Leave,
            r.content@ == "*** "@ + nickname@ + " left ***"@,
            r.nickname == Some(nickname),
            r.well_formed(),
    {
        let mut content = String::from_str("*** ");
        content.append(nickname.as_str());
        content.append(" left ***");
        Self::new(PacketType::Leave, content, Some(nickname))
    }

    /// A question to the server; `info` says what is asked.
    pub fn info_request(info: String) -> (r: Self)
        ensures
            r.packet_type == PacketType::InfoRequest,
            r.content == info,
            r.nickname is None,
            r.well_formed(),
    {
        Self::new(PacketType::InfoRequest, info, None)
    }

    /// The server's answer to the question `connection`: the number of
    /// active sessions, in decimal.
    pub fn connection(count: usize) -> (r: Self)
        ensures
            r.packet_type == PacketType::Connection,
            r.content@ == crate::text::decimal(count as nat),
            r.nickname is None,
            r.well_formed(),
    {
        Self::new(PacketType::Connection, crate::text::decimal_text(count), None)
    }

    /// An error report.
    pub fn error(content: String) -> (r: Self)
        ensures
            r.packet_type == PacketType::Error,
            r.content == content,
            r.nickname is None,
            r.well_formed(),
    {
        Self::new(PacketType::Error, content, None)
    }

    /// Writes the packet as one line of JSON, without a line feed at its end
    /// or anywhere in it.
    pub fn to_json(&self) -> (r: Result<String, PacketError>)
        ensures
            match r {
                Ok(line) => packet_json(self@) == Some(line@),
                Err(e) => e == PacketError::Serialization && packet_json(self@) is None,
            },
            r matches Ok(line) ==> single_line(line@),
    {
        let content = match quote(self.content.as_str()) {
            Ok(literal) => literal,
            Err(_) => {
                return Err(PacketError::Serialization);
            },
        };
        let nickname = match &self.nickname {
            None => {
                proof {
                    lemma_markup_single_line();
                }
                String::from_str("null")
            },
            Some(n) => match quote(n.as_str()) {
                Ok(literal) => literal,
                Err(_) => {
                    return Err(PacketError::Serialization);
                },
            },
        };
        let mut line = String::from_str("{\"kind\":");
        line.append("\"");
        line.append(self.packet_type.as_str());
        line.append("\"");
        line.append(",\"content\":");
        line.append(content.as_str());
        line.append(",\"nickname\":");
        line.append(nickname.as_str());
        line.append("}");
        proof {
            let expected = "{\"kind\":"@ + kind_json(self.packet_type) + ",\"content\":"@
                + content@ + ",\"nickname\":"@ + nickname@ + "}"@;
            assert(line@ =~= expected);
            lemma_markup_single_line();
            lemma_kind_names_single_line(self.packet_type);
        }
        Ok(line)
    }

    /// The line that is written for the packet: its JSON text, then a line
    /// feed. `None` where the packet has no JSON text.
    pub fn to_line(&self) -> (r: Option<String>)
        ensures
            match r {
                Some(line) => packet_line(self@) == Some(line@),
                None => packet_line(self@) is None,
            },
    {
        match self.to_json() {
            Ok(json) => {
                let mut line = json;
                line.append("\n");
                Some(line)
            },
            Err(_) => None,
        }
    }

    /// The packet that three members of a JSON object describe.
    pub fn from_members(kind: Option<Field>, content: Option<Field>, nickname: Option<Field>) -> (r:
        Result<Self, PacketError>)
        ensures
            match r {
                Ok(p) => packet_of_members(
                    crate::json::field_view(kind),
                    crate::json::field_view(content),
                    crate::json::field_view(nickname),
                ) == Some(p@),
                Err(e) => e == PacketError::Malformed && packet_of_members(
                    crate::json::field_view(kind),
                    crate::json::field_view(content),
                    crate::json::field_view(nickname),
                ) is None,
            },
    {
        let packet_type = match kind {
            Some(Field::Text(tag)) => match PacketType::from_name(tag.as_str()) {
                Some(k) => k,
                None => {
                    return Err(PacketError::Malformed);
                },
            },
            _ => {
                return Err(PacketError::Malformed);
            },
        };
        let text = match content {
            Some(Field::Text(text)) => text,
            _ => {
                return Err(PacketError::Malformed);
            },
        };
        let name = match nickname {
            None => None,
            Some(Field::Null) => None,
            Some(Field::Text(n)) => Some(n),
            Some(Field::Other) => {
                return Err(PacketError::Malformed);
            },
        };
        Ok(Self::new(packet_type, text, name))
    }

    /// The line that a log shows for the packet: its kind between square
    /// brackets, then its content, behind the sender's nickname for a
    /// message (`Unknown` where the message has none).
    pub fn log(&self) -> (line: String)
        ensures
            line@ == log_line(self@),
    {
        let mut line = String::from_str("[");
        line.append(self.packet_type.as_str());
        match self.packet_type {
            PacketType::NicknameRequest => {
                line.append("] : ");
            },
            PacketType::NicknameResponse => {
                line.append("] : ");
            },
            PacketType::Message => {
                line.append("] ");
                match &self.nickname {
                    Some(n) => {
                        line.append(n.as_str());
                    },
                    None => {
                        line.append("Unknown");
                    },
                }
                line.append(" : ");
            },
            _ => {
                line.append("] ");
            },
        }
        line.append(self.content.as_str());
        assert(line@ =~= log_line(self@));
        line
    }

    /// Reads a packet from one line of the wire. White space around the
    /// line is ignored.
    pub fn from_json(json: &str) -> (r: Result<Self, PacketError>)
        ensures
            match r {
                Ok(p) => packet_of_line(json@) == Some(p@),
                Err(e) => e == PacketError::Malformed && packet_of_line(json@) is None,
            },
    {
        let text = trim(json);
        if text.is_empty() || has_char(text, '\n') {
            return Err(PacketError::Malformed);
        }
        match parse(text) {
            Ok(doc) => Self::from_members(
                lookup(&doc, "kind"),
                lookup(&doc, "content"),
                lookup(&doc, "nickname"),
            ),
            Err(_) => Err(PacketError::Malformed),
        }
    }
}

/// The fixed pieces of a packet's line hold no line feed.
proof fn lemma_markup_single_line()
    ensures
        single_line("null"@),
        single_line("{\"kind\":"@),
        single_line("\""@),
        single_line(",\"content\":"@),
        single_line(",\"nickname\":"@),
        single_line("}"@),
{
    reveal_strlit("null");
    reveal_strlit("{\"kind\":");
    reveal_strlit("\"");
    reveal_strlit(",\"content\":");
    reveal_strlit(",\"nickname\":");
    reveal_strlit("}");
}

/// No tag of a kind holds a line feed.
proof fn lemma_kind_names_single_line(kind: PacketType)
    ensures
        single_line(kind.name()),
{
    reveal_strlit("NicknameRequest");
    reveal_strlit("NicknameResponse");
    reveal_strlit("Message");
    reveal_strlit("Join");
    reveal_strlit("Leave");
    reveal_strlit("InfoRequest");
    reveal_strlit("Connection");
    reveal_strlit("Error");
}

/// A packet is read back from its own line wherever the line is read as it
/// was written: the line has no white space at its ends and no line feed,
/// and the document read from it holds the three members of the packet.
pub proof fn lemma_read_back(p: PacketView, line: Seq<char>, members: Map<Seq<char>, FieldView>)
    ensures
        ({
            &&& packet_json(p) == Some(line)
            &&& trimmed(line) == line
            &&& single_line(line)
            &&& json_document(line) == Some(members)
            &&& member(members, "kind"@) == Some(FieldView::Text(p.kind.name()))
            &&& member(members, "content"@) == Some(FieldView::Text(p.content))
            &&& member(members, "nickname"@) == Some(nickname_member(p.nickname))
        }) ==> packet_of_line(line) == Some(p),
{
    reveal_strlit("{\"kind\":");
    lemma_members_round_trip(p);
}

/// Reading back the members that a packet writes gives the packet again:
/// its kind's tag as a string under `kind`, its content as a string under
/// `content`, and its nickname under `nickname`, as a string or as `null`.
pub proof fn lemma_members_round_trip(p: PacketView)
    ensures
        packet_of_members(
            Some(FieldView::Text(p.kind.name())),
            Some(FieldView::Text(p.content)),
            Some(nickname_member(p.nickname)),
        ) == Some(p),
{
    lemma_kind_names_distinct(p.kind);
}

} // verus!
