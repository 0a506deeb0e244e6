use lchat::json::Field;
use lchat::{Packet, PacketError, PacketType};

fn same(a: &Packet, b: &Packet) -> bool {
    a.packet_type == b.packet_type && a.content == b.content && a.nickname == b.nickname
}

fn round_trip(p: &Packet) -> Packet {
    let line = p.to_json().unwrap();
    Packet::from_json(&line).unwrap()
}

#[test]
fn new_keeps_its_arguments() {
    let p = Packet::new(PacketType::Error, "oops".to_string(), Some("x".to_string()));
    assert_eq!(p.packet_type, PacketType::Error);
    assert_eq!(p.content, "oops");
    assert_eq!(p.nickname, Some("x".to_string()));
}

#[test]
fn constructors_with_nickname() {
    let m = Packet::message("hi".to_string(), "alice".to_string());
    assert_eq!(m.packet_type, PacketType::Message);
    assert_eq!(m.content, "hi");
    assert_eq!(m.nickname.as_deref(), Some("alice"));

    let j = Packet::join("alice".to_string());
    assert_eq!(j.packet_type, PacketType::Join);
    assert_eq!(j.content, "*** alice joined ***");
    assert_eq!(j.nickname.as_deref(), Some("alice"));

    let l = Packet::leave("alice".to_string());
    assert_eq!(l.packet_type, PacketType::Leave);
    assert_eq!(l.content, "*** alice left ***");
    assert_eq!(l.nickname.as_deref(), Some("alice"));
}

#[test]
fn constructors_without_nickname() {
    let r = Packet::nickname_request();
    assert_eq!(r.packet_type, PacketType::NicknameRequest);
    assert_eq!(r.content, "Please enter your nickname: ");
    assert!(r.nickname.is_none());

    let a = Packet::nickname_response("bob".to_string());
    assert_eq!(a.packet_type, PacketType::NicknameResponse);
    assert_eq!(a.content, "bob");
    assert!(a.nickname.is_none());

    let i = Packet::info_request("connection".to_string());
    assert_eq!(i.packet_type, PacketType::InfoRequest);
    assert_eq!(i.content, "connection");
    assert!(i.nickname.is_none());

    let e = Packet::error("bad".to_string());
    assert_eq!(e.packet_type, PacketType::Error);
    assert_eq!(e.content, "bad");
    assert!(e.nickname.is_none());
}

#[test]
fn connection_holds_the_count_in_decimal() {
    assert_eq!(Packet::connection(0).content, "0");
    assert_eq!(Packet::connection(3).content, "3");
    assert_eq!(Packet::connection(10).content, "10");
    assert_eq!(Packet::connection(1234567).content, "1234567");
    assert_eq!(Packet::connection(usize::MAX).content, usize::MAX.to_string());
    assert_eq!(Packet::connection(3).packet_type, PacketType::Connection);
    assert!(Packet::connection(3).nickname.is_none());
}

#[test]
fn to_json_writes_the_members_in_order() {
    assert_eq!(
        Packet::nickname_request().to_json().unwrap(),
        r#"{"kind":"NicknameRequest","content":"Please enter your nickname: ","nickname":null}"#
    );
    assert_eq!(
        Packet::nickname_response("alice".to_string()).to_json().unwrap(),
        r#"{"kind":"NicknameResponse","content":"alice","nickname":null}"#
    );
    assert_eq!(
        Packet::join("alice".to_string()).to_json().unwrap(),
        r#"{"kind":"Join","content":"*** alice joined ***","nickname":"alice"}"#
    );
    assert_eq!(
        Packet::message("hi".to_string(), "alice".to_string()).to_json().unwrap(),
        r#"{"kind":"Message","content":"hi","nickname":"alice"}"#
    );
    assert_eq!(
        Packet::leave("alice".to_string()).to_json().unwrap(),
        r#"{"kind":"Leave","content":"*** alice left ***","nickname":"alice"}"#
    );
    assert_eq!(
        Packet::info_request("connection".to_string()).to_json().unwrap(),
        r#"{"kind":"InfoRequest","content":"connection","nickname":null}"#
    );
    assert_eq!(
        Packet::connection(3).to_json().unwrap(),
        r#"{"kind":"Connection","content":"3","nickname":null}"#
    );
    assert_eq!(
        Packet::error("bad".to_string()).to_json().unwrap(),
        r#"{"kind":"Error","content":"bad","nickname":null}"#
    );
}

#[test]
fn to_json_escapes_what_json_asks_for() {
    let p = Packet::message("say \"hi\" \\ now".to_string(), "a\tb".to_string());
    assert_eq!(
        p.to_json().unwrap(),
        r#"{"kind":"Message","content":"say \"hi\" \\ now","nickname":"a\tb"}"#
    );
}

#[test]
fn to_json_stays_on_one_line() {
    let p = Packet::message("first\nsecond\r\nthird".to_string(), "al\nice".to_string());
    let line = p.to_json().unwrap();
    assert!(!line.contains('\n'));
    assert_eq!(
        line,
        r#"{"kind":"Message","content":"first\nsecond\r\nthird","nickname":"al\nice"}"#
    );
}

#[test]
fn to_json_writes_a_packet_without_its_nickname() {
    let p = Packet::new(PacketType::Message, "hi".to_string(), None);
    assert_eq!(p.to_json().unwrap(), r#"{"kind":"Message","content":"hi","nickname":null}"#);
}

#[test]
fn from_json_reads_each_kind() {
    let kinds = [
        ("NicknameRequest", PacketType::NicknameRequest),
        ("NicknameResponse", PacketType::NicknameResponse),
        ("Message", PacketType::Message),
        ("Join", PacketType::Join),
        ("Leave", PacketType::Leave),
        ("InfoRequest", PacketType::InfoRequest),
        ("Connection", PacketType::Connection),
        ("Error", PacketType::Error),
    ];
    for (tag, kind) in kinds {
        let line = format!(r#"{{"kind":"{}","content":"c","nickname":"n"}}"#, tag);
        let p = Packet::from_json(&line).unwrap();
        assert_eq!(p.packet_type, kind);
        assert_eq!(p.content, "c");
        assert_eq!(p.nickname.as_deref(), Some("n"));
    }
}

#[test]
fn from_json_takes_a_nickname_that_is_null_or_absent() {
    let p = Packet::from_json(r#"{"kind":"Message","content":"hi","nickname":null}"#).unwrap();
    assert_eq!(p.packet_type, PacketType::Message);
    assert_eq!(p.content, "hi");
    assert!(p.nickname.is_none());

    let q = Packet::from_json(r#"{"kind":"Message","content":"hi"}"#).unwrap();
    assert_eq!(q.packet_type, PacketType::Message);
    assert_eq!(q.content, "hi");
    assert!(q.nickname.is_none());
}

#[test]
fn from_json_ignores_white_space_around_the_line() {
    let p = Packet::from_json("  \t{\"kind\":\"Join\",\"content\":\"x\",\"nickname\":\"a\"} \r\n")
        .unwrap();
    assert_eq!(p.packet_type, PacketType::Join);
    assert_eq!(p.content, "x");
    assert_eq!(p.nickname.as_deref(), Some("a"));
}

#[test]
fn from_json_takes_members_in_any_order_and_ignores_others() {
    let p = Packet::from_json(
        r#"{"extra":[1,2],"nickname":"a","content":"x","kind":"Leave","more":{"k":1}}"#,
    )
    .unwrap();
    assert_eq!(p.packet_type, PacketType::Leave);
    assert_eq!(p.content, "x");
    assert_eq!(p.nickname.as_deref(), Some("a"));
}

#[test]
fn from_json_resolves_escapes() {
    let p = Packet::from_json(r#"{"kind":"Message","content":"a\nb é \"q\"","nickname":null}"#)
        .unwrap();
    assert_eq!(p.content, "a\nb \u{e9} \"q\"");
}

#[test]
fn from_json_rejects_an_empty_line() {
    assert_eq!(Packet::from_json("").err(), Some(PacketError::Malformed));
    assert_eq!(Packet::from_json("   ").err(), Some(PacketError::Malformed));
    assert_eq!(Packet::from_json("\n").err(), Some(PacketError::Malformed));
}

#[test]
fn from_json_rejects_text_that_is_not_json() {
    assert_eq!(Packet::from_json("hello").err(), Some(PacketError::Malformed));
    assert_eq!(Packet::from_json("{\"kind\":").err(), Some(PacketError::Malformed));
    assert_eq!(
        Packet::from_json(r#"{"kind":"Message","content":"x"} trailing"#).err(),
        Some(PacketError::Malformed)
    );
}

#[test]
fn from_json_rejects_a_missing_kind() {
    assert_eq!(
        Packet::from_json(r#"{"content":"x","nickname":null}"#).err(),
        Some(PacketError::Malformed)
    );
    assert_eq!(Packet::from_json("{}").err(), Some(PacketError::Malformed));
}

#[test]
fn from_json_rejects_an_unknown_kind() {
    assert_eq!(
        Packet::from_json(r#"{"kind":"Whisper","content":"x","nickname":null}"#).err(),
        Some(PacketError::Malformed)
    );
    assert_eq!(
        Packet::from_json(r#"{"kind":"message","content":"x","nickname":null}"#).err(),
        Some(PacketError::Malformed)
    );
    assert_eq!(
        Packet::from_json(r#"{"kind":7,"content":"x","nickname":null}"#).err(),
        Some(PacketError::Malformed)
    );
    assert_eq!(
        Packet::from_json(r#"{"kind":null,"content":"x","nickname":null}"#).err(),
        Some(PacketError::Malformed)
    );
}

#[test]
fn from_json_rejects_a_content_that_is_no_string() {
    assert_eq!(
        Packet::from_json(r#"{"kind":"Message","nickname":null}"#).err(),
        Some(PacketError::Malformed)
    );
    assert_eq!(
        Packet::from_json(r#"{"kind":"Message","content":null,"nickname":null}"#).err(),
        Some(PacketError::Malformed)
    );
    assert_eq!(
        Packet::from_json(r#"{"kind":"Message","content":12,"nickname":null}"#).err(),
        Some(PacketError::Malformed)
    );
}

#[test]
fn from_json_rejects_a_nickname_of_another_type() {
    assert_eq!(
        Packet::from_json(r#"{"kind":"Message","content":"x","nickname":5}"#).err(),
        Some(PacketError::Malformed)
    );
    assert_eq!(
        Packet::from_json(r#"{"kind":"Message","content":"x","nickname":["a"]}"#).err(),
        Some(PacketError::Malformed)
    );
}

#[test]
fn from_json_rejects_a_document_that_is_no_object() {
    assert_eq!(Packet::from_json(r#"["Message","x",null]"#).err(), Some(PacketError::Malformed));
    assert_eq!(Packet::from_json(r#""Message""#).err(), Some(PacketError::Malformed));
    assert_eq!(Packet::from_json("null").err(), Some(PacketError::Malformed));
    assert_eq!(Packet::from_json("12").err(), Some(PacketError::Malformed));
}

#[test]
fn from_json_rejects_a_payload_that_spans_lines() {
    assert_eq!(
        Packet::from_json("{\"kind\":\"Message\",\n\"content\":\"x\",\"nickname\":null}").err(),
        Some(PacketError::Malformed)
    );
    assert_eq!(
        Packet::from_json(
            "{\"kind\":\"Join\",\"content\":\"x\"}\n{\"kind\":\"Join\",\"content\":\"y\"}"
        )
        .err(),
        Some(PacketError::Malformed)
    );
}

#[test]
fn round_trip_of_every_constructor() {
    let packets = vec![
        Packet::nickname_request(),
        Packet::nickname_response("alice".to_string()),
        Packet::message("hi".to_string(), "alice".to_string()),
        Packet::join("alice".to_string()),
        Packet::leave("alice".to_string()),
        Packet::info_request("connection".to_string()),
        Packet::connection(42),
        Packet::error("bad".to_string()),
    ];
    for p in &packets {
        assert!(same(&round_trip(p), p));
    }
}

#[test]
fn round_trip_of_awkward_texts() {
    let texts = [
        "",
        " ",
        "\n",
        "line one\nline two",
        "tab\there",
        "quote \" and backslash \\",
        "{\"kind\":\"Join\"}",
        "control \u{1} \u{1f} \u{7f}",
        "caf\u{e9} \u{4f60}\u{597d} \u{1f600}",
        "null",
    ];
    for content in texts {
        for nickname in texts {
            let p = Packet::message(content.to_string(), nickname.to_string());
            assert!(same(&round_trip(&p), &p));
        }
        let q = Packet::error(content.to_string());
        assert!(same(&round_trip(&q), &q));
    }
}

#[test]
fn from_members_reads_three_members() {
    let p = Packet::from_members(
        Some(Field::Text("Message".to_string())),
        Some(Field::Text("hi".to_string())),
        Some(Field::Text("alice".to_string())),
    )
    .unwrap();
    assert!(same(&p, &Packet::message("hi".to_string(), "alice".to_string())));

    let q = Packet::from_members(
        Some(Field::Text("InfoRequest".to_string())),
        Some(Field::Text("connection".to_string())),
        Some(Field::Null),
    )
    .unwrap();
    assert!(same(&q, &Packet::info_request("connection".to_string())));

    let r = Packet::from_members(
        Some(Field::Text("Error".to_string())),
        Some(Field::Text("e".to_string())),
        None,
    )
    .unwrap();
    assert!(same(&r, &Packet::error("e".to_string())));
}

#[test]
fn from_members_rejects_what_describes_no_packet() {
    let text = |s: &str| Some(Field::Text(s.to_string()));
    assert_eq!(
        Packet::from_members(None, text("x"), None).err(),
        Some(PacketError::Malformed)
    );
    assert_eq!(
        Packet::from_members(Some(Field::Null), text("x"), None).err(),
        Some(PacketError::Malformed)
    );
    assert_eq!(
        Packet::from_members(Some(Field::Other), text("x"), None).err(),
        Some(PacketError::Malformed)
    );
    assert_eq!(
        Packet::from_members(text("Nope"), text("x"), None).err(),
        Some(PacketError::Malformed)
    );
    assert_eq!(
        Packet::from_members(text("Join"), None, None).err(),
        Some(PacketError::Malformed)
    );
    assert_eq!(
        Packet::from_members(text("Join"), Some(Field::Null), None).err(),
        Some(PacketError::Malformed)
    );
    assert_eq!(
        Packet::from_members(text("Join"), Some(Field::Other), None).err(),
        Some(PacketError::Malformed)
    );
    assert_eq!(
        Packet::from_members(text("Join"), text("x"), Some(Field::Other)).err(),
        Some(PacketError::Malformed)
    );
}

#[test]
fn kinds_and_their_tags() {
    let kinds = [
        (PacketType::NicknameRequest, "NicknameRequest"),
        (PacketType::NicknameResponse, "NicknameResponse"),
        (PacketType::Message, "Message"),
        (PacketType::Join, "Join"),
        (PacketType::Leave, "Leave"),
        (PacketType::InfoRequest, "InfoRequest"),
        (PacketType::Connection, "Connection"),
        (PacketType::Error, "Error"),
    ];
    for (kind, tag) in kinds {
        assert_eq!(kind.as_str(), tag);
        assert_eq!(PacketType::from_name(tag), Some(kind));
        assert_eq!(PacketType::from_name(kind.as_str()), Some(kind));
    }
    assert_eq!(PacketType::from_name(""), None);
    assert_eq!(PacketType::from_name("join"), None);
    assert_eq!(PacketType::from_name("Join "), None);
}

#[test]
fn clone_keeps_every_field() {
    let p = Packet::message("hi".to_string(), "alice".to_string());
    assert!(same(&p.clone(), &p));
    let q = Packet::nickname_request();
    assert!(same(&q.clone(), &q));
}

#[test]
fn log_lines() {
    assert_eq!(
        Packet::nickname_request().log(),
        "[NicknameRequest] : Please enter your nickname: "
    );
    assert_eq!(Packet::nickname_response("bob".to_string()).log(), "[NicknameResponse] : bob");
    assert_eq!(
        Packet::message("hi".to_string(), "alice".to_string()).log(),
        "[Message] alice : hi"
    );
    assert_eq!(
        Packet::new(PacketType::Message, "hi".to_string(), None).log(),
        "[Message] Unknown : hi"
    );
    assert_eq!(Packet::join("alice".to_string()).log(), "[Join] *** alice joined ***");
    assert_eq!(Packet::leave("alice".to_string()).log(), "[Leave] *** alice left ***");
    assert_eq!(Packet::info_request("connection".to_string()).log(), "[InfoRequest] connection");
    assert_eq!(Packet::connection(2).log(), "[Connection] 2");
    assert_eq!(Packet::error("bad".to_string()).log(), "[Error] bad");
}
