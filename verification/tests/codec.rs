use tokio_chat_server::add;
use tokio_chat_server::error::ChatError;
use tokio_chat_server::json::read_string_members;
use tokio_chat_server::protocol::ChatMessage;
use tokio_chat_server::text::trimmed;

fn message(sender: &str, content: &str) -> ChatMessage {
    ChatMessage { sender: sender.to_string(), content: content.to_string() }
}

fn concat_lines(lines: &[&str]) -> String {
    lines.join("\n")
}

#[test]
fn it_works() {
    let result = add(2, 2);
    assert_eq!(result, 4);
}

#[test]
fn add_reaches_the_largest_sum() {
    assert_eq!(add(u64::MAX - 1, 1), u64::MAX);
    assert_eq!(add(0, 0), 0);
}

#[test]
fn legacy_form_splits_at_first_colon() {
    let m = ChatMessage::from_legacy("avery: see you at 10:30 ").unwrap();
    assert_eq!(m, message("avery", "see you at 10:30"));
}

#[test]
fn legacy_form_trims_both_parts() {
    assert_eq!(
        ChatMessage::from_legacy(" \t user \u{a0}:\r\n msg \u{3000}\n").unwrap(),
        message("user", "msg")
    );
    assert_eq!(ChatMessage::from_legacy("avery:bye").unwrap(), message("avery", "bye"));
}

#[test]
fn legacy_form_accepts_empty_parts() {
    assert_eq!(ChatMessage::from_legacy(":").unwrap(), message("", ""));
    assert_eq!(ChatMessage::from_legacy("a:").unwrap(), message("a", ""));
    assert_eq!(ChatMessage::from_legacy(" : b").unwrap(), message("", "b"));
}

#[test]
fn legacy_form_without_colon_is_rejected() {
    assert_eq!(ChatMessage::from_legacy("no separator here"), Err(ChatError::MalformedMessage));
    assert_eq!(ChatMessage::from_legacy(""), Err(ChatError::MalformedMessage));
}

#[test]
fn legacy_reader_takes_a_structured_payload_by_its_first_colon() {
    assert_eq!(
        ChatMessage::from_legacy("{\"sender\":\"avery\",\"content\":\"hi\"}").unwrap(),
        message("{\"sender\"", "\"avery\",\"content\":\"hi\"}")
    );
}

#[test]
fn from_raw_reads_the_structured_form() {
    let m = ChatMessage::from_raw("{\"sender\":\"avery\",\"content\":\"hi\"}").unwrap();
    assert_eq!(m.sender, "avery");
    assert_eq!(m.content, "hi");
    assert_eq!(m, ChatMessage::from_raw("avery: hi").unwrap());
}

#[test]
fn from_raw_falls_back_to_the_legacy_form() {
    assert_eq!(
        ChatMessage::from_raw("avery: see you at 10:30 ").unwrap(),
        message("avery", "see you at 10:30")
    );
    assert_eq!(ChatMessage::from_raw("avery:bye").unwrap(), message("avery", "bye"));
    assert_eq!(ChatMessage::from_raw(":").unwrap(), message("", ""));
    assert_eq!(ChatMessage::from_raw("no separator here"), Err(ChatError::MalformedMessage));
}

#[test]
fn from_raw_gives_back_what_to_json_wrote() {
    let first = ChatMessage::from_raw("avery: hi").unwrap();
    let again = ChatMessage::from_raw(&first.to_json().unwrap()).unwrap();
    assert_eq!(again, first);
    let structured = ChatMessage::from_raw(" {\"content\":\"a: b\",\"sender\":\"x:y\"} ").unwrap();
    assert_eq!(structured, message("x:y", "a: b"));
    assert_eq!(ChatMessage::from_raw(&structured.to_json().unwrap()).unwrap(), structured);
}

#[test]
fn string_members_are_read_by_name() {
    let text = "{\"a\":\"1\",\"b\":2,\"c\":\"3\",\"a\":\"4\"}";
    assert_eq!(read_string_members(text, "a", "c"), Some(("4".to_string(), "3".to_string())));
    assert_eq!(read_string_members(text, "c", "c"), Some(("3".to_string(), "3".to_string())));
    assert_eq!(read_string_members(text, "a", "b"), None);
    assert_eq!(read_string_members(text, "d", "a"), None);
    assert_eq!(read_string_members("[\"a\",\"c\"]", "a", "c"), None);
    assert_eq!(read_string_members("\"a\"", "a", "c"), None);
    assert_eq!(read_string_members("{\"a\":\"1\",\"c\":\"3\"", "a", "c"), None);
    assert_eq!(read_string_members("", "a", "c"), None);
}

#[test]
fn legacy_and_structured_forms_agree() {
    let legacy = ChatMessage::from_raw("avery: hi").unwrap();
    let structured = ChatMessage::from_raw("{\"sender\":\"avery\",\"content\":\"hi\"}").unwrap();
    assert_eq!(legacy, structured);
    assert_eq!(legacy, message("avery", "hi"));
}

#[test]
fn structured_form_is_read_as_json() {
    let spaced = concat_lines(&[
        " {",
        " \"content\" : \"a\\nb \\u0041 \\\"q\\\"\",",
        " \"extra\": [1, 2],",
        " \"sender\": \" avery \" }",
        "",
    ]);
    let spaced = spaced.as_str();
    assert_eq!(ChatMessage::from_raw(spaced).unwrap(), message(" avery ", "a\nb A \"q\""));
}

#[test]
fn structured_form_that_fails_the_schema_falls_back() {
    // A number where a string belongs: no structured message, but a colon.
    assert_eq!(
        ChatMessage::from_raw("{\"sender\":1,\"content\":\"x\"}").unwrap(),
        message("{\"sender\"", "1,\"content\":\"x\"}")
    );
    // A member is missing.
    assert_eq!(
        ChatMessage::from_raw("{\"sender\":\"a\"}").unwrap(),
        message("{\"sender\"", "\"a\"}")
    );
    // JSON that is cut short.
    assert_eq!(
        ChatMessage::from_raw("{\"sender\":\"a\",").unwrap(),
        message("{\"sender\"", "\"a\",")
    );
}

#[test]
fn payload_that_is_neither_form_is_malformed() {
    assert_eq!(ChatMessage::from_raw("{}"), Err(ChatError::MalformedMessage));
    assert_eq!(ChatMessage::from_raw("[\"avery\",\"hi\"]"), Err(ChatError::MalformedMessage));
    assert_eq!(ChatMessage::from_raw("hello"), Err(ChatError::MalformedMessage));
}

#[test]
fn blank_payload_is_malformed() {
    assert_eq!(ChatMessage::from_raw(""), Err(ChatError::MalformedMessage));
    assert_eq!(ChatMessage::from_raw(" \t\r\n"), Err(ChatError::MalformedMessage));
}

#[test]
fn decode_with_prefers_the_members() {
    let members = Some(("a".to_string(), "b".to_string()));
    assert_eq!(ChatMessage::decode_with("x: y", members).unwrap(), message("a", "b"));
    assert_eq!(ChatMessage::decode_with("x: y", None).unwrap(), message("x", "y"));
    assert_eq!(ChatMessage::decode_with("xy", None), Err(ChatError::MalformedMessage));
    let members = Some(("a".to_string(), "b".to_string()));
    assert_eq!(ChatMessage::decode_with("  ", members), Err(ChatError::MalformedMessage));
}

#[test]
fn wire_form_is_exact() {
    let json = message("avery", "Hello from client1").to_json().unwrap();
    assert_eq!(json, "{\"sender\":\"avery\",\"content\":\"Hello from client1\"}");
    assert_eq!(message("", "").to_json().unwrap(), "{\"sender\":\"\",\"content\":\"\"}");
}

#[test]
fn wire_form_escapes_what_would_break_a_line() {
    let m = message("a\"b", "x\ny\\z\u{1}\u{1f}\u{8}\u{c}\r\t\u{7f}é/");
    let json = m.to_json().unwrap();
    assert_eq!(
        json,
        "{\"sender\":\"a\\\"b\",\"content\":\"x\\ny\\\\z\\u0001\\u001f\\b\\f\\r\\t\u{7f}é/\"}"
    );
    assert!(json.chars().all(|c| c >= ' '));
}

#[test]
fn every_control_character_gets_its_escape() {
    for code in 0u32..0x20 {
        let c = char::from_u32(code).unwrap();
        let json = message("", &c.to_string()).to_json().unwrap();
        let expected = match c {
            '\u{8}' => "\\b".to_string(),
            '\t' => "\\t".to_string(),
            '\n' => "\\n".to_string(),
            '\u{c}' => "\\f".to_string(),
            '\r' => "\\r".to_string(),
            _ => format!("\\u00{:02x}", code),
        };
        assert_eq!(json, format!("{{\"sender\":\"\",\"content\":\"{}\"}}", expected));
    }
}

#[test]
fn frame_ends_with_its_only_line_feed() {
    let line = message("avery", "one\ntwo").to_line().unwrap();
    assert_eq!(line, "{\"sender\":\"avery\",\"content\":\"one\\ntwo\"}\n");
    assert_eq!(line.find('\n'), Some(line.len() - 1));
}

#[test]
fn wire_form_decodes_back() {
    let samples = [
        message("avery", "hi"),
        message("", ""),
        message(" padded ", "\tkept as it is\n"),
        message("a:b", "{\"sender\":\"x\",\"content\":\"y\"}"),
        message("quote\"back\\slash", "\u{0}\u{1f}\u{7f}\u{80}é\u{2028}\u{10ffff}"),
    ];
    for m in samples.iter() {
        let json = m.to_json().unwrap();
        assert_eq!(&ChatMessage::from_raw(&json).unwrap(), m);
        let line = m.to_line().unwrap();
        assert_eq!(&ChatMessage::from_raw(&line).unwrap(), m);
    }
}

#[test]
fn reencoding_a_legacy_payload_gives_its_structured_form() {
    let m = ChatMessage::from_raw("avery: hi").unwrap();
    let json = m.to_json().unwrap();
    assert_eq!(json, "{\"sender\":\"avery\",\"content\":\"hi\"}");
    assert_eq!(ChatMessage::from_raw(&json).unwrap(), m);
    assert_eq!(ChatMessage::from_raw(&json).unwrap().to_json().unwrap(), json);
}

#[test]
fn clone_keeps_both_fields() {
    let m = message("avery", "hi");
    assert_eq!(m.clone(), m);
}

#[test]
fn trimming_removes_exactly_the_white_space_characters() {
    for code in 0u32..=0x10ffff {
        let c = match char::from_u32(code) {
            Some(c) => c,
            None => continue,
        };
        let listed = matches!(
            code,
            0x09..=0x0d
                | 0x20
                | 0x85
                | 0xa0
                | 0x1680
                | 0x2000..=0x200a
                | 0x2028
                | 0x2029
                | 0x202f
                | 0x205f
                | 0x3000
        );
        let text = format!("{}x{}", c, c);
        let expected = if listed { "x".to_string() } else { text.clone() };
        assert_eq!(trimmed(&text), expected);
    }
}

#[test]
fn trimming_keeps_the_inside() {
    assert_eq!(trimmed("  a  b \n"), "a  b");
    assert_eq!(trimmed(""), "");
    assert_eq!(trimmed(" \u{2003}\t"), "");
    assert_eq!(trimmed("x"), "x");
}

#[test]
fn errors_describe_themselves() {
    assert_eq!(ChatError::MalformedMessage.message(), "Invalid message format");
    assert_eq!(ChatError::ReadTimeout.message(), "Read timeout");
    assert_eq!(ChatError::ReadFailed.message(), "Read failed");
    assert_eq!(ChatError::WriteFailed.message(), "Write failed");
    assert_eq!(ChatError::HubClosed.message(), "Broadcast channel closed");
    assert_eq!(ChatError::Encoding.message(), "Message could not be encoded");
    assert_eq!(ChatError::ListenerFailed.message(), "Listener failed");
}

fn expected_escape(c: char) -> String {
    match c {
        '"' => "\\\"".to_string(),
        '\\' => "\\\\".to_string(),
        '\u{8}' => "\\b".to_string(),
        '\t' => "\\t".to_string(),
        '\n' => "\\n".to_string(),
        '\u{c}' => "\\f".to_string(),
        '\r' => "\\r".to_string(),
        c if (c as u32) < 0x20 => format!("\\u00{:02x}", c as u32),
        c => c.to_string(),
    }
}

#[test]
fn every_character_stands_as_the_escape_rule_says() {
    let mut codes: Vec<u32> = (0u32..0x3000).collect();
    codes.extend([0xd7ff, 0xe000, 0xfeff, 0xfffd, 0xffff, 0x10000, 0x1f600, 0x10ffff]);
    for code in codes {
        let c = match char::from_u32(code) {
            Some(c) => c,
            None => continue,
        };
        let sender = format!("a{}b", c);
        let content = format!("{}{}", c, c);
        let json = message(&sender, &content).to_json().unwrap();
        let e = expected_escape(c);
        assert_eq!(json, format!("{{\"sender\":\"a{}b\",\"content\":\"{}{}\"}}", e, e, e));
        assert_eq!(ChatMessage::from_raw(&json).unwrap(), message(&sender, &content));
    }
}
