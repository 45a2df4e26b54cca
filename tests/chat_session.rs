use yewchat::chat::{can_log_in, Chat, Effect, MessageData, Msg, Outcome};
use yewchat::protocol::{decode, encode, MsgTypes, ProtocolError, WebSocketMessage};
use yewchat::view::{is_gif, is_own};

fn users_frame(names: &[&str]) -> String {
    encode(&WebSocketMessage {
        message_type: MsgTypes::Users,
        data_array: Some(names.iter().map(|n| n.to_string()).collect()),
        data: None,
    })
}

fn message_frame(from: &str, body: &str) -> String {
    let payload = format!(
        "{{\"from\":{},\"message\":{}}}",
        serde_json::to_string(from).unwrap(),
        serde_json::to_string(body).unwrap()
    );
    encode(&WebSocketMessage {
        message_type: MsgTypes::Message,
        data_array: None,
        data: Some(payload),
    })
}

fn roster_names(chat: &Chat) -> Vec<String> {
    chat.users.iter().map(|u| u.name.clone()).collect()
}

#[test]
fn encode_writes_the_wire_layout() {
    let users = users_frame(&["ann", "bo\"b"]);
    assert_eq!(
        users,
        "{\"messageType\":\"users\",\"dataArray\":[\"ann\",\"bo\\\"b\"],\"data\":null}"
    );
    let empty = users_frame(&[]);
    assert_eq!(empty, "{\"messageType\":\"users\",\"dataArray\":[],\"data\":null}");
    let reg = encode(&WebSocketMessage {
        message_type: MsgTypes::Register,
        data_array: None,
        data: Some("alice".to_string()),
    });
    assert_eq!(reg, "{\"messageType\":\"register\",\"dataArray\":null,\"data\":\"alice\"}");
}

#[test]
fn decode_reads_back_what_encode_wrote() {
    let cases = vec![
        WebSocketMessage {
            message_type: MsgTypes::Users,
            data_array: Some(vec!["a".to_string(), "b c".to_string(), "\u{e9}\n".to_string()]),
            data: None,
        },
        WebSocketMessage { message_type: MsgTypes::Users, data_array: Some(vec![]), data: None },
        WebSocketMessage {
            message_type: MsgTypes::Register,
            data_array: None,
            data: Some("alice".to_string()),
        },
        WebSocketMessage {
            message_type: MsgTypes::Message,
            data_array: None,
            data: Some("{\"from\":\"a\",\"message\":\"x\\\\y\"}".to_string()),
        },
    ];
    for e in cases {
        let d = decode(&encode(&e)).unwrap();
        assert_eq!(d.message_type, e.message_type);
        assert_eq!(d.data_array, e.data_array);
        assert_eq!(d.data, e.data);
    }
}

#[test]
fn decode_accepts_other_layouts_of_the_same_object() {
    let d = decode(" { \"data\" : \"hi\", \"messageType\" : \"message\" } ").unwrap();
    assert_eq!(d.message_type, MsgTypes::Message);
    assert_eq!(d.data, Some("hi".to_string()));
    assert_eq!(d.data_array, None);
}

#[test]
fn decode_rejects_malformed_frames() {
    let bad = [
        "garbage",
        "",
        "{\"messageType\":\"shout\",\"data\":\"x\"}",
        "{\"messageType\":\"users\",\"data\":\"x\"}",
        "{\"messageType\":\"message\",\"dataArray\":[\"x\"]}",
        "{\"messageType\":\"register\",\"dataArray\":null,\"data\":null}",
        "{\"messageType\":\"users\",\"dataArray\":[1,2]}",
        "{\"messageType\":\"Users\",\"dataArray\":[]}",
        "{\"data\":\"x\"}",
        "[1,2]",
    ];
    for f in bad.iter() {
        assert!(matches!(decode(f), Err(ProtocolError::MalformedEnvelope)), "{}", f);
    }
}

#[test]
fn create_sends_the_registration_first() {
    let (chat, frame) = Chat::create("alice");
    assert!(chat.users.is_empty());
    assert!(chat.messages.is_empty());
    assert_eq!(frame, "{\"messageType\":\"register\",\"dataArray\":null,\"data\":\"alice\"}");
}

#[test]
fn roster_is_replaced_in_full() {
    let mut chat = Chat::new();
    assert_eq!(chat.handle_frame(&users_frame(&["a", "b", "c"])), Ok(Outcome::RosterReplaced));
    assert_eq!(roster_names(&chat), vec!["a", "b", "c"]);
    assert_eq!(chat.handle_frame(&users_frame(&["d", "a"])), Ok(Outcome::RosterReplaced));
    assert_eq!(roster_names(&chat), vec!["d", "a"]);
    assert_eq!(
        chat.users[0].avatar,
        "https://avatars.dicebear.com/api/adventurer-neutral/d.svg"
    );
    assert_eq!(chat.handle_frame(&users_frame(&[])), Ok(Outcome::RosterReplaced));
    assert!(chat.users.is_empty());
}

#[test]
fn users_envelope_without_list_empties_the_roster() {
    let mut chat = Chat::new();
    chat.handle_frame(&users_frame(&["a"])).unwrap();
    let r = chat.handle_frame("{\"messageType\":\"users\"}");
    assert_eq!(r, Ok(Outcome::RosterReplaced));
    assert!(chat.users.is_empty());
    let d = decode("{\"messageType\":\"users\",\"dataArray\":null,\"data\":null}").unwrap();
    assert_eq!(d.data_array, None);
}

#[test]
fn quoting_escapes_as_serde_json_does() {
    let f = encode(&WebSocketMessage {
        message_type: MsgTypes::Message,
        data_array: None,
        data: Some("a\u{1}b\t\"\\/\u{1f}".to_string()),
    });
    assert_eq!(
        f,
        "{\"messageType\":\"message\",\"dataArray\":null,\"data\":\"a\\u0001b\\t\\\"\\\\/\\u001f\"}"
    );
}

#[test]
fn log_grows_only_by_decoded_messages() {
    let mut chat = Chat::new();
    let frames = vec![
        message_frame("a", "one"),
        "{\"messageType\":\"message\",\"data\":\"not json\"}".to_string(),
        message_frame("b", "two"),
        "{\"messageType\":\"message\",\"data\":\"{\\\"from\\\":\\\"x\\\"}\"}".to_string(),
        "{\"messageType\":\"register\",\"data\":\"z\"}".to_string(),
        message_frame("a", "three"),
    ];
    let rs = chat.handle_frames(&frames);
    assert_eq!(
        rs,
        vec![
            Ok(Outcome::MessageAppended),
            Err(ProtocolError::MalformedPayload),
            Ok(Outcome::MessageAppended),
            Err(ProtocolError::MalformedPayload),
            Ok(Outcome::Ignored),
            Ok(Outcome::MessageAppended),
        ]
    );
    let bodies: Vec<&str> = chat.messages.iter().map(|m| m.message.as_str()).collect();
    assert_eq!(bodies, vec!["one", "two", "three"]);
    assert_eq!(chat.messages[1].from, "b");
}

#[test]
fn malformed_frame_between_valid_ones_is_dropped() {
    let mut chat = Chat::new();
    let frames = vec![
        users_frame(&["alice", "bob"]),
        "garbage".to_string(),
        message_frame("bob", "hello"),
    ];
    let rs = chat.handle_frames(&frames);
    assert_eq!(
        rs,
        vec![
            Ok(Outcome::RosterReplaced),
            Err(ProtocolError::MalformedEnvelope),
            Ok(Outcome::MessageAppended),
        ]
    );
    assert_eq!(roster_names(&chat), vec!["alice", "bob"]);
    assert_eq!(chat.messages.len(), 1);
    assert_eq!(chat.messages[0].from, "bob");
    assert_eq!(chat.messages[0].message, "hello");
}

#[test]
fn register_envelope_inbound_is_ignored() {
    let mut chat = Chat::new();
    let f = encode(&WebSocketMessage {
        message_type: MsgTypes::Register,
        data_array: None,
        data: Some("x".to_string()),
    });
    assert_eq!(chat.handle_frame(&f), Ok(Outcome::Ignored));
    assert!(matches!(chat.update(Msg::HandleMsg(f)), Effect::Unchanged));
    assert!(chat.users.is_empty() && chat.messages.is_empty());
}

#[test]
fn update_reports_what_to_do() {
    let mut chat = Chat::new();
    assert!(matches!(chat.update(Msg::HandleMsg(message_frame("a", "b"))), Effect::Refresh));
    assert!(matches!(
        chat.update(Msg::HandleMsg("nope".to_string())),
        Effect::Dropped(ProtocolError::MalformedEnvelope)
    ));
    match chat.update(Msg::SubmitMessage("hi there".to_string())) {
        Effect::Send(f) => assert_eq!(
            f,
            "{\"messageType\":\"message\",\"dataArray\":null,\"data\":\"hi there\"}"
        ),
        _ => panic!("expected a frame to send"),
    }
    assert_eq!(chat.messages.len(), 1);
}

#[test]
fn ownership_is_case_sensitive() {
    let own = MessageData { from: "alice".to_string(), message: "hi".to_string() };
    let other = MessageData { from: "Alice".to_string(), message: "hi".to_string() };
    assert!(is_own(&own, "alice"));
    assert!(!is_own(&other, "alice"));
}

#[test]
fn gif_bodies_are_media() {
    assert!(is_gif("party.gif"));
    assert!(is_gif(".gif"));
    assert!(!is_gif("party.gif.txt"));
    assert!(!is_gif("partygif"));
    assert!(!is_gif("party.GIF"));
    assert!(!is_gif("gif"));
    assert!(!is_gif(""));
}

#[test]
fn view_projects_roster_and_log() {
    let mut chat = Chat::new();
    let empty = chat.view_model("alice");
    assert!(empty.users.is_empty());
    assert!(empty.messages.is_empty());
    chat.handle_frame(&users_frame(&["alice", "bob"])).unwrap();
    chat.handle_frame(&message_frame("alice", "hi")).unwrap();
    chat.handle_frame(&message_frame("carol", "party.gif")).unwrap();
    chat.handle_frame(&message_frame("Alice", "hey")).unwrap();
    let v = chat.view_model("alice");
    assert_eq!(v.current_user, "alice");
    assert_eq!(v.users.len(), 2);
    assert_eq!(v.users[1].name, "bob");
    assert_eq!(v.users[1].avatar, "https://avatars.dicebear.com/api/adventurer-neutral/bob.svg");
    assert_eq!(v.messages.len(), 3);
    assert!(v.messages[0].own);
    assert!(!v.messages[0].media);
    assert_eq!(v.messages[0].body, "hi");
    assert!(!v.messages[1].own);
    assert!(v.messages[1].media);
    assert!(!v.messages[2].own);
    assert_eq!(v.messages[2].from, "Alice");
}

#[test]
fn avatar_falls_back_to_the_name() {
    let mut chat = Chat::new();
    chat.handle_frame(&users_frame(&["bob"])).unwrap();
    assert_eq!(
        chat.author_avatar("bob"),
        "https://avatars.dicebear.com/api/adventurer-neutral/bob.svg"
    );
    assert_eq!(
        chat.author_avatar("zed"),
        "https://avatars.dicebear.com/api/adventurer-neutral/zed.svg"
    );
    chat.handle_frame(&message_frame("zed", "left already")).unwrap();
    let v = chat.view_model("bob");
    assert_eq!(v.messages[0].avatar, "https://avatars.dicebear.com/api/adventurer-neutral/zed.svg");
}

#[test]
fn login_needs_a_name() {
    assert!(!can_log_in(""));
    assert!(can_log_in("a"));
    assert!(can_log_in("\u{e9}"));
}
