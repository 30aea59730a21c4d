use chat_r::app::websocket_url;
use serde::ser::{SerializeStruct, SerializeStructVariant};
use chat_r::chat::frame::{Action, CloseReason, Frame};
use chat_r::chat::message::{Sender, ServerMessage};
use chat_r::chat::server::host::{ClientMessage, Connect, Disconnect, Host, HostMessage};
use chat_r::chat::server::session::{parse_chat_line, ChatLine, Session};
use chat_r::chat::server::{
    Connect as EchoConnect, Disconnect as EchoDisconnect, Server, ServerMessage as EchoMessage,
};
use chat_r::chat::session::Session as EchoSession;
use chat_r::chat::text::{split_at_first_space, trim_str};
use chat_r::chat::Name;
use chat_r::components::home::{record_received, record_sent, send_disabled, sender_label, Message};
use chat_r::ws::encode_client_message;

fn name(s: &str) -> Name {
    Name::new(s).unwrap()
}

fn text(s: &str) -> Result<Frame, ()> {
    Ok(Frame::Text(s.to_string()))
}

#[test]
fn name_new_rejects_the_empty_string() {
    assert!(Name::new("").is_none());
}

#[test]
fn name_new_keeps_the_text() {
    let n = Name::new("bob").unwrap();
    assert_eq!(n.value(), "bob");
    assert_eq!(n.clone().value(), "bob");
    assert_eq!(name(" x ").value(), " x ");
}

#[test]
fn server_message_json_without_sender() {
    let m = ServerMessage { sender: None, msg: "hi".to_string() };
    assert_eq!(m.to_json(), "{\"sender\":null,\"msg\":\"hi\"}");
}

#[test]
fn server_message_json_anonymous_with_escapes() {
    let m = ServerMessage { sender: Some(Sender::Anonymous), msg: "a\"b\\c\n".to_string() };
    assert_eq!(m.to_json(), "{\"sender\":\"Anonymous\",\"msg\":\"a\\\"b\\\\c\\n\"}");
}

#[test]
fn server_message_json_from_a_user() {
    let m = ServerMessage { sender: Some(Sender::User { name: name("b\"ob") }), msg: "x".to_string() };
    assert_eq!(m.to_json(), "{\"sender\":{\"User\":{\"name\":\"b\\\"ob\"}},\"msg\":\"x\"}");
}

#[test]
fn trim_removes_unicode_white_space() {
    assert_eq!(trim_str("  hi there \t\n"), "hi there");
    assert_eq!(trim_str("\u{3000}\u{a0}x\u{2028}"), "x");
    assert_eq!(trim_str(" \t "), "");
    assert_eq!(trim_str(""), "");
    assert_eq!(trim_str("a\u{200b}"), "a\u{200b}");
}

#[test]
fn split_at_the_first_space_only() {
    assert_eq!(split_at_first_space("/name a b"), ("/name", Some("a b")));
    assert_eq!(split_at_first_space("/name"), ("/name", None));
    assert_eq!(split_at_first_space(" x"), ("", Some("x")));
    assert_eq!(split_at_first_space("a\tb"), ("a\tb", None));
}

#[test]
fn chat_lines_are_classified() {
    assert!(matches!(parse_chat_line("/name bob"), ChatLine::Rename(n) if n.value() == "bob"));
    assert!(matches!(parse_chat_line("  /name   bob  "), ChatLine::Rename(n) if n.value() == "  bob"));
    assert!(matches!(parse_chat_line("/name"), ChatLine::AskName));
    assert!(matches!(parse_chat_line(" /name \t"), ChatLine::AskName));
    assert!(matches!(parse_chat_line("/name\tbob"), ChatLine::InvalidCommand));
    assert!(matches!(parse_chat_line("/nick bob"), ChatLine::InvalidCommand));
    assert!(matches!(parse_chat_line("/"), ChatLine::InvalidCommand));
    assert!(matches!(parse_chat_line("  hello world \n"), ChatLine::Say(m) if m == "hello world"));
    assert!(matches!(parse_chat_line(""), ChatLine::Say(m) if m.is_empty()));
    assert!(matches!(parse_chat_line("a /name x"), ChatLine::Say(m) if m == "a /name x"));
}

#[test]
fn unregistered_session_ignores_text() {
    let mut s = Session::new(7u8);
    assert!(matches!(s.handle(text("\"hello\"")), Action::Nothing));
    assert!(s.stopping().is_none());
    assert_eq!(*s.addr(), 7u8);
}

#[test]
fn session_conversation() {
    let mut s = Session::new(());
    assert!(!s.connected(42, true));
    match s.handle(text("\"/name bob\"")) {
        Action::Text(t) => assert_eq!(t, "{\"sender\":null,\"msg\":\"Hello, bob!\"}"),
        other => panic!("unexpected {:?}", other),
    }
    match s.handle(text("\"  hi all  \"")) {
        Action::ToHost(m) => {
            assert_eq!(m.id, 42);
            assert_eq!(m.msg, "hi all");
            assert_eq!(m.name.unwrap().value(), "bob");
        },
        other => panic!("unexpected {:?}", other),
    }
    match s.handle(text("\"/name\"")) {
        Action::Print(t) => assert_eq!(t, "Your name is bob"),
        other => panic!("unexpected {:?}", other),
    }
    match s.handle(text("\"/who\"")) {
        Action::Print(t) => assert_eq!(t, "Invalid command"),
        other => panic!("unexpected {:?}", other),
    }
    assert!(matches!(s.handle(text("not json")), Action::Nothing));
    assert!(matches!(s.stopping(), Some(Disconnect { id: 42 })));
}

#[test]
fn session_without_a_name() {
    let mut s = Session::new(());
    s.connected(5, true);
    match s.handle(text("\"/name\"")) {
        Action::Print(t) => assert_eq!(t, "You haven't set a name yet"),
        other => panic!("unexpected {:?}", other),
    }
    match s.handle(text("\"yo\"")) {
        Action::ToHost(m) => {
            assert_eq!(m.id, 5);
            assert_eq!(m.msg, "yo");
            assert!(m.name.is_none());
        },
        other => panic!("unexpected {:?}", other),
    }
}

#[test]
fn session_decodes_json_escapes() {
    let mut s = Session::new(());
    s.connected(1, true);
    match s.handle(text("\"/name b\\u00f6b\"")) {
        Action::Text(t) => assert_eq!(t, "{\"sender\":null,\"msg\":\"Hello, b\u{f6}b!\"}"),
        other => panic!("unexpected {:?}", other),
    }
}

#[test]
fn refused_registration_stops_the_session() {
    let mut s = Session::new(());
    assert!(s.connected(9, false));
    assert!(s.stopping().is_none());
}

#[test]
fn session_control_frames() {
    let mut s = Session::new(());
    assert!(matches!(s.handle(Ok(Frame::Ping(vec![1, 2]))), Action::Pong(p) if p == vec![1, 2]));
    assert!(matches!(s.handle(Ok(Frame::Pong)), Action::Nothing));
    assert!(matches!(s.handle(Ok(Frame::Binary)), Action::Nothing));
    assert!(matches!(s.handle(Ok(Frame::Nop)), Action::Nothing));
    assert!(matches!(s.handle(Ok(Frame::Continuation)), Action::Stop));
    assert!(matches!(s.handle(Err(())), Action::Nothing));
    let reason = CloseReason { code: 1000, description: Some("bye".to_string()) };
    match s.handle(Ok(Frame::Close(Some(reason)))) {
        Action::CloseAndStop(Some(r)) => {
            assert_eq!(r.code, 1000);
            assert_eq!(r.description.as_deref(), Some("bye"));
        },
        other => panic!("unexpected {:?}", other),
    }
}

#[test]
fn host_message_reaches_the_browser_as_json() {
    let s = Session::new(());
    let m = HostMessage { sender: Some(Sender::User { name: name("ann") }), msg: "hey".to_string() };
    assert_eq!(
        s.on_host_message(m),
        "{\"sender\":{\"User\":{\"name\":\"ann\"}},\"msg\":\"hey\"}"
    );
}

#[test]
fn new_session_ids_are_version_4() {
    let s = Session::new(());
    let a = s.connect_id();
    let b = s.connect_id();
    assert_eq!((a >> 76) & 0xf, 4);
    assert_eq!((a >> 62) & 0x3, 2);
    assert_ne!(a, b);
}

#[test]
fn host_relays_between_sessions() {
    let mut h: Host<u32> = Host::default();
    assert!(h.handle_connect(Connect { id: 1, addr: 100 }).is_empty());
    let out = h.handle_connect(Connect { id: 2, addr: 200 });
    assert_eq!(out.len(), 1);
    assert_eq!(out[0].to, 1);
    assert_eq!(out[0].recipient, 100);
    assert!(out[0].msg.sender.is_none());
    assert_eq!(out[0].msg.msg, "Someone connected!");
    h.handle_connect(Connect { id: 3, addr: 300 });

    let out = h.handle_client_message(ClientMessage { id: 2, msg: "hi".to_string(), name: Some(name("bo")) });
    let mut to: Vec<u128> = out.iter().map(|d| d.to).collect();
    to.sort();
    assert_eq!(to, vec![1, 3]);
    for d in &out {
        assert_eq!(d.recipient as u128, d.to * 100);
        assert!(matches!(&d.msg.sender, Some(Sender::User { name }) if name.value() == "bo"));
        assert_eq!(d.msg.msg, "hi");
    }

    h.handle_disconnect(Disconnect { id: 3 });
    let out = h.handle_client_message(ClientMessage { id: 1, msg: "x".to_string(), name: None });
    assert_eq!(out.len(), 1);
    assert_eq!(out[0].to, 2);
    assert!(matches!(out[0].msg.sender, Some(Sender::Anonymous)));
}

#[test]
fn host_alone_hears_nothing() {
    let mut h: Host<u32> = Host::default();
    h.handle_connect(Connect { id: 1, addr: 1 });
    assert!(h.handle_client_message(ClientMessage { id: 1, msg: "x".to_string(), name: None }).is_empty());
    h.handle_disconnect(Disconnect { id: 1 });
    h.handle_disconnect(Disconnect { id: 1 });
    assert!(h.handle_connect(Connect { id: 2, addr: 2 }).is_empty());
}

#[test]
fn first_server_announces_connections() {
    let mut s: Server<u8> = Server::default();
    assert!(s.handle_connect(EchoConnect { id: 10, addr: 1 }).is_empty());
    let out = s.handle_connect(EchoConnect { id: 11, addr: 2 });
    assert_eq!(out.len(), 1);
    assert_eq!(out[0].to, 10);
    assert_eq!(out[0].msg.0, "Someone connected!");
    s.handle_disconnect(EchoDisconnect { id: 10 });
    s.handle_disconnect(EchoDisconnect { id: 11 });
    assert!(s.handle_connect(EchoConnect { id: 12, addr: 3 }).is_empty());
}

#[test]
fn first_session_echoes_text() {
    let mut s = EchoSession::new(());
    assert!(matches!(s.handle(text("hello")), Action::Text(t) if t == "hello"));
    assert!(matches!(s.handle(Ok(Frame::Continuation)), Action::Stop));
    assert_eq!(s.on_server_message(EchoMessage("m".to_string())), "m");
    assert!(s.stopping().is_none());
    assert!(!s.connected(3, true));
    assert!(matches!(s.stopping(), Some(EchoDisconnect { id: 3 })));
}

#[test]
fn websocket_url_follows_the_page_scheme() {
    assert_eq!(websocket_url("https:", "example.com"), "wss://example.com/ws");
    assert_eq!(websocket_url("http:", "localhost:3000"), "ws://localhost:3000/ws");
    assert_eq!(websocket_url("file:", ""), "ws:///ws");
}

#[test]
fn labels_of_senders() {
    assert_eq!(sender_label(&None), "Server");
    assert_eq!(sender_label(&Some(Sender::Anonymous)), "Anonymous");
    assert_eq!(sender_label(&Some(Sender::User { name: name("zed") })), "zed");
}

#[test]
fn send_button_needs_input() {
    assert!(send_disabled(""));
    assert!(!send_disabled(" "));
}

#[test]
fn client_message_is_a_json_string() {
    let t = encode_client_message("Hi \"you\"");
    assert_eq!(t, "\"Hi \\\"you\\\"\"");
    let back: String = serde_json::from_str(&t).unwrap();
    assert_eq!(back, "Hi \"you\"");
}

#[test]
fn a_line_sent_by_the_page_reaches_the_session_as_typed() {
    let mut s = Session::new(());
    s.connected(8, true);
    let frame = encode_client_message("  /name \"ann\" ");
    match s.handle(text(&frame)) {
        Action::Text(t) => assert_eq!(t, "{\"sender\":null,\"msg\":\"Hello, \\\"ann\\\"!\"}"),
        other => panic!("unexpected {:?}", other),
    }
    let frame = encode_client_message("tab\there");
    match s.handle(text(&frame)) {
        Action::ToHost(m) => {
            assert_eq!(m.msg, "tab\there");
            assert_eq!(m.name.unwrap().value(), "\"ann\"");
        },
        other => panic!("unexpected {:?}", other),
    }
}

#[test]
fn control_characters_are_escaped_as_serde_json_does() {
    let m = ServerMessage { sender: None, msg: "\u{1}\u{8}\t\u{1f}\u{7f}/\u{e9}".to_string() };
    assert_eq!(
        m.to_json(),
        "{\"sender\":null,\"msg\":\"\\u0001\\b\\t\\u001f\u{7f}/\u{e9}\"}"
    );
    assert_eq!(encode_client_message("\u{c}\r"), "\"\\f\\r\"");
}

#[test]
fn the_conversation_grows_at_its_end() {
    let mut log: Vec<(u128, Message<u8>)> = Vec::new();
    record_sent(&mut log, "hello".to_string());
    record_received(&mut log, 7u8);
    assert_eq!(log.len(), 2);
    assert!(matches!(&log[0].1, Message::Me(m) if m == "hello"));
    assert!(matches!(log[1].1, Message::Server(7)));
    assert_ne!(log[0].0, log[1].0);
    assert_eq!((log[0].0 >> 76) & 0xf, 4);
}

// The derived `Serialize` impls of the wire types, written out as the calls
// that serde's derive makes, to hold the library's JSON against serde_json.
struct WireName(String);

impl serde::Serialize for WireName {
    fn serialize<S: serde::Serializer>(&self, s: S) -> Result<S::Ok, S::Error> {
        s.serialize_newtype_struct("Name", &self.0)
    }
}

enum WireSender {
    Anonymous,
    User { name: WireName },
}

impl serde::Serialize for WireSender {
    fn serialize<S: serde::Serializer>(&self, s: S) -> Result<S::Ok, S::Error> {
        match self {
            WireSender::Anonymous => s.serialize_unit_variant("Sender", 0, "Anonymous"),
            WireSender::User { name } => {
                let mut v = s.serialize_struct_variant("Sender", 1, "User", 1)?;
                v.serialize_field("name", name)?;
                v.end()
            },
        }
    }
}

struct WireServerMessage {
    sender: Option<WireSender>,
    msg: String,
}

impl serde::Serialize for WireServerMessage {
    fn serialize<S: serde::Serializer>(&self, s: S) -> Result<S::Ok, S::Error> {
        let mut v = s.serialize_struct("ServerMessage", 2)?;
        v.serialize_field("sender", &self.sender)?;
        v.serialize_field("msg", &self.msg)?;
        v.end()
    }
}

#[test]
fn server_message_json_matches_serde_json() {
    let texts = ["", "plain", "q\"b\\s", "ctl\u{0}\u{1b}\u{1f}\n", "\u{e9}\u{1F600}\u{2028}"];
    for msg in texts {
        for kind in 0..3 {
            for who in texts {
                if kind == 2 && who.is_empty() {
                    continue;
                }
                let (lib_sender, wire_sender) = match kind {
                    0 => (None, None),
                    1 => (Some(Sender::Anonymous), Some(WireSender::Anonymous)),
                    _ => (
                        Some(Sender::User { name: name(who) }),
                        Some(WireSender::User { name: WireName(who.to_string()) }),
                    ),
                };
                let ours = ServerMessage { sender: lib_sender, msg: msg.to_string() }.to_json();
                let theirs = serde_json::to_string(&WireServerMessage {
                    sender: wire_sender,
                    msg: msg.to_string(),
                })
                .unwrap();
                assert_eq!(ours, theirs);
            }
        }
    }
}
