//! The messages that travel between the server and the browser.

use vstd::prelude::*;
use vstd::string::*;

use crate::chat::json::{encode_json_string, json_string, json_string_injective};
use crate::chat::Name;

verus! {

/// Who wrote a chat message.
#[derive(Debug)]
pub enum Sender {
    Anonymous,
    User { name: Name },
}

/// What a browser sends: one chat line, as a JSON string.
pub type ClientMessage = String;

/// What the server sends to a browser. A message without a sender comes from
/// the server itself.
#[derive(Debug)]
pub struct ServerMessage {
    pub sender: Option<Sender>,
    pub msg: String,
}

/// A sender as a plain value: anonymous, or a user with a name.
pub enum SenderView {
    Anonymous,
    User(Seq<char>),
}

/// A chat message as plain values.
pub struct MessageView {
    pub sender: Option<SenderView>,
    pub msg: Seq<char>,
}

impl View for Sender {
    type V = SenderView;

    open spec fn view(&self) -> SenderView {
        match self {
            Sender::Anonymous => SenderView::Anonymous,
            Sender::User { name } => SenderView::User(name@),
        }
    }
}

/// The plain value of an optional sender.
pub open spec fn sender_view(s: Option<Sender>) -> Option<SenderView> {
    match s {
        Some(x) => Some(x@),
        None => None,
    }
}

impl View for ServerMessage {
    type V = MessageView;

    open spec fn view(&self) -> MessageView {
        MessageView { sender: sender_view(self.sender), msg: self.msg@ }
    }
}

impl Clone for Sender {
    fn clone(&self) -> (res: Self)
        ensures
            res == *self,
    {
        match self {
            Sender::Anonymous => Sender::Anonymous,
            Sender::User { name } => Sender::User { name: name.clone() },
        }
    }
}

/// Copies an optional sender.
pub(crate) fn clone_sender(s: &Option<Sender>) -> (res: Option<Sender>)
    ensures
        res == *s,
{
    match s {
        Some(x) => Some(x.clone()),
        None => None,
    }
}

impl Clone for ServerMessage {
    fn clone(&self) -> (res: Self)
        ensures
            res == *self,
    {
        ServerMessage { sender: clone_sender(&self.sender), msg: self.msg.clone() }
    }
}

/// The JSON text of a sender, as serde's derived `Serialize` lays it out:
/// `null`, the unit variant `"Anonymous"`, or `{"User":{"name":..}}` with the
/// name written as a JSON string.
pub open spec fn sender_json(s: Option<SenderView>) -> Seq<char> {
    match s {
        None => "null"@,
        Some(SenderView::Anonymous) => "\"Anonymous\""@,
        Some(SenderView::User(name)) => "{\"User\":{\"name\":"@ + json_string(name) + "}}"@,
    }
}

/// The JSON text of a server message: `{"sender":..,"msg":..}`, fields in
/// declaration order, no white space.
pub open spec fn server_message_json(m: MessageView) -> Seq<char> {
    "{\"sender\":"@ + sender_json(m.sender) + ",\"msg\":"@ + json_string(m.msg) + "}"@
}

fn encode_sender(s: &Option<Sender>) -> (res: String)
    ensures
        res@ == sender_json(sender_view(*s)),
{
    match s {
        None => String::from_str("null"),
        Some(Sender::Anonymous) => String::from_str("\"Anonymous\""),
        Some(Sender::User { name }) => {
            let q = encode_json_string(name.value());
            let mut out = String::from_str("{\"User\":{\"name\":");
            out.append(q.as_str());
            out.append("}}");
            out
        },
    }
}

impl ServerMessage {
    /// The JSON text that the browser receives for this message, laid out
    /// as serde_json writes the derived form of the struct.
    pub fn to_json(&self) -> (res: String)
        ensures
            res@ == server_message_json(self@),
    {
        let sender = encode_sender(&self.sender);
        let msg = encode_json_string(self.msg.as_str());
        let mut out = String::from_str("{\"sender\":");
        out.append(sender.as_str());
        out.append(",\"msg\":");
        out.append(msg.as_str());
        out.append("}");
        out
    }
}

/// The JSON text of a server message carries the whole message: two
/// messages from the same sender that get the same JSON text say the same
/// thing, so no part of a message is left out of its text.
pub proof fn server_message_json_keeps_text(sender: Option<SenderView>, a: Seq<char>, b: Seq<char>)
    requires
        server_message_json(MessageView { sender: sender, msg: a }) == server_message_json(
            MessageView { sender: sender, msg: b },
        ),
    ensures
        a == b,
{
    let p = "{\"sender\":"@ + sender_json(sender) + ",\"msg\":"@;
    let xa = server_message_json(MessageView { sender: sender, msg: a });
    let xb = server_message_json(MessageView { sender: sender, msg: b });
    assert(xa == p + json_string(a) + "}"@);
    assert(xb == p + json_string(b) + "}"@);
    assert(json_string(a) =~= xa.subrange(p.len() as int, xa.len() - "}"@.len()));
    assert(json_string(b) =~= xb.subrange(p.len() as int, xb.len() - "}"@.len()));
    json_string_injective(a, b);
}

/// The JSON text of a server message tells who sent it: two messages with
/// the same text that get the same JSON text come from the same sender.
pub proof fn server_message_json_keeps_sender(a: Option<SenderView>, b: Option<SenderView>, msg: Seq<char>)
    requires
        server_message_json(MessageView { sender: a, msg: msg }) == server_message_json(
            MessageView { sender: b, msg: msg },
        ),
    ensures
        a == b,
{
    reveal_strlit("null");
    reveal_strlit("\"Anonymous\"");
    reveal_strlit("{\"User\":{\"name\":");
    let h = "{\"sender\":"@;
    let t = ",\"msg\":"@ + json_string(msg) + "}"@;
    let xa = server_message_json(MessageView { sender: a, msg: msg });
    let xb = server_message_json(MessageView { sender: b, msg: msg });
    assert(xa =~= h + sender_json(a) + t);
    assert(xb =~= h + sender_json(b) + t);
    let sa = sender_json(a);
    let sb = sender_json(b);
    assert(sa =~= xa.subrange(h.len() as int, xa.len() - t.len()));
    assert(sb =~= xb.subrange(h.len() as int, xb.len() - t.len()));
    assert(sa == sb);
    match (a, b) {
        (Some(SenderView::User(na)), Some(SenderView::User(nb))) => {
            let p = "{\"User\":{\"name\":"@;
            let q = "}}"@;
            assert(json_string(na) =~= sa.subrange(p.len() as int, sa.len() - q.len()));
            assert(json_string(nb) =~= sb.subrange(p.len() as int, sb.len() - q.len()));
            json_string_injective(na, nb);
        },
        _ => {
            assert(sa[0] == sb[0]);
        },
    }
}

} // verus!
