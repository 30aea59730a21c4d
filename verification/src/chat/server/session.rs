//! A session: the server's side of one browser's websocket.

use vstd::prelude::*;
use vstd::string::*;

use crate::chat::frame::{item_view, Action, ActionView, Frame, FrameView};
use crate::chat::ids::{is_v4_uuid, new_v4_id};
use crate::chat::json::{decode_json_string, json_string_decoding};
use crate::chat::message::{server_message_json, MessageView, ServerMessage};
use crate::chat::server::host::{name_view, ClientMessage, ClientMessageView, Disconnect, HostMessage};
use crate::chat::text::{
    first_space, lemma_first_space_at, lemma_first_space_bounds, split_at_first_space, trim, trim_str,
};
use crate::chat::Name;

verus! {

/// One browser's session: its id once the host has accepted it, the handle
/// `addr` on the host, and the name its user has chosen.
pub struct Session<A> {
    id: Option<u128>,
    addr: A,
    name: Option<Name>,
}

/// A session as plain values.
pub struct SessionView<A> {
    pub id: Option<u128>,
    pub addr: A,
    pub name: Option<Seq<char>>,
}

impl<A> View for Session<A> {
    type V = SessionView<A>;

    closed spec fn view(&self) -> SessionView<A> {
        SessionView { id: self.id, addr: self.addr, name: name_view(self.name) }
    }
}

/// What a chat line asks for.
#[derive(Debug)]
pub enum ChatLine {
    /// `/name` and a name: take that name.
    Rename(Name),
    /// `/name` and an empty name.
    InvalidName,
    /// `/name` alone: tell the user's name.
    AskName,
    /// Any other line that starts with `/`.
    InvalidCommand,
    /// Anything else: a message for the room, trimmed.
    Say(String),
}

/// A chat line's request as plain values.
pub enum ChatLineView {
    Rename(Seq<char>),
    InvalidName,
    AskName,
    InvalidCommand,
    Say(Seq<char>),
}

impl View for ChatLine {
    type V = ChatLineView;

    open spec fn view(&self) -> ChatLineView {
        match self {
            ChatLine::Rename(n) => ChatLineView::Rename(n@),
            ChatLine::InvalidName => ChatLineView::InvalidName,
            ChatLine::AskName => ChatLineView::AskName,
            ChatLine::InvalidCommand => ChatLineView::InvalidCommand,
            ChatLine::Say(m) => ChatLineView::Say(m@),
        }
    }
}

/// What a chat line asks for. The line is trimmed; a line that then starts
/// with `/` is a command, split at its first space into a command word and
/// an argument. The only command is `/name`.
pub open spec fn chat_line(line: Seq<char>) -> ChatLineView {
    let t = trim(line);
    if t.len() > 0 && t[0] == '/' {
        let k: int = first_space(t);
        if t.subrange(0, k) == "/name"@ {
            if k < t.len() {
                let arg = t.subrange(k + 1, t.len() as int);
                if arg.len() > 0 {
                    ChatLineView::Rename(arg)
                } else {
                    ChatLineView::InvalidName
                }
            } else {
                ChatLineView::AskName
            }
        } else {
            ChatLineView::InvalidCommand
        }
    } else {
        ChatLineView::Say(t)
    }
}

/// The greeting that a user receives after taking a name.
pub open spec fn greeting(name: Seq<char>) -> Seq<char> {
    "Hello, "@ + name + "!"@
}

/// The console line that answers `/name` alone.
pub open spec fn name_report(name: Option<Seq<char>>) -> Seq<char> {
    match name {
        Some(n) => "Your name is "@ + n,
        None => "You haven't set a name yet"@,
    }
}

/// The session with another name.
pub open spec fn with_name<A>(s: SessionView<A>, name: Option<Seq<char>>) -> SessionView<A> {
    SessionView { id: s.id, addr: s.addr, name: name }
}

/// What a registered session with id `id` does with a chat line: the session
/// after it and the action.
pub open spec fn line_step<A>(s: SessionView<A>, id: u128, line: Seq<char>) -> (
    SessionView<A>,
    ActionView,
) {
    match chat_line(line) {
        ChatLineView::Rename(n) => (
            with_name(s, Some(n)),
            ActionView::Text(server_message_json(MessageView { sender: None, msg: greeting(n) })),
        ),
        ChatLineView::InvalidName => (s, ActionView::Print("Invalid name"@)),
        ChatLineView::AskName => (s, ActionView::Print(name_report(s.name))),
        ChatLineView::InvalidCommand => (s, ActionView::Print("Invalid command"@)),
        ChatLineView::Say(m) => (
            s,
            ActionView::ToHost(ClientMessageView { id: id, msg: m, name: s.name }),
        ),
    }
}

/// What a session does with a text frame: nothing before the host has
/// accepted it, nothing unless the text is a JSON string, and else what the
/// chat line in it asks for.
pub open spec fn text_step<A>(s: SessionView<A>, text: Seq<char>) -> (SessionView<A>, ActionView) {
    match s.id {
        None => (s, ActionView::Nothing),
        Some(id) => match json_string_decoding(text) {
            None => (s, ActionView::Nothing),
            Some(line) => line_step(s, id, line),
        },
    }
}

/// What a session does with a received item: answer pings, handle text,
/// close on a close frame, stop on a continuation frame, and skip the rest.
pub open spec fn frame_step<A>(s: SessionView<A>, item: Result<FrameView, ()>) -> (
    SessionView<A>,
    ActionView,
) {
    match item {
        Err(_) => (s, ActionView::Nothing),
        Ok(FrameView::Ping(p)) => (s, ActionView::Pong(p)),
        Ok(FrameView::Pong) => (s, ActionView::Nothing),
        Ok(FrameView::Text(t)) => text_step(s, t),
        Ok(FrameView::Binary) => (s, ActionView::Nothing),
        Ok(FrameView::Close(r)) => (s, ActionView::CloseAndStop(r)),
        Ok(FrameView::Continuation) => (s, ActionView::Stop),
        Ok(FrameView::Nop) => (s, ActionView::Nothing),
    }
}

/// What a chat line asks for.
pub fn parse_chat_line(line: &str) -> (res: ChatLine)
    ensures
        res@ == chat_line(line@),
{
    let t = trim_str(line);
    if t.unicode_len() > 0 && t.get_char(0) == '/' {
        let (word, rest) = split_at_first_space(t);
        proof {
            lemma_first_space_bounds(t@);
        }
        if String::from_str(word) == String::from_str("/name") {
            match rest {
                Some(arg) => match Name::new(arg) {
                    Some(name) => ChatLine::Rename(name),
                    None => ChatLine::InvalidName,
                },
                None => ChatLine::AskName,
            }
        } else {
            ChatLine::InvalidCommand
        }
    } else {
        ChatLine::Say(t.to_owned())
    }
}

impl<A> Session<A> {
    /// A session that talks to the host through `addr`, not yet registered,
    /// without a name.
    pub fn new(addr: A) -> (res: Self)
        ensures
            res@ == (SessionView { id: None, addr: addr, name: None }),
    {
        Session { id: None, addr, name: None }
    }

    /// The handle on the host.
    pub fn addr(&self) -> (res: &A)
        ensures
            *res == self@.addr,
    {
        &self.addr
    }

    /// A fresh id under which the session asks the host to register it.
    pub fn connect_id(&self) -> (id: u128)
        ensures
            is_v4_uuid(id),
    {
        new_v4_id()
    }

    /// The host's answer to the registration under `id`: where the request
    /// was not delivered the session stops (`true`), else it keeps `id`.
    pub fn connected(&mut self, id: u128, delivered: bool) -> (stop: bool)
        ensures
            stop == !delivered,
            delivered ==> final(self)@ == (SessionView { id: Some(id), ..old(self)@ }),
            !delivered ==> final(self)@ == old(self)@,
    {
        if !delivered {
            true
        } else {
            self.id = Some(id);
            false
        }
    }

    /// The message to the host that a stopping session sends: a registered
    /// session leaves the host, an unregistered one sends nothing.
    pub fn stopping(&self) -> (res: Option<Disconnect>)
        ensures
            match self@.id {
                Some(id) => res == Some(Disconnect { id: id }),
                None => res is None,
            },
    {
        match self.id {
            Some(id) => Some(Disconnect { id }),
            None => None,
        }
    }

    /// The text frame that passes a host's message on to the browser: the
    /// message as JSON.
    pub fn on_host_message(&self, msg: HostMessage) -> (res: String)
        ensures
            res@ == server_message_json(msg@),
    {
        let out = ServerMessage { sender: msg.sender, msg: msg.msg };
        out.to_json()
    }

    /// What the registered session `id` does with a chat line.
    pub fn respond_to_line(&mut self, id: u128, line: &str) -> (res: Action)
        ensures
            (final(self)@, res@) == line_step(old(self)@, id, line@),
    {
        match parse_chat_line(line) {
            ChatLine::Rename(name) => {
                let mut text = String::from_str("Hello, ");
                text.append(name.value());
                text.append("!");
                let reply = ServerMessage { sender: None, msg: text };
                self.name = Some(name);
                Action::Text(reply.to_json())
            },
            ChatLine::InvalidName => Action::Print(String::from_str("Invalid name")),
            ChatLine::AskName => match &self.name {
                Some(name) => {
                    let mut text = String::from_str("Your name is ");
                    text.append(name.value());
                    Action::Print(text)
                },
                None => Action::Print(String::from_str("You haven't set a name yet")),
            },
            ChatLine::InvalidCommand => Action::Print(String::from_str("Invalid command")),
            ChatLine::Say(msg) => {
                let name = match &self.name {
                    Some(n) => Some(n.clone()),
                    None => None,
                };
                Action::ToHost(ClientMessage { id, msg, name })
            },
        }
    }

    /// What the session does with a received item.
    pub fn handle(&mut self, item: Result<Frame, ()>) -> (res: Action)
        ensures
            (final(self)@, res@) == frame_step(old(self)@, item_view(item)),
    {
        let frame = match item {
            Ok(frame) => frame,
            Err(_) => {
                return Action::Nothing;
            },
        };
        match frame {
            Frame::Ping(p) => Action::Pong(p),
            Frame::Pong => Action::Nothing,
            Frame::Text(text) => match self.id {
                Some(id) => match decode_json_string(text.as_str()) {
                    Some(line) => self.respond_to_line(id, line.as_str()),
                    None => Action::Nothing,
                },
                None => Action::Nothing,
            },
            Frame::Binary => Action::Nothing,
            Frame::Close(reason) => Action::CloseAndStop(reason),
            Frame::Continuation => Action::Stop,
            Frame::Nop => Action::Nothing,
        }
    }
}

/// A session keeps its id and its handle on the host, whatever it receives.
pub proof fn frames_keep_identity<A>(s: SessionView<A>, item: Result<FrameView, ()>)
    ensures
        frame_step(s, item).0.id == s.id,
        frame_step(s, item).0.addr == s.addr,
{
}

/// A session that the host has not accepted yet relays nothing to the host
/// and keeps its name.
pub proof fn unregistered_sessions_stay_silent<A>(s: SessionView<A>, item: Result<FrameView, ()>)
    requires
        s.id is None,
    ensures
        !(frame_step(s, item).1 is ToHost),
        frame_step(s, item).0 == s,
{
}

/// A line that starts with `/` once trimmed is a command: it never reaches
/// the host. Any other line reaches the host trimmed, with the session's id
/// and name.
pub proof fn commands_stay_local<A>(s: SessionView<A>, id: u128, line: Seq<char>)
    ensures
        trim(line).len() > 0 && trim(line)[0] == '/' ==> !(line_step(s, id, line).1 is ToHost),
        !(trim(line).len() > 0 && trim(line)[0] == '/') ==> line_step(s, id, line) == (
            s,
            ActionView::ToHost(ClientMessageView { id: id, msg: trim(line), name: s.name }),
        ),
{
}

/// After a registered session takes a name with `/name`, the next message
/// that it relays to the host carries that name.
pub proof fn rename_then_say<A>(
    s: SessionView<A>,
    id: u128,
    t1: Seq<char>,
    l1: Seq<char>,
    n: Seq<char>,
    t2: Seq<char>,
    l2: Seq<char>,
    m: Seq<char>,
)
    requires
        s.id == Some(id),
        json_string_decoding(t1) == Some(l1),
        chat_line(l1) == ChatLineView::Rename(n),
        json_string_decoding(t2) == Some(l2),
        chat_line(l2) == ChatLineView::Say(m),
    ensures
        ({
            let s1 = frame_step(s, Ok(FrameView::Text(t1))).0;
            &&& s1.name == Some(n)
            &&& frame_step(s1, Ok(FrameView::Text(t2))).1 == ActionView::ToHost(
                ClientMessageView { id: id, msg: m, name: Some(n) },
            )
        }),
{
}

/// A registered session acts on a text frame that carries a chat line as
/// JSON exactly as on the line itself: what the page sends is what the
/// session reads.
pub proof fn text_carries_line<A>(s: SessionView<A>, id: u128, text: Seq<char>, line: Seq<char>)
    requires
        s.id == Some(id),
        json_string_decoding(text) == Some(line),
    ensures
        frame_step(s, Ok(FrameView::Text(text))) == line_step(s, id, line),
{
}

/// Only `/name <name>` changes the session's name: after any other line
/// the name is what it was, and after `/name <name>` it is the whole text
/// after the first space of the trimmed line. The id and the handle never
/// change.
pub proof fn only_rename_changes_the_name<A>(s: SessionView<A>, id: u128, line: Seq<char>)
    ensures
        line_step(s, id, line).0.id == s.id,
        line_step(s, id, line).0.addr == s.addr,
        line_step(s, id, line).0.name == s.name || ({
            let t = trim(line);
            &&& t.len() > 6
            &&& t.subrange(0, 6) == "/name "@
            &&& line_step(s, id, line).0.name == Some(t.subrange(6, t.len() as int))
        }),
{
    reveal_strlit("/name");
    reveal_strlit("/name ");
    let t = trim(line);
    if chat_line(line) is Rename {
        lemma_first_space_bounds(t);
        let k = first_space(t);
        assert(t.subrange(0, k).len() == 5);
        assert(t[5] == ' ');
        assert(t.subrange(0, 6) =~= "/name "@) by {
            assert(t.subrange(0, k)[0] == t[0]);
            assert(t.subrange(0, k)[1] == t[1]);
            assert(t.subrange(0, k)[2] == t[2]);
            assert(t.subrange(0, k)[3] == t[3]);
            assert(t.subrange(0, k)[4] == t[4]);
        }
    }
}

/// `/name` followed by a name takes the whole name, spaces inside it
/// included, and greets the user with it.
pub proof fn rename_takes_the_whole_name<A>(s: SessionView<A>, id: u128, line: Seq<char>, n: Seq<char>)
    requires
        trim(line) == "/name "@ + n,
        n.len() > 0,
    ensures
        line_step(s, id, line).0 == with_name(s, Some(n)),
        line_step(s, id, line).1 == ActionView::Text(
            server_message_json(MessageView { sender: None, msg: "Hello, "@ + n + "!"@ }),
        ),
{
    reveal_strlit("/name");
    reveal_strlit("/name ");
    let t = trim(line);
    assert(t[0] == '/' && t[1] == 'n' && t[2] == 'a' && t[3] == 'm' && t[4] == 'e' && t[5] == ' ');
    lemma_first_space_at(t, 5);
    assert(t.subrange(0, 5) =~= "/name"@);
    assert(t.subrange(6, t.len() as int) =~= n);
}

} // verus!
