//! The host: the hub that every session of the chat room registers with, and
//! that relays each chat line to the other sessions.

use std::collections::HashMap;
use vstd::prelude::*;

use crate::chat::message::{clone_sender, sender_view, MessageView, Sender};
use crate::chat::route::{admits, reaches, route, Delivery, MessageFilter};
use crate::chat::Name;
use crate::components::home::label;
use crate::chat::message::SenderView;

verus! {

broadcast use vstd::std_specs::hash::group_hash_axioms;

/// A message that the host hands to a session, for it to pass on to its
/// browser.
#[derive(Debug)]
pub struct HostMessage {
    pub sender: Option<Sender>,
    pub msg: String,
}

impl View for HostMessage {
    type V = MessageView;

    open spec fn view(&self) -> MessageView {
        MessageView { sender: sender_view(self.sender), msg: self.msg@ }
    }
}

impl Clone for HostMessage {
    fn clone(&self) -> (res: Self)
        ensures
            res == *self,
    {
        HostMessage { sender: clone_sender(&self.sender), msg: self.msg.clone() }
    }
}

/// A chat line that the session `id` relays to the host, with the name that
/// its user has chosen, if any.
#[derive(Debug)]
pub struct ClientMessage {
    pub id: u128,
    pub msg: String,
    pub name: Option<Name>,
}

/// A relayed chat line as plain values.
pub struct ClientMessageView {
    pub id: u128,
    pub msg: Seq<char>,
    pub name: Option<Seq<char>>,
}

/// The plain value of an optional name.
pub open spec fn name_view(n: Option<Name>) -> Option<Seq<char>> {
    match n {
        Some(x) => Some(x@),
        None => None,
    }
}

impl View for ClientMessage {
    type V = ClientMessageView;

    open spec fn view(&self) -> ClientMessageView {
        ClientMessageView { id: self.id, msg: self.msg@, name: name_view(self.name) }
    }
}

/// A session registers with the host under `id`, with the handle `addr` on
/// its mailbox.
pub struct Connect<R> {
    pub id: u128,
    pub addr: R,
}

/// The session `id` leaves the host.
pub struct Disconnect {
    pub id: u128,
}

/// The host: the connected sessions, each by its id with a handle on its
/// mailbox.
pub struct Host<R> {
    sessions: HashMap<u128, R>,
}

impl<R> View for Host<R> {
    type V = Map<u128, R>;

    closed spec fn view(&self) -> Map<u128, R> {
        self.sessions@
    }
}

/// `out` hands the message `msg` once to each session of `sessions` that
/// `filter` admits, and to no other session.
pub open spec fn delivers<R: Clone>(
    out: Seq<Delivery<R, HostMessage>>,
    sessions: Map<u128, R>,
    filter: Option<MessageFilter>,
    msg: MessageView,
) -> bool {
    &&& reaches(out, sessions, filter)
    &&& forall|i: int| 0 <= i < out.len() ==> (#[trigger] out[i]).msg@ == msg
}

/// The text that every session receives when another one connects.
pub open spec fn connected_notice() -> Seq<char> {
    "Someone connected!"@
}

/// The sender that a relayed chat line carries: its user, or anonymous.
pub open spec fn author(name: Option<Name>) -> Sender {
    match name {
        Some(n) => Sender::User { name: n },
        None => Sender::Anonymous,
    }
}

impl<R> Default for Host<R> {
    fn default() -> (res: Self)
        ensures
            res@ == Map::<u128, R>::empty(),
    {
        Host { sessions: HashMap::new() }
    }
}

impl<R: Clone> Host<R> {
    /// Hands a message from `sender` to each session that `filter` admits.
    fn send_message(&self, sender: Option<Sender>, msg: &str, filter: Option<MessageFilter>) -> (out:
        Vec<Delivery<R, HostMessage>>)
        ensures
            delivers(out@, self@, filter, MessageView { sender: sender_view(sender), msg: msg@ }),
    {
        let message = HostMessage { sender, msg: msg.to_owned() };
        route(&self.sessions, &filter, &message)
    }

    /// A chat line from a session goes to every other connected session,
    /// marked with its user's name or as anonymous.
    pub fn handle_client_message(&self, msg: ClientMessage) -> (out: Vec<Delivery<R, HostMessage>>)
        ensures
            delivers(
                out@,
                self@,
                Some(MessageFilter::Exclude(msg.id)),
                MessageView { sender: sender_view(Some(author(msg.name))), msg: msg.msg@ },
            ),
    {
        let sender = match msg.name {
            Some(name) => Sender::User { name },
            None => Sender::Anonymous,
        };
        self.send_message(Some(sender), msg.msg.as_str(), Some(MessageFilter::Exclude(msg.id)))
    }

    /// A session registers: each session connected before it hears of it from
    /// the server, then the newcomer joins under its id.
    pub fn handle_connect(&mut self, msg: Connect<R>) -> (out: Vec<Delivery<R, HostMessage>>)
        ensures
            delivers(
                out@,
                old(self)@,
                None,
                MessageView { sender: None, msg: connected_notice() },
            ),
            final(self)@ == old(self)@.insert(msg.id, msg.addr),
    {
        let out = self.send_message(None, "Someone connected!", None);
        self.sessions.insert(msg.id, msg.addr);
        out
    }

    /// A session leaves the host.
    pub fn handle_disconnect(&mut self, msg: Disconnect)
        ensures
            final(self)@ == old(self)@.remove(msg.id),
    {
        self.sessions.remove(&msg.id);
    }
}

/// Disconnect undoes Connect: a host that registers a session under a free
/// id (as `handle_connect` leaves it) and then lets it go (as
/// `handle_disconnect` leaves it) holds the same sessions, with the same
/// handles, as before.
pub proof fn disconnect_undoes_connect<R>(
    before: Host<R>,
    connected: Host<R>,
    after: Host<R>,
    id: u128,
    addr: R,
)
    requires
        !before@.contains_key(id),
        connected@ == before@.insert(id, addr),
        after@ == connected@.remove(id),
    ensures
        after@ == before@,
{
    assert(before@.insert(id, addr).remove(id) =~= before@);
}

/// A chat line never comes back to the session that wrote it, and reaches
/// every other connected session once.
pub proof fn no_echo_to_author<R: Clone, M>(
    out: Seq<Delivery<R, M>>,
    sessions: Map<u128, R>,
    author: u128,
)
    requires
        reaches(out, sessions, Some(MessageFilter::Exclude(author))),
    ensures
        forall|i: int| 0 <= i < out.len() ==> (#[trigger] out[i]).to != author,
        forall|id: u128|
            sessions.contains_key(id) && id != author ==> exists|i: int|
                0 <= i < out.len() && (#[trigger] out[i]).to == id,
        forall|i: int, j: int| 0 <= i < j < out.len() ==> out[i].to != out[j].to,
{
    assert forall|id: u128| sessions.contains_key(id) && id != author implies exists|i: int|
        0 <= i < out.len() && (#[trigger] out[i]).to == id by {
        assert(admits(Some(MessageFilter::Exclude(author)), id));
    }
}

/// The notice of a new connection reaches the sessions connected before it
/// and not the newcomer, where its id was free.
pub proof fn newcomer_not_notified<R: Clone, M>(
    out: Seq<Delivery<R, M>>,
    sessions: Map<u128, R>,
    id: u128,
)
    requires
        reaches(out, sessions, None),
        !sessions.contains_key(id),
    ensures
        forall|i: int| 0 <= i < out.len() ==> (#[trigger] out[i]).to != id,
{
}

/// A relayed chat line shows its author: every delivery carries the line's
/// text unchanged, and the page labels it with the user's name where the
/// session had one, or as `Anonymous`.
pub proof fn relayed_line_shows_its_author<R: Clone>(
    out: Seq<Delivery<R, HostMessage>>,
    sessions: Map<u128, R>,
    msg: ClientMessage,
)
    requires
        delivers(
            out,
            sessions,
            Some(MessageFilter::Exclude(msg.id)),
            MessageView { sender: sender_view(Some(author(msg.name))), msg: msg.msg@ },
        ),
    ensures
        forall|i: int| 0 <= i < out.len() ==> (#[trigger] out[i]).msg@.msg == msg.msg@,
        forall|i: int|
            0 <= i < out.len() ==> (#[trigger] out[i]).msg@.sender == Some(
                match name_view(msg.name) {
                    Some(n) => SenderView::User(n),
                    None => SenderView::Anonymous,
                },
            ),
        forall|i: int|
            0 <= i < out.len() ==> label((#[trigger] out[i]).msg@.sender) == match name_view(
                msg.name,
            ) {
                Some(n) => n,
                None => "Anonymous"@,
            },
{
}

} // verus!
