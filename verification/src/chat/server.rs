//! The first chat server: a hub that tells every connected session when
//! another one connects. Its successor, the host, lives in `host`.

use std::collections::HashMap;
use vstd::prelude::*;

use crate::chat::route::{reaches, route, Delivery};

pub mod host;
pub mod session;

verus! {

broadcast use vstd::std_specs::hash::group_hash_axioms;

/// A text that the server hands to a session.
#[derive(Debug)]
pub struct ServerMessage(pub String);

impl Clone for ServerMessage {
    fn clone(&self) -> (res: Self)
        ensures
            res == *self,
    {
        ServerMessage(self.0.clone())
    }
}

/// A text that the session `id` sends to the server.
#[derive(Debug)]
pub struct ClientMessage {
    pub id: u128,
    pub msg: String,
}

/// A session registers with the server under `id`, with the handle `addr` on
/// its mailbox.
pub struct Connect<R> {
    pub id: u128,
    pub addr: R,
}

/// The session `id` leaves the server.
pub struct Disconnect {
    pub id: u128,
}

/// The server: the connected sessions, each by its id with a handle on its
/// mailbox.
pub struct Server<R> {
    sessions: HashMap<u128, R>,
}

impl<R> View for Server<R> {
    type V = Map<u128, R>;

    closed spec fn view(&self) -> Map<u128, R> {
        self.sessions@
    }
}

/// `out` hands the text `msg` once to each session of `sessions`.
pub open spec fn broadcasts<R: Clone>(
    out: Seq<Delivery<R, ServerMessage>>,
    sessions: Map<u128, R>,
    msg: Seq<char>,
) -> bool {
    &&& reaches(out, sessions, None)
    &&& forall|i: int| 0 <= i < out.len() ==> (#[trigger] out[i]).msg.0@ == msg
}

impl<R> Default for Server<R> {
    fn default() -> (res: Self)
        ensures
            res@ == Map::<u128, R>::empty(),
    {
        Server { sessions: HashMap::new() }
    }
}

impl<R: Clone> Server<R> {
    /// Hands `msg` to every connected session.
    fn send_message(&self, msg: &str) -> (out: Vec<Delivery<R, ServerMessage>>)
        ensures
            broadcasts(out@, self@, msg@),
    {
        let message = ServerMessage(msg.to_owned());
        route(&self.sessions, &None, &message)
    }

    /// A session registers: each session connected before it hears of it,
    /// then the newcomer joins under its id.
    pub fn handle_connect(&mut self, msg: Connect<R>) -> (out: Vec<Delivery<R, ServerMessage>>)
        ensures
            broadcasts(out@, old(self)@, "Someone connected!"@),
            final(self)@ == old(self)@.insert(msg.id, msg.addr),
    {
        let out = self.send_message("Someone connected!");
        self.sessions.insert(msg.id, msg.addr);
        out
    }

    /// A session leaves the server.
    pub fn handle_disconnect(&mut self, msg: Disconnect)
        ensures
            final(self)@ == old(self)@.remove(msg.id),
    {
        self.sessions.remove(&msg.id);
    }
}

} // verus!
