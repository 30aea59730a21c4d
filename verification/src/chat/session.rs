//! The first session: the server's side of one browser's websocket, which
//! echoes each text frame back to its browser.

use vstd::prelude::*;

use crate::chat::frame::{item_view, Action, ActionView, Frame, FrameView};
use crate::chat::ids::{is_v4_uuid, new_v4_id};
use crate::chat::server::{Disconnect, ServerMessage};

verus! {

/// One browser's session: its id once the server has accepted it and the
/// handle `addr` on the server.
pub struct Session<A> {
    id: Option<u128>,
    addr: A,
}

/// A session as plain values.
pub struct EchoSessionView<A> {
    pub id: Option<u128>,
    pub addr: A,
}

impl<A> View for Session<A> {
    type V = EchoSessionView<A>;

    closed spec fn view(&self) -> EchoSessionView<A> {
        EchoSessionView { id: self.id, addr: self.addr }
    }
}

/// What the session does with a received item: answer pings, send each
/// text back, close on a close frame, stop on a continuation frame, and skip
/// the rest.
pub open spec fn echo_step(item: Result<FrameView, ()>) -> ActionView {
    match item {
        Err(_) => ActionView::Nothing,
        Ok(FrameView::Ping(p)) => ActionView::Pong(p),
        Ok(FrameView::Pong) => ActionView::Nothing,
        Ok(FrameView::Text(t)) => ActionView::Text(t),
        Ok(FrameView::Binary) => ActionView::Nothing,
        Ok(FrameView::Close(r)) => ActionView::CloseAndStop(r),
        Ok(FrameView::Continuation) => ActionView::Stop,
        Ok(FrameView::Nop) => ActionView::Nothing,
    }
}

impl<A> Session<A> {
    /// A session that talks to the server through `addr`, not yet registered.
    pub fn new(addr: A) -> (res: Self)
        ensures
            res@ == (EchoSessionView { id: None, addr: addr }),
    {
        Session { id: None, addr }
    }

    /// The handle on the server.
    pub fn addr(&self) -> (res: &A)
        ensures
            *res == self@.addr,
    {
        &self.addr
    }

    /// A fresh id under which the session asks the server to register it.
    pub fn connect_id(&self) -> (id: u128)
        ensures
            is_v4_uuid(id),
    {
        new_v4_id()
    }

    /// The server's answer to the registration under `id`: where the request
    /// was not delivered the session stops (`true`), else it keeps `id`.
    pub fn connected(&mut self, id: u128, delivered: bool) -> (stop: bool)
        ensures
            stop == !delivered,
            delivered ==> final(self)@ == (EchoSessionView { id: Some(id), addr: old(self)@.addr }),
            !delivered ==> final(self)@ == old(self)@,
    {
        if !delivered {
            true
        } else {
            self.id = Some(id);
            false
        }
    }

    /// The message to the server that a stopping session sends: a registered
    /// session leaves, an unregistered one sends nothing.
    pub fn stopping(&self) -> (res: Option<Disconnect>)
        ensures
            match self@.id {
                Some(id) => res == Some(Disconnect { id: id }),
                None => res is None,
            },
    {
        match self.id {
            Some(id) => Some(Disconnect { id }),
            None => None,
        }
    }

    /// The text frame that passes a server message on to the browser.
    pub fn on_server_message(&self, msg: ServerMessage) -> (res: String)
        ensures
            res == msg.0,
    {
        msg.0
    }

    /// What the session does with a received item; it keeps no state.
    pub fn handle(&mut self, item: Result<Frame, ()>) -> (res: Action)
        ensures
            res@ == echo_step(item_view(item)),
            final(self)@ == old(self)@,
    {
        let frame = match item {
            Ok(frame) => frame,
            Err(_) => {
                return Action::Nothing;
            },
        };
        match frame {
            Frame::Ping(p) => Action::Pong(p),
            Frame::Pong => Action::Nothing,
            Frame::Text(text) => Action::Text(text),
            Frame::Binary => Action::Nothing,
            Frame::Close(reason) => Action::CloseAndStop(reason),
            Frame::Continuation => Action::Stop,
            Frame::Nop => Action::Nothing,
        }
    }
}

} // verus!
