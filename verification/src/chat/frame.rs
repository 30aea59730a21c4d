//! Websocket frames as a session receives them, and what a session does in
//! response.

use vstd::prelude::*;

use crate::chat::server::host::{ClientMessage, ClientMessageView};

verus! {

/// Why a peer closes a websocket: the status code and an optional text.
#[derive(Debug)]
pub struct CloseReason {
    pub code: u16,
    pub description: Option<String>,
}

/// A websocket frame, with the parts of it that a session reads.
#[derive(Debug)]
pub enum Frame {
    Text(String),
    Binary,
    Continuation,
    Ping(Vec<u8>),
    Pong,
    Close(Option<CloseReason>),
    Nop,
}

/// A frame as plain values.
pub enum FrameView {
    Text(Seq<char>),
    Binary,
    Continuation,
    Ping(Seq<u8>),
    Pong,
    Close(Option<CloseReason>),
    Nop,
}

impl View for Frame {
    type V = FrameView;

    open spec fn view(&self) -> FrameView {
        match self {
            Frame::Text(t) => FrameView::Text(t@),
            Frame::Binary => FrameView::Binary,
            Frame::Continuation => FrameView::Continuation,
            Frame::Ping(p) => FrameView::Ping(p@),
            Frame::Pong => FrameView::Pong,
            Frame::Close(r) => FrameView::Close(*r),
            Frame::Nop => FrameView::Nop,
        }
    }
}

/// The plain value of a received item: a frame, or `Err` where the websocket
/// protocol was broken.
pub open spec fn item_view(item: Result<Frame, ()>) -> Result<FrameView, ()> {
    match item {
        Ok(f) => Ok(f@),
        Err(e) => Err(e),
    }
}

/// What a session does after a frame or a message: nothing, answer a ping,
/// send a text frame to its browser, relay a chat line to the host, print a
/// line on the server's console, close the websocket and stop, or stop.
#[derive(Debug)]
pub enum Action {
    Nothing,
    Pong(Vec<u8>),
    Text(String),
    ToHost(ClientMessage),
    Print(String),
    CloseAndStop(Option<CloseReason>),
    Stop,
}

/// An action as plain values.
pub enum ActionView {
    Nothing,
    Pong(Seq<u8>),
    Text(Seq<char>),
    ToHost(ClientMessageView),
    Print(Seq<char>),
    CloseAndStop(Option<CloseReason>),
    Stop,
}

impl View for Action {
    type V = ActionView;

    open spec fn view(&self) -> ActionView {
        match self {
            Action::Nothing => ActionView::Nothing,
            Action::Pong(p) => ActionView::Pong(p@),
            Action::Text(t) => ActionView::Text(t@),
            Action::ToHost(m) => ActionView::ToHost(m@),
            Action::Print(t) => ActionView::Print(t@),
            Action::CloseAndStop(r) => ActionView::CloseAndStop(*r),
            Action::Stop => ActionView::Stop,
        }
    }
}

} // verus!
