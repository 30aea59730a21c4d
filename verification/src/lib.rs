//! Chat-r: a small websocket chat room.
//!
//! The verified part holds the chat rules: user names, the wire format of the
//! messages the server sends, how a session reacts to each websocket frame and
//! chat line, which sessions the host delivers each message to, and the
//! page's own small decisions.

pub mod app;
pub mod chat;
pub mod components;
pub mod ws;
