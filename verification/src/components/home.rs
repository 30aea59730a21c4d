//! The chat page: its list of messages, how it labels them, and when it
//! lets the user send.

use vstd::prelude::*;
use vstd::string::*;

use crate::chat::ids::{is_v4_uuid, new_v4_id};
use crate::chat::message::{Sender, SenderView, sender_view};

verus! {

/// The label above a received message: its user's name, `Anonymous`, or
/// `Server` for a message from the server itself.
pub open spec fn label(sender: Option<SenderView>) -> Seq<char> {
    match sender {
        None => "Server"@,
        Some(SenderView::Anonymous) => "Anonymous"@,
        Some(SenderView::User(name)) => name,
    }
}

/// The label above a received message.
pub fn sender_label(sender: &Option<Sender>) -> (res: String)
    ensures
        res@ == label(sender_view(*sender)),
{
    match sender {
        Some(s) => match s {
            Sender::Anonymous => String::from_str("Anonymous"),
            Sender::User { name } => name.value().to_owned(),
        },
        None => String::from_str("Server"),
    }
}

/// Whether the send button is disabled: while the input is empty.
pub fn send_disabled(input: &str) -> (res: bool)
    ensures
        res == (input@.len() == 0),
{
    input.is_empty()
}

/// An entry of the page's conversation: a line the user sent, or a message
/// `M` received from the server.
#[derive(Debug, Clone)]
pub enum Message<M> {
    Me(String),
    Server(M),
}

/// The conversation grew by one entry: `entry`, under a fresh random key.
pub open spec fn appended<M>(
    before: Seq<(u128, Message<M>)>,
    after: Seq<(u128, Message<M>)>,
    entry: Message<M>,
) -> bool {
    &&& after.len() == before.len() + 1
    &&& after.drop_last() == before
    &&& after.last().1 == entry
    &&& is_v4_uuid(after.last().0)
}

/// Records a line that the user sent, at the end of the conversation.
pub fn record_sent<M>(messages: &mut Vec<(u128, Message<M>)>, msg: String)
    ensures
        appended(old(messages)@, final(messages)@, Message::Me(msg)),
{
    let key = new_v4_id();
    messages.push((key, Message::Me(msg)));
    proof {
        assert(messages@.drop_last() =~= old(messages)@);
    }
}

/// Records a message received from the server, at the end of the
/// conversation.
pub fn record_received<M>(messages: &mut Vec<(u128, Message<M>)>, msg: M)
    ensures
        appended(old(messages)@, final(messages)@, Message::Server(msg)),
{
    let key = new_v4_id();
    messages.push((key, Message::Server(msg)));
    proof {
        assert(messages@.drop_last() =~= old(messages)@);
    }
}

} // verus!
