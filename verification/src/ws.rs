//! What the page sends over the websocket.

use vstd::prelude::*;

use crate::chat::json::{encode_json_string, json_string, json_string_decoding};

verus! {

/// The websocket text that carries the chat line `msg`: the line as a JSON
/// string, from which the server reads `msg` back.
pub fn encode_client_message(msg: &str) -> (res: String)
    ensures
        res@ == json_string(msg@),
        json_string_decoding(res@) == Some(msg@),
{
    encode_json_string(msg)
}

} // verus!
