//! The page's connection to the chat server.

use vstd::prelude::*;
use vstd::string::*;

verus! {

/// The websocket scheme that matches the page's scheme: `wss:` under
/// `https:`, `ws:` under anything else.
pub open spec fn websocket_scheme(page_protocol: Seq<char>) -> Seq<char> {
    if page_protocol == "https:"@ {
        "wss:"@
    } else {
        "ws:"@
    }
}

/// The address of the chat's websocket on the host that served the page.
pub open spec fn websocket_address(page_protocol: Seq<char>, host: Seq<char>) -> Seq<char> {
    websocket_scheme(page_protocol) + "//"@ + host + "/ws"@
}

/// The address of the chat's websocket, from the page's protocol (such as
/// `https:`) and host (such as `example.com:8080`).
pub fn websocket_url(page_protocol: &str, host: &str) -> (res: String)
    ensures
        res@ == websocket_address(page_protocol@, host@),
{
    let mut url = if String::from_str(page_protocol) == String::from_str("https:") {
        String::from_str("wss:")
    } else {
        String::from_str("ws:")
    };
    url.append("//");
    url.append(host);
    url.append("/ws");
    url
}

} // verus!
