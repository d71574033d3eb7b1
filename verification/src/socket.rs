//! The websocket channel between the API and its clients.
use vstd::prelude::*;

use crate::text::str_eq;

verus! {

/// The answer to a websocket text message: `ping` is answered with `pong`, anything else
/// is not answered.
pub fn socket_reply(text: &str) -> (r: Option<String>)
    ensures
        text@ == "ping"@ ==> (r matches Some(s) && s@ == "pong"@),
        text@ != "ping"@ ==> r is None,
{
    if str_eq(text, "ping") {
        Some("pong".to_owned())
    } else {
        None
    }
}

} // verus!
