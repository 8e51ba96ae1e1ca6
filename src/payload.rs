use vstd::prelude::*;
use vstd::string::{StrSliceExecFns, StringSliceAdditionalSpecFns};

verus! {

/// The line-feed byte.
pub const LINE_FEED: u8 = 10;

/// The text handed to the open callback when a connection is established.
pub const OPEN_GREETING: &'static str = "WS Connected";

/// The reply sent to a client that sent a frame that is not text.
pub const INVALID_TYPE_REPLY: &'static str = "{\"ws_error\":\"Invalid WS Message Type\"}";

/// The close reason used when the watchdog drops a silent connection.
pub const TIMEOUT_REASON: &'static str = "Timeout";

/// `bytes` terminated by a single nul byte.
pub open spec fn c_string(bytes: Seq<u8>) -> Seq<u8> {
    bytes.push(0)
}

/// A non-empty text payload as the message callback receives it: a line
/// feed is added unless the payload already ends in one, then a nul byte.
pub open spec fn normalized(m: Seq<u8>) -> Seq<u8> {
    if m.len() > 0 && m.last() == LINE_FEED {
        c_string(m)
    } else {
        c_string(m.push(LINE_FEED))
    }
}

/// The UTF-8 bytes of `text` followed by a nul byte.
pub fn to_c_bytes(text: &str) -> (r: Vec<u8>)
    ensures
        r@ == c_string(text.spec_bytes()),
{
    let mut bytes = text.as_bytes_vec();
    bytes.push(0);
    bytes
}

/// The bytes the message callback receives for a text payload, or `None`
/// for an empty payload, which is dropped.
pub fn normalize_message(text: &str) -> (r: Option<Vec<u8>>)
    ensures
        text.spec_bytes().len() == 0 <==> r.is_none(),
        r matches Some(b) ==> b@ == normalized(text.spec_bytes()),
{
    let mut bytes = text.as_bytes_vec();
    let n = bytes.len();
    if n == 0 {
        return None;
    }
    if bytes[n - 1] != LINE_FEED {
        bytes.push(LINE_FEED);
    }
    bytes.push(0);
    Some(bytes)
}

} // verus!
