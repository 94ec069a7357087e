//! The message bridge: decides, for each event delivered by the message
//! bus, whether it carries text for the display, and decodes the payload.
//!
//! An event whose topic holds the set-text suffix yields the payload
//! decoded as UTF-8 with lossy substitution of invalid sequences; events
//! without a topic or on other topics are ignored. The caller forwards the
//! yielded text to the control loop over its handoff channel.

use vstd::prelude::*;
use vstd::utf8::{valid_utf8, decode_utf8};
use crate::strutil::{contains_seq, str_contains};

verus! {

/// The topic fragment that marks an inbound set-text message.
pub const SET_TEXT_FRAGMENT: &'static str = "set-text";

/// What `String::from_utf8_lossy` makes of a byte sequence: a function of
/// the bytes alone.
pub uninterp spec fn utf8_lossy(bytes: Seq<u8>) -> Seq<char>;

/// Relies on `String::from_utf8_lossy`: the decoding depends on the bytes
/// alone, and bytes that already are valid UTF-8 decode to exactly the
/// characters they encode.
#[verifier::external_body]
fn decode_utf8_lossy(data: &[u8]) -> (r: String)
    ensures
        r@ == utf8_lossy(data@),
        valid_utf8(data@) ==> r@ == decode_utf8(data@),
{
    String::from_utf8_lossy(data).into_owned()
}

/// Decide what an inbound message-bus data event means for the display:
/// an event on a topic holding the set-text fragment yields its payload,
/// decoded as UTF-8 with lossy substitution; every other event yields
/// nothing. Never an error: unrelated or malformed topics are ignored.
pub fn handle_mqtt_message(topic: Option<&str>, data: &[u8]) -> (r: Option<String>)
    ensures
        r is Some <==> (topic matches Some(t) && contains_seq(t@, SET_TEXT_FRAGMENT@)),
        r matches Some(s) ==> s@ == utf8_lossy(data@),
        r matches Some(s) ==> (valid_utf8(data@) ==> s@ == decode_utf8(data@)),
{
    match topic {
        Some(t) => {
            if str_contains(t, SET_TEXT_FRAGMENT) {
                Some(decode_utf8_lossy(data))
            } else {
                None
            }
        },
        None => None,
    }
}

} // verus!
