//! The main control loop's per-iteration decision: apply a possibly
//! delivered text to the stored display text, then render the next frame.
//!
//! A delivered text that pads to the value already stored is discarded:
//! the renderer keeps its window position, no power command is issued, and
//! the animation runs on uninterrupted. A text that differs is classified
//! into a power command, padded, stored, and the scroll window restarts.
//! A frame is rendered on every iteration, whether or not text arrived, so
//! the animation advances even under a static message.

use vstd::prelude::*;
use crate::scroll::{frame_of, next_cursor, ScrollRenderer};
use crate::strutil::str_eq;
use crate::text::{pad_spec, pad_text, power_command_for, power_command_spec, PowerCommand};

verus! {

/// Milliseconds the loop waits for a delivered text before it renders the
/// next frame anyway; bounds the frame latency of the animation.
pub const RECV_TIMEOUT_MS: u32 = 500;

/// Apply one delivered text to the stored text. A text whose padded value
/// equals the stored text is a no-op; any other delivery stores its padded
/// value, restarts the scroll window and asks for a power command.
pub fn apply_incoming(r: &mut ScrollRenderer, t: &str) -> (cmd: Option<PowerCommand>)
    ensures
        pad_spec(t@) == old(r).text_view() ==> (*final(r) == *old(r) && cmd is None),
        pad_spec(t@) != old(r).text_view() ==> {
            &&& final(r).text_view() == pad_spec(t@)
            &&& final(r).cursor_view() == 0
            &&& cmd == Some(power_command_spec(t@))
        },
{
    let padded = pad_text(t);
    if str_eq(padded.as_str(), r.text_str()) {
        return None;
    }
    let cmd = power_command_for(t);
    *r = ScrollRenderer::new(padded.as_str());
    Some(cmd)
}

/// One iteration of the main control loop, after the wait for inbound
/// text: apply a delivered text, if any, then render the next frame from
/// the possibly restarted renderer.
pub fn control_step(r: &mut ScrollRenderer, incoming: Option<&str>) -> (res: (String, Option<
    PowerCommand,
>))
    ensures
        (match incoming {
            Some(t) => pad_spec(t@) != old(r).text_view(),
            None => false,
        }) ==> {
            let t = incoming->Some_0;
            &&& final(r).text_view() == pad_spec(t@)
            &&& res.0@ == frame_of(pad_spec(t@), 0)
            &&& final(r).cursor_view() == next_cursor(pad_spec(t@), 0)
            &&& res.1 == Some(power_command_spec(t@))
        },
        (match incoming {
            Some(t) => pad_spec(t@) == old(r).text_view(),
            None => true,
        }) ==> {
            &&& final(r).text_view() == old(r).text_view()
            &&& res.0@ == frame_of(old(r).text_view(), old(r).cursor_view())
            &&& final(r).cursor_view() == next_cursor(old(r).text_view(), old(r).cursor_view())
            &&& res.1 is None
        },
{
    let cmd = match incoming {
        Some(t) => apply_incoming(r, t),
        None => None,
    };
    let frame = r.next_frame();
    (frame, cmd)
}

} // verus!
