//! Text policy of the display: blank classification and padding.
//!
//! An inbound text is classified before it is shown: a text made only of
//! blank-equivalent characters (space, comma, period) asks the display to
//! power off, anything else powers it on. A text shorter than the display
//! width is right-padded with the placeholder character to exactly the
//! display width; longer text passes through unchanged.

use vstd::prelude::*;
use vstd::string::StrSliceExecFns;

verus! {

/// Number of character positions the display can address.
pub const DISPLAY_WIDTH: usize = 12;

/// Character used to fill short text up to the display width.
pub const PLACEHOLDER: char = '.';

/// Power state the display is commanded into when a new text arrives.
#[derive(Clone, Copy, PartialEq, Eq, Structural, Debug)]
pub enum PowerCommand {
    On,
    Off,
}

/// Characters treated as blank for the power-off classification.
pub open spec fn is_blank_char(c: char) -> bool {
    c == ' ' || c == ',' || c == '.'
}

/// Every character of `t` is blank-equivalent. Holds vacuously of empty text.
pub open spec fn all_blank(t: Seq<char>) -> bool {
    forall|i: int| 0 <= i < t.len() ==> is_blank_char(t[i])
}

/// The power command a freshly delivered text asks for.
pub open spec fn power_command_spec(t: Seq<char>) -> PowerCommand {
    if all_blank(t) {
        PowerCommand::Off
    } else {
        PowerCommand::On
    }
}

/// Text as stored: right-padded with the placeholder up to the display
/// width; text at least as wide as the display is kept unchanged.
pub open spec fn pad_spec(t: Seq<char>) -> Seq<char> {
    if t.len() >= DISPLAY_WIDTH {
        t
    } else {
        t + Seq::new((DISPLAY_WIDTH - t.len()) as nat, |i: int| PLACEHOLDER)
    }
}

/// Classify a delivered text: power off exactly when every character is
/// blank-equivalent, power on otherwise.
pub fn power_command_for(t: &str) -> (cmd: PowerCommand)
    ensures
        cmd == power_command_spec(t@),
{
    let len = t.unicode_len();
    let mut i: usize = 0;
    while i < len
        invariant
            i <= len,
            len == t@.len(),
            forall|k: int| 0 <= k < i ==> is_blank_char(t@[k]),
        decreases len - i,
    {
        let c = t.get_char(i);
        if !(c == ' ' || c == ',' || c == '.') {
            return PowerCommand::On;
        }
        i = i + 1;
    }
    PowerCommand::Off
}

/// Right-pad `t` with the placeholder character to the display width.
pub fn pad_text(t: &str) -> (r: String)
    ensures
        r@ == pad_spec(t@),
{
    let len = t.unicode_len();
    let mut r = t.to_owned();
    if len >= DISPLAY_WIDTH {
        return r;
    }
    let mut i: usize = len;
    while i < DISPLAY_WIDTH
        invariant
            t@.len() <= i <= DISPLAY_WIDTH,
            r@ == t@ + Seq::new((i - t@.len()) as nat, |k: int| PLACEHOLDER),
        decreases DISPLAY_WIDTH - i,
    {
        r.push('.');
        proof {
            assert(r@ =~= t@ + Seq::new((i + 1 - t@.len()) as nat, |k: int| PLACEHOLDER));
        }
        i = i + 1;
    }
    r
}

/// Law: padding is idempotent. The stored text is always a padded value,
/// so a second delivery of the same text pads to the already stored value
/// and is discarded as a no-op.
pub proof fn lemma_pad_idempotent(t: Seq<char>)
    ensures
        pad_spec(pad_spec(t)) == pad_spec(t),
{
    assert(pad_spec(t).len() >= DISPLAY_WIDTH);
}

/// Law: padding keeps short text as a prefix and fills the rest with the
/// placeholder; text at least as wide as the display is left unchanged.
pub proof fn lemma_pad_shape(t: Seq<char>)
    ensures
        t.len() < DISPLAY_WIDTH ==> {
            &&& pad_spec(t).len() == DISPLAY_WIDTH
            &&& pad_spec(t).subrange(0, t.len() as int) == t
            &&& forall|i: int| t.len() <= i < DISPLAY_WIDTH ==> pad_spec(t)[i] == PLACEHOLDER
        },
        t.len() >= DISPLAY_WIDTH ==> pad_spec(t) == t,
{
    if t.len() < DISPLAY_WIDTH {
        assert(pad_spec(t).subrange(0, t.len() as int) =~= t);
    }
}

} // verus!
