//! The scroll renderer: a cyclic, fixed-width window over a stored text.
//!
//! Each call to [`ScrollRenderer::next_frame`] yields one display-width
//! frame and moves the window forward by one character, wrapping back to
//! the start of the text. Text that fits the display is shown without
//! movement (repeated cyclically to fill the frame), so a static message
//! stays still while longer text scrolls forever. A new renderer always
//! starts with the window at the beginning of the text.

use vstd::prelude::*;
use vstd::string::StrSliceExecFns;
use crate::text::DISPLAY_WIDTH;

verus! {

/// The frame shown when the window stands at `start`: `DISPLAY_WIDTH`
/// characters of `text` read cyclically from `start`. Empty text gives an
/// empty frame.
pub open spec fn frame_of(text: Seq<char>, start: nat) -> Seq<char> {
    if text.len() == 0 {
        Seq::empty()
    } else {
        Seq::new(DISPLAY_WIDTH as nat, |k: int| text[((start + k) % (text.len() as int))])
    }
}

/// Where the window stands after one advance from `cur`: text that fits
/// the display never moves; longer text moves forward one character,
/// wrapping at the end of the text.
pub open spec fn next_cursor(text: Seq<char>, cur: nat) -> nat {
    if text.len() <= DISPLAY_WIDTH {
        0
    } else {
        (((cur + 1) as int) % (text.len() as int)) as nat
    }
}

/// Where the window stands after `n` frames of a fresh renderer.
pub open spec fn nth_cursor(text: Seq<char>, n: nat) -> nat {
    if text.len() <= DISPLAY_WIDTH {
        0
    } else {
        ((n as int) % (text.len() as int)) as nat
    }
}

/// A repeating, fixed-width window over an owned text.
pub struct ScrollRenderer {
    text: String,
    cursor: usize,
}

impl ScrollRenderer {
    #[verifier::type_invariant]
    spec fn wf(self) -> bool {
        if self.text@.len() <= DISPLAY_WIDTH {
            self.cursor == 0
        } else {
            self.cursor < self.text@.len()
        }
    }

    /// The text the window runs over.
    pub closed spec fn text_view(self) -> Seq<char> {
        self.text@
    }

    /// The current window position.
    pub closed spec fn cursor_view(self) -> nat {
        self.cursor as nat
    }

    /// The stored text the window runs over.
    pub fn text_str(&self) -> (r: &str)
        ensures
            r@ == self.text_view(),
    {
        self.text.as_str()
    }

    /// A fresh renderer starts with the window at the beginning of the text.
    pub fn new(text: &str) -> (r: Self)
        ensures
            r.text_view() == text@,
            r.cursor_view() == 0,
    {
        ScrollRenderer { text: text.to_owned(), cursor: 0 }
    }

    /// Render the frame at the current window position, then advance the
    /// window by one character, wrapping cyclically; text that fits the
    /// display does not move.
    pub fn next_frame(&mut self) -> (frame: String)
        ensures
            final(self).text_view() == old(self).text_view(),
            frame@ == frame_of(old(self).text_view(), old(self).cursor_view()),
            final(self).cursor_view() == next_cursor(old(self).text_view(), old(self).cursor_view()),
    {
        proof {
            use_type_invariant(&*self);
        }
        let len = self.text.as_str().unicode_len();
        let mut frame = String::new();
        if len == 0 {
            return frame;
        }
        let mut pos: usize = self.cursor;
        let mut k: usize = 0;
        proof {
            vstd::arithmetic::div_mod::lemma_small_mod(self.cursor as nat, len as nat);
        }
        while k < DISPLAY_WIDTH
            invariant
                0 < len == self.text@.len(),
                self.cursor < len,
                pos < len,
                k <= DISPLAY_WIDTH,
                pos == (self.cursor + k) % (len as int),
                frame@ =~= Seq::new(k as nat, |m: int| self.text@[((self.cursor + m) % (len as int))]),
            decreases DISPLAY_WIDTH - k,
        {
            let c = self.text.as_str().get_char(pos);
            frame.push(c);
            proof {
                vstd::arithmetic::div_mod::lemma_add_mod_noop_right(
                    1, (self.cursor + k) as int, len as int);
                if pos + 1 < len {
                    vstd::arithmetic::div_mod::lemma_small_mod((pos + 1) as nat, len as nat);
                } else {
                    vstd::arithmetic::div_mod::lemma_mod_self_0(len as int);
                }
            }
            pos = pos + 1;
            if pos == len {
                pos = 0;
            }
            k = k + 1;
        }
        if len > DISPLAY_WIDTH {
            proof {
                if self.cursor + 1 < len {
                    vstd::arithmetic::div_mod::lemma_small_mod((self.cursor + 1) as nat, len as nat);
                } else {
                    vstd::arithmetic::div_mod::lemma_mod_self_0(len as int);
                }
            }
            let mut moved: usize = self.cursor + 1;
            if moved == len {
                moved = 0;
            }
            self.cursor = moved;
        }
        frame
    }
}

/// Law: the scroll sequence is restartable. Two renderers built from the
/// same text start at the same window position, so their first frames are
/// the same value, `frame_of(text, 0)`.
pub proof fn lemma_scroll_restartable(text: Seq<char>)
    ensures
        nth_cursor(text, 0) == 0,
        frame_of(text, nth_cursor(text, 0)) == frame_of(text, 0),
{
}

/// Law: the window position, and with it the frame, repeats with a period
/// of the text length: frame `n + text.len()` of a fresh renderer equals
/// frame `n`, so the frame sequence is infinite and cyclic.
pub proof fn lemma_scroll_period(text: Seq<char>, n: nat)
    requires
        text.len() > 0,
    ensures
        nth_cursor(text, (n + text.len()) as nat) == nth_cursor(text, n),
        frame_of(text, nth_cursor(text, (n + text.len()) as nat)) == frame_of(text, nth_cursor(text, n)),
{
    if text.len() > DISPLAY_WIDTH {
        vstd::arithmetic::div_mod::lemma_mod_add_multiples_vanish(n as int, text.len() as int);
    }
}

/// Law: a renderer's cursor follows `nth_cursor`: the cursor after `n`
/// frames, advanced once more, is the cursor after `n + 1` frames.
pub proof fn lemma_cursor_progression(text: Seq<char>, n: nat)
    ensures
        next_cursor(text, nth_cursor(text, n)) == nth_cursor(text, (n + 1) as nat),
{
    if text.len() > DISPLAY_WIDTH {
        let len = text.len() as int;
        vstd::arithmetic::div_mod::lemma_mod_bound(n as int, len);
        assert((n as int % len + 1) % len == (n as int + 1) % len) by {
            vstd::arithmetic::div_mod::lemma_add_mod_noop_right(1, n as int, len);
        };
    }
}

} // verus!
