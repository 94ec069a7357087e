//! The loading animation shown while the wireless link comes up: a single
//! marker character moving through a field of placeholder characters, one
//! step per poll tick, wrapping around after the last position.

use vstd::prelude::*;
use crate::text::DISPLAY_WIDTH;

verus! {

/// The marker character of the animation.
pub const MARKER: char = '*';

/// The character filling every non-marker position.
pub const FILLER: char = 'O';

/// The animation frame with the marker at position `i`: a display-width
/// field of filler characters with the single marker at `i`.
pub open spec fn loading_frame_spec(i: int) -> Seq<char> {
    Seq::new(DISPLAY_WIDTH as nat, |k: int| if k == i { MARKER } else { FILLER })
}

/// The rotating marker position of the loading animation.
pub struct LoadingAnimation {
    index: usize,
}

impl LoadingAnimation {
    #[verifier::type_invariant]
    spec fn wf(self) -> bool {
        self.index < DISPLAY_WIDTH
    }

    /// The current marker position; always below `DISPLAY_WIDTH`.
    pub closed spec fn index_view(self) -> nat {
        self.index as nat
    }

    /// The animation starts with the marker at the first position.
    pub fn new() -> (r: Self)
        ensures
            r.index_view() == 0,
    {
        LoadingAnimation { index: 0 }
    }

    /// Render the frame for the current marker position, then move the
    /// marker one position forward, wrapping after the last position.
    pub fn next_frame(&mut self) -> (frame: String)
        ensures
            frame@ == loading_frame_spec(old(self).index_view() as int),
            old(self).index_view() < DISPLAY_WIDTH,
            final(self).index_view() == (old(self).index_view() + 1) % (DISPLAY_WIDTH as nat),
    {
        proof {
            use_type_invariant(&*self);
        }
        let mut frame = String::new();
        let mut k: usize = 0;
        while k < DISPLAY_WIDTH
            invariant
                k <= DISPLAY_WIDTH,
                frame@ =~= loading_frame_spec(self.index as int).take(k as int),
            decreases DISPLAY_WIDTH - k,
        {
            if k == self.index {
                frame.push('*');
            } else {
                frame.push('O');
            }
            proof {
                assert(frame@ =~= loading_frame_spec(self.index as int).take(k + 1));
            }
            k = k + 1;
        }
        proof {
            assert(frame@ =~= loading_frame_spec(self.index as int));
        }
        self.index = (self.index + 1) % DISPLAY_WIDTH;
        frame
    }
}

/// Law: every animation frame holds exactly one marker: the frame is
/// display-wide, carries the marker at the frame's own position, and the
/// filler everywhere else.
pub proof fn lemma_loading_frame_single_marker(i: int)
    requires
        0 <= i < DISPLAY_WIDTH,
    ensures
        loading_frame_spec(i).len() == DISPLAY_WIDTH,
        forall|k: int| 0 <= k < DISPLAY_WIDTH ==>
            (loading_frame_spec(i)[k] == MARKER <==> k == i),
{
}

} // verus!
