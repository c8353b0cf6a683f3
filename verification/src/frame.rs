//! Frames: what the light sends when its button moves.
//!
//! A read from the light yields up to eight bytes. Two contents matter, the
//! frame sent when the button goes down and the frame sent when it comes up.
//! Anything else, a short read included, means that nothing happened during
//! the poll.

use vstd::prelude::*;

verus! {

/// Number of bytes in a button frame.
pub const FRAME_LEN: usize = 8;

/// The frame sent when the button is pressed.
pub const BUTTON_PRESSED: [u8; 8] = [131, 1, 0, 0, 0, 0, 0, 0];

/// The frame sent when the button is released.
pub const BUTTON_RELEASED: [u8; 8] = [131, 0, 0, 0, 0, 0, 0, 0];

/// What one read from the light says about the button.
#[derive(Clone, Copy, Debug, PartialEq, Eq, Structural)]
pub enum Signal {
    /// The button went down.
    Pressed,
    /// The button came up.
    Released,
    /// Nothing happened during the poll.
    Idle,
}

/// The meaning of the bytes that a read returned.
pub open spec fn signal_of(frame: Seq<u8>) -> Signal {
    if frame == BUTTON_PRESSED@ {
        Signal::Pressed
    } else if frame == BUTTON_RELEASED@ {
        Signal::Released
    } else {
        Signal::Idle
    }
}

/// Tells whether `frame` holds exactly the bytes of `expected`.
fn same_bytes(frame: &[u8], expected: &[u8; 8]) -> (same: bool)
    ensures
        same == (frame@ == expected@),
{
    if frame.len() != FRAME_LEN {
        return false;
    }
    let mut index: usize = 0;
    while index < FRAME_LEN
        invariant
            index <= FRAME_LEN,
            frame.len() == FRAME_LEN,
            forall|seen: int| 0 <= seen < index ==> frame@[seen] == expected@[seen],
        decreases FRAME_LEN - index,
    {
        if frame[index] != expected[index] {
            return false;
        }
        index += 1;
    }
    assert(frame@ =~= expected@);
    true
}

/// Reads the meaning off the bytes that a read returned. `frame` holds the
/// bytes that were read and no others.
pub fn classify(frame: &[u8]) -> (signal: Signal)
    ensures
        signal == signal_of(frame@),
{
    if same_bytes(frame, &BUTTON_PRESSED) {
        Signal::Pressed
    } else if same_bytes(frame, &BUTTON_RELEASED) {
        Signal::Released
    } else {
        Signal::Idle
    }
}

/// The two frames differ, so no read means both.
pub proof fn lemma_frames_differ()
    ensures
        BUTTON_PRESSED@ != BUTTON_RELEASED@,
        signal_of(BUTTON_PRESSED@) == Signal::Pressed,
        signal_of(BUTTON_RELEASED@) == Signal::Released,
{
}

} // verus!
