//! What passes between a detection and the session that drives it.
//!
//! A detection never touches the transport. It names the next thing to do on
//! it, a [`Command`], and is told how that went, an [`Event`]. The session
//! carries out one command at a time and hands back one event for each.

use crate::error::DeviceError;
use crate::frame::{classify, signal_of, Signal};
use vstd::prelude::*;

verus! {

/// Nanoseconds in a millisecond.
pub const NANOS_PER_MILLI: u128 = 1_000_000;

/// How a command on the transport went.
#[derive(Clone, Copy, Debug, PartialEq, Eq, Structural)]
pub enum Event {
    /// A read returned. `signal` is what the bytes mean; `at` is the moment
    /// the read returned, in nanoseconds on a clock that the session starts
    /// when it likes and never sets back.
    Frame { signal: Signal, at: u128 },
    /// A read failed.
    ReadFailed,
    /// A write completed.
    Written,
    /// A write did not complete.
    WriteFailed,
}

impl Event {
    /// The event for a read that returned `frame`, and no other bytes, at the
    /// moment `at`.
    pub fn frame(frame: &[u8], at: u128) -> (event: Event)
        ensures
            event == (Event::Frame { signal: signal_of(frame@), at }),
    {
        Event::Frame { signal: classify(frame), at }
    }

    /// The event for a write that completed, or did not.
    pub fn write(completed: bool) -> (event: Event)
        ensures
            event == if completed {
                Event::Written
            } else {
                Event::WriteFailed
            },
    {
        if completed {
            Event::Written
        } else {
            Event::WriteFailed
        }
    }
}

/// The next thing to do on the transport.
#[derive(Clone, Copy, Debug, PartialEq, Eq)]
pub enum Command {
    /// Read one frame, and give up after `timeout_ms` milliseconds.
    ReadTimeout { timeout_ms: i32 },
    /// Read one frame, however long it takes.
    ReadBlocking,
    /// Write this report, once.
    Write { report: [u8; 6] },
    /// Nothing more: the detection has ended with this result.
    Finish { result: Result<bool, DeviceError> },
}

/// A command with its report as a sequence of bytes.
pub enum CommandView {
    ReadTimeout { timeout_ms: i32 },
    ReadBlocking,
    Write { report: Seq<u8> },
    Finish { result: Result<bool, DeviceError> },
}

impl View for Command {
    type V = CommandView;

    open spec fn view(&self) -> CommandView {
        match *self {
            Command::ReadTimeout { timeout_ms } => CommandView::ReadTimeout { timeout_ms },
            Command::ReadBlocking => CommandView::ReadBlocking,
            Command::Write { report } => CommandView::Write { report: report@ },
            Command::Finish { result } => CommandView::Finish { result },
        }
    }
}

/// Time that has passed at the moment `at` since the button went down at
/// `pressed_at`, in nanoseconds; none if `at` is the earlier moment.
pub open spec fn held_for(pressed_at: u128, at: u128) -> nat {
    if at >= pressed_at {
        (at - pressed_at) as nat
    } else {
        0
    }
}

/// Whether the button has, at the moment `at`, been down for more than
/// `hold_ms` milliseconds.
pub open spec fn hold_exceeded(pressed_at: u128, at: u128, hold_ms: u64) -> bool {
    held_for(pressed_at, at) > hold_ms * NANOS_PER_MILLI
}

/// Tells whether the button has been down for more than `hold_ms`
/// milliseconds.
pub fn is_hold_exceeded(pressed_at: u128, at: u128, hold_ms: u64) -> (exceeded: bool)
    ensures
        exceeded == hold_exceeded(pressed_at, at, hold_ms),
{
    let held: u128 = if at >= pressed_at {
        at - pressed_at
    } else {
        0
    };
    let threshold: u128 = (hold_ms as u128) * NANOS_PER_MILLI;
    held > threshold
}

/// Once the threshold has passed it stays passed: at every later moment the
/// button has still been down for more than `hold_ms` milliseconds.
pub proof fn lemma_hold_stays_exceeded(pressed_at: u128, at: u128, later: u128, hold_ms: u64)
    requires
        at <= later,
        hold_exceeded(pressed_at, at, hold_ms),
    ensures
        hold_exceeded(pressed_at, later, hold_ms),
{
}

} // verus!
