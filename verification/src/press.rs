//! Detection of a button press that lasts long enough.
//!
//! The session polls once for the button to go down. If it did, the session
//! waits, for as long as it takes, for the next frame. The press counts if
//! that frame says the button came up and more than the hold threshold has
//! passed since it went down. There is no second chance: whatever the second
//! frame holds ends the detection.

use crate::error::DeviceError;
use crate::exchange::{hold_exceeded, is_hold_exceeded, Command, CommandView, Event};
use crate::frame::Signal;
use vstd::prelude::*;

verus! {

/// Where a detection stands.
#[derive(Clone, Copy, Debug, PartialEq, Eq)]
pub enum PressPhase {
    /// Polling for the button to go down.
    AwaitingPress,
    /// The button went down at `pressed_at`; waiting for the next frame.
    AwaitingRelease { pressed_at: u128 },
    /// Ended with this result.
    Finished { result: Result<bool, DeviceError> },
}

/// One detection of a press, from the first poll to its result.
#[derive(Clone, Copy, Debug, PartialEq, Eq)]
pub struct PressDetection {
    /// How long the first poll may take, in milliseconds.
    pub poll_timeout_ms: i32,
    /// How long the button must stay down, in milliseconds.
    pub hold_ms: u64,
    /// Where the detection stands.
    pub phase: PressPhase,
}

impl PressDetection {
    /// A detection that has not polled yet.
    pub open spec fn started(poll_timeout_ms: i32, hold_ms: u64) -> PressDetection {
        PressDetection { poll_timeout_ms, hold_ms, phase: PressPhase::AwaitingPress }
    }

    /// The detection in the given phase, with the same settings.
    pub open spec fn in_phase(self, phase: PressPhase) -> PressDetection {
        PressDetection { phase, ..self }
    }

    /// What the session must do next.
    pub open spec fn pending(self) -> CommandView {
        match self.phase {
            PressPhase::AwaitingPress => CommandView::ReadTimeout {
                timeout_ms: self.poll_timeout_ms,
            },
            PressPhase::AwaitingRelease { .. } => CommandView::ReadBlocking,
            PressPhase::Finished { result } => CommandView::Finish { result },
        }
    }

    /// Where the detection stands after `event`. An event that does not
    /// answer the pending command changes nothing.
    pub open spec fn next(self, event: Event) -> PressDetection {
        match (self.phase, event) {
            (PressPhase::AwaitingPress, Event::Frame { signal, at }) => {
                if signal == Signal::Pressed {
                    self.in_phase(PressPhase::AwaitingRelease { pressed_at: at })
                } else {
                    self.in_phase(PressPhase::Finished { result: Ok(false) })
                }
            },
            (PressPhase::AwaitingRelease { pressed_at }, Event::Frame { signal, at }) => {
                let counts = signal == Signal::Released && hold_exceeded(
                    pressed_at,
                    at,
                    self.hold_ms,
                );
                self.in_phase(PressPhase::Finished { result: Ok(counts) })
            },
            (PressPhase::AwaitingPress, Event::ReadFailed)
            | (PressPhase::AwaitingRelease { .. }, Event::ReadFailed) => {
                self.in_phase(PressPhase::Finished { result: Err(DeviceError::TransportRead) })
            },
            _ => self,
        }
    }

    /// The result, once the detection has ended.
    pub open spec fn result(self) -> Option<Result<bool, DeviceError>> {
        match self.phase {
            PressPhase::Finished { result } => Some(result),
            _ => None,
        }
    }

    /// Starts a detection.
    pub fn new(poll_timeout_ms: i32, hold_ms: u64) -> (detection: PressDetection)
        ensures
            detection == PressDetection::started(poll_timeout_ms, hold_ms),
    {
        PressDetection { poll_timeout_ms, hold_ms, phase: PressPhase::AwaitingPress }
    }

    /// Names what the session must do next.
    pub fn command(&self) -> (command: Command)
        ensures
            command@ == self.pending(),
    {
        match self.phase {
            PressPhase::AwaitingPress => Command::ReadTimeout { timeout_ms: self.poll_timeout_ms },
            PressPhase::AwaitingRelease { .. } => Command::ReadBlocking,
            PressPhase::Finished { result } => Command::Finish { result },
        }
    }

    /// Takes in how the pending command went.
    pub fn advance(&mut self, event: Event)
        ensures
            *final(self) == old(self).next(event),
    {
        match self.phase {
            PressPhase::AwaitingPress => match event {
                Event::Frame { signal: Signal::Pressed, at } => {
                    self.phase = PressPhase::AwaitingRelease { pressed_at: at };
                },
                Event::Frame { .. } => {
                    self.phase = PressPhase::Finished { result: Ok(false) };
                },
                Event::ReadFailed => {
                    self.phase = PressPhase::Finished { result: Err(DeviceError::TransportRead) };
                },
                _ => {},
            },
            PressPhase::AwaitingRelease { pressed_at } => match event {
                Event::Frame { signal, at } => {
                    let released: bool = match signal {
                        Signal::Released => true,
                        _ => false,
                    };
                    let pressed: bool = released && is_hold_exceeded(pressed_at, at, self.hold_ms);
                    self.phase = PressPhase::Finished { result: Ok(pressed) };
                },
                Event::ReadFailed => {
                    self.phase = PressPhase::Finished { result: Err(DeviceError::TransportRead) };
                },
                _ => {},
            },
            PressPhase::Finished { .. } => {},
        }
    }

    /// The result, once the detection has ended.
    pub fn outcome(&self) -> (outcome: Option<Result<bool, DeviceError>>)
        ensures
            outcome == self.result(),
    {
        match self.phase {
            PressPhase::Finished { result } => Some(result),
            _ => None,
        }
    }
}

/// A first frame that does not say the button went down ends the detection
/// with `false`: no second read is asked for.
pub proof fn lemma_no_press_ends_detection(
    poll_timeout_ms: i32,
    hold_ms: u64,
    signal: Signal,
    at: u128,
)
    requires
        signal != Signal::Pressed,
    ensures
        ({
            let ended = PressDetection::started(poll_timeout_ms, hold_ms).next(
                Event::Frame { signal, at },
            );
            &&& ended.result() == Some(Ok::<bool, DeviceError>(false))
            &&& ended.pending() == (CommandView::Finish { result: Ok(false) })
        }),
{
}

/// After the button went down, the session is asked for one read without a
/// time limit, and the frame it returns decides: the press counts if and only
/// if the frame says the button came up and it arrives more than the hold
/// threshold after the press.
pub proof fn lemma_second_frame_decides(
    poll_timeout_ms: i32,
    hold_ms: u64,
    pressed_at: u128,
    signal: Signal,
    at: u128,
)
    ensures
        ({
            let held = PressDetection::started(poll_timeout_ms, hold_ms).next(
                Event::Frame { signal: Signal::Pressed, at: pressed_at },
            );
            &&& held.pending() == CommandView::ReadBlocking
            &&& held.next(Event::Frame { signal, at }).result() == Some(
                Ok::<bool, DeviceError>(
                    signal == Signal::Released && hold_exceeded(pressed_at, at, hold_ms),
                ),
            )
        }),
{
}

/// A read that fails ends the detection with a read error, whichever read it
/// was.
pub proof fn lemma_failed_read_ends_detection(detection: PressDetection)
    requires
        detection.result() is None,
    ensures
        detection.next(Event::ReadFailed).result() == Some(
            Err::<bool, DeviceError>(DeviceError::TransportRead),
        ),
{
}

/// A detection never asks for a write, and two answered reads end it: there
/// is no retry.
pub proof fn lemma_two_reads_at_most(
    poll_timeout_ms: i32,
    hold_ms: u64,
    first: Event,
    second: Event,
)
    requires
        first is Frame || first is ReadFailed,
        second is Frame || second is ReadFailed,
    ensures
        ({
            let start = PressDetection::started(poll_timeout_ms, hold_ms);
            &&& !(start.pending() is Write)
            &&& !(start.next(first).pending() is Write)
            &&& start.next(first).next(second).result() is Some
        }),
{
}

/// Once a detection has ended, no event changes it.
pub proof fn lemma_ended_stays_ended(detection: PressDetection, event: Event)
    requires
        detection.result() is Some,
    ensures
        detection.next(event) == detection,
{
}

} // verus!
