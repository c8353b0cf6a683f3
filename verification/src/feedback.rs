//! Detection of a button press that lasts long enough, with the light
//! showing how far the press has come.
//!
//! The session polls once for the button to go down. If it did, the light
//! turns white at once, and the session polls every millisecond. A frame that
//! arrives after the hold threshold turns the light to the feedback color; if
//! that frame says the button came up, the press counts. A frame that says
//! the button came up before the threshold ends the detection: the press was
//! too short. Any other frame leaves the session polling.

use crate::color::Color;
use crate::error::DeviceError;
use crate::exchange::{hold_exceeded, is_hold_exceeded, Command, CommandView, Event};
use crate::frame::Signal;
use crate::report::{encode_static, static_report};
use vstd::prelude::*;

verus! {

/// How long each poll for the release may take, in milliseconds.
pub const RELEASE_POLL_MS: i32 = 1;

/// Where a detection stands.
#[derive(Clone, Copy, Debug, PartialEq, Eq)]
pub enum FeedbackPhase {
    /// Polling for the button to go down.
    AwaitingPress,
    /// The button went down at `pressed_at`; turning the light white.
    Acknowledging { pressed_at: u128 },
    /// The button is down; polling for what it does next.
    Held { pressed_at: u128 },
    /// A frame arrived after the threshold; turning the light to the feedback
    /// color. `released` says whether that frame told that the button came up.
    Signalling { pressed_at: u128, released: bool },
    /// Ended with this result.
    Finished { result: Result<bool, DeviceError> },
}

/// One detection of a press with feedback, from the first poll to its result.
#[derive(Clone, Copy, Debug, PartialEq, Eq)]
pub struct FeedbackDetection {
    /// How long the first poll may take, in milliseconds.
    pub poll_timeout_ms: i32,
    /// How long the button must stay down, in milliseconds.
    pub hold_ms: u64,
    /// Which LEDs show the feedback.
    pub led: u8,
    /// The color shown once the button has been down long enough.
    pub feedback: Color,
    /// Where the detection stands.
    pub phase: FeedbackPhase,
}

impl FeedbackDetection {
    /// A detection that has not polled yet.
    pub open spec fn started(
        poll_timeout_ms: i32,
        hold_ms: u64,
        led: u8,
        feedback: Color,
    ) -> FeedbackDetection {
        FeedbackDetection {
            poll_timeout_ms,
            hold_ms,
            led,
            feedback,
            phase: FeedbackPhase::AwaitingPress,
        }
    }

    /// The detection in the given phase, with the same settings.
    pub open spec fn in_phase(self, phase: FeedbackPhase) -> FeedbackDetection {
        FeedbackDetection { phase, ..self }
    }

    /// What the session must do next.
    pub open spec fn pending(self) -> CommandView {
        match self.phase {
            FeedbackPhase::AwaitingPress => CommandView::ReadTimeout {
                timeout_ms: self.poll_timeout_ms,
            },
            FeedbackPhase::Acknowledging { .. } => CommandView::Write {
                report: static_report(self.led, Color::White),
            },
            FeedbackPhase::Held { .. } => CommandView::ReadTimeout { timeout_ms: RELEASE_POLL_MS },
            FeedbackPhase::Signalling { .. } => CommandView::Write {
                report: static_report(self.led, self.feedback),
            },
            FeedbackPhase::Finished { result } => CommandView::Finish { result },
        }
    }

    /// Where the detection stands after `event`. An event that does not
    /// answer the pending command changes nothing.
    pub open spec fn next(self, event: Event) -> FeedbackDetection {
        match (self.phase, event) {
            (FeedbackPhase::AwaitingPress, Event::Frame { signal, at }) => {
                if signal == Signal::Pressed {
                    self.in_phase(FeedbackPhase::Acknowledging { pressed_at: at })
                } else {
                    self.in_phase(FeedbackPhase::Finished { result: Ok(false) })
                }
            },
            (FeedbackPhase::Acknowledging { pressed_at }, Event::Written) => {
                self.in_phase(FeedbackPhase::Held { pressed_at })
            },
            (FeedbackPhase::Held { pressed_at }, Event::Frame { signal, at }) => {
                let released = signal == Signal::Released;
                if hold_exceeded(pressed_at, at, self.hold_ms) {
                    self.in_phase(FeedbackPhase::Signalling { pressed_at, released })
                } else if released {
                    self.in_phase(FeedbackPhase::Finished { result: Ok(false) })
                } else {
                    self
                }
            },
            (FeedbackPhase::Signalling { pressed_at, released }, Event::Written) => {
                if released {
                    self.in_phase(FeedbackPhase::Finished { result: Ok(true) })
                } else {
                    self.in_phase(FeedbackPhase::Held { pressed_at })
                }
            },
            (FeedbackPhase::AwaitingPress, Event::ReadFailed)
            | (FeedbackPhase::Held { .. }, Event::ReadFailed) => {
                self.in_phase(FeedbackPhase::Finished { result: Err(DeviceError::TransportRead) })
            },
            (FeedbackPhase::Acknowledging { .. }, Event::WriteFailed)
            | (FeedbackPhase::Signalling { .. }, Event::WriteFailed) => {
                self.in_phase(FeedbackPhase::Finished { result: Err(DeviceError::TransportWrite) })
            },
            _ => self,
        }
    }

    /// The result, once the detection has ended.
    pub open spec fn result(self) -> Option<Result<bool, DeviceError>> {
        match self.phase {
            FeedbackPhase::Finished { result } => Some(result),
            _ => None,
        }
    }

    /// Starts a detection that shows its feedback on `led`.
    pub fn new(
        poll_timeout_ms: i32,
        hold_ms: u64,
        led: u8,
        feedback: Color,
    ) -> (detection: FeedbackDetection)
        ensures
            detection == FeedbackDetection::started(poll_timeout_ms, hold_ms, led, feedback),
    {
        FeedbackDetection {
            poll_timeout_ms,
            hold_ms,
            led,
            feedback,
            phase: FeedbackPhase::AwaitingPress,
        }
    }

    /// Names what the session must do next.
    pub fn command(&self) -> (command: Command)
        ensures
            command@ == self.pending(),
    {
        match self.phase {
            FeedbackPhase::AwaitingPress => Command::ReadTimeout {
                timeout_ms: self.poll_timeout_ms,
            },
            FeedbackPhase::Acknowledging { .. } => Command::Write {
                report: encode_static(self.led, Color::White),
            },
            FeedbackPhase::Held { .. } => Command::ReadTimeout { timeout_ms: RELEASE_POLL_MS },
            FeedbackPhase::Signalling { .. } => Command::Write {
                report: encode_static(self.led, self.feedback),
            },
            FeedbackPhase::Finished { result } => Command::Finish { result },
        }
    }

    /// Takes in how the pending command went.
    pub fn advance(&mut self, event: Event)
        ensures
            *final(self) == old(self).next(event),
    {
        match self.phase {
            FeedbackPhase::AwaitingPress => match event {
                Event::Frame { signal: Signal::Pressed, at } => {
                    self.phase = FeedbackPhase::Acknowledging { pressed_at: at };
                },
                Event::Frame { .. } => {
                    self.phase = FeedbackPhase::Finished { result: Ok(false) };
                },
                Event::ReadFailed => {
                    self.phase = FeedbackPhase::Finished {
                        result: Err(DeviceError::TransportRead),
                    };
                },
                _ => {},
            },
            FeedbackPhase::Acknowledging { pressed_at } => match event {
                Event::Written => {
                    self.phase = FeedbackPhase::Held { pressed_at };
                },
                Event::WriteFailed => {
                    self.phase = FeedbackPhase::Finished {
                        result: Err(DeviceError::TransportWrite),
                    };
                },
                _ => {},
            },
            FeedbackPhase::Held { pressed_at } => match event {
                Event::Frame { signal, at } => {
                    let released: bool = match signal {
                        Signal::Released => true,
                        _ => false,
                    };
                    if is_hold_exceeded(pressed_at, at, self.hold_ms) {
                        self.phase = FeedbackPhase::Signalling { pressed_at, released };
                    } else if released {
                        self.phase = FeedbackPhase::Finished { result: Ok(false) };
                    }
                },
                Event::ReadFailed => {
                    self.phase = FeedbackPhase::Finished {
                        result: Err(DeviceError::TransportRead),
                    };
                },
                _ => {},
            },
            FeedbackPhase::Signalling { pressed_at, released } => match event {
                Event::Written => {
                    if released {
                        self.phase = FeedbackPhase::Finished { result: Ok(true) };
                    } else {
                        self.phase = FeedbackPhase::Held { pressed_at };
                    }
                },
                Event::WriteFailed => {
                    self.phase = FeedbackPhase::Finished {
                        result: Err(DeviceError::TransportWrite),
                    };
                },
                _ => {},
            },
            FeedbackPhase::Finished { .. } => {},
        }
    }

    /// The result, once the detection has ended.
    pub fn outcome(&self) -> (outcome: Option<Result<bool, DeviceError>>)
        ensures
            outcome == self.result(),
    {
        match self.phase {
            FeedbackPhase::Finished { result } => Some(result),
            _ => None,
        }
    }
}

} // verus!
