//! The device session: what one opened light is called, which LEDs it
//! addresses, and what each of its operations puts on the transport.
//!
//! The session owns no transport. Each operation yields what its caller must
//! carry out: a report to write, or a detection to drive.

use crate::color::{CircularLength, Color};
use crate::error::DeviceError;
use crate::feedback::FeedbackDetection;
use crate::identity::{identity, identity_text, Descriptors};
use crate::press::PressDetection;
use crate::report::{
    circling_report, encode_circling, encode_static, encode_strobe, static_report, strobe_report,
    LED_ALL,
};
use vstd::prelude::*;

verus! {

/// A session with one light.
pub struct USBDevice {
    id: String,
    target_led: u8,
}

impl USBDevice {
    /// A session addresses all LEDs, and nothing changes that.
    #[verifier::type_invariant]
    spec fn addresses_all_leds(self) -> bool {
        self.target_led == LED_ALL
    }

    /// The identity string of the session.
    pub closed spec fn identity(&self) -> Seq<char> {
        self.id@
    }

    /// Opens a session with the device that answered the three lookups. The
    /// identity string is composed here, once.
    pub fn new(descriptors: Descriptors) -> (device: USBDevice)
        ensures
            device.identity() == identity_text(descriptors),
    {
        USBDevice { id: identity(descriptors), target_led: LED_ALL }
    }

    /// Returns the identity string of the session.
    pub fn id(&self) -> (id: String)
        ensures
            id@ == self.identity(),
    {
        self.id.clone()
    }

    /// The report by which the light takes a steady `color` on all LEDs. The
    /// caller writes it once.
    pub fn set_static_color(&self, color: Color) -> (report: [u8; 6])
        ensures
            report@ == static_report(LED_ALL, color),
    {
        proof {
            use_type_invariant(self);
        }
        encode_static(self.target_led, color)
    }

    /// The report by which the light sweeps `color` round, `iterations` times
    /// at `circling_rate`; zero iterations mean without end. The caller
    /// writes it once.
    pub fn set_circling_color(
        &self,
        color: Color,
        pattern: CircularLength,
        circling_rate: u8,
        iterations: u8,
    ) -> (report: [u8; 9])
        ensures
            report@ == circling_report(pattern, color, circling_rate, iterations),
    {
        encode_circling(pattern, color, circling_rate, iterations)
    }

    /// The report by which all LEDs flash in `color`, `iterations` times at
    /// `strobe_speed`; zero iterations mean without end. The caller writes it
    /// once.
    pub fn set_strobe_color(
        &self,
        color: Color,
        strobe_speed: u8,
        iterations: u8,
    ) -> (report: [u8; 9])
        ensures
            report@ == strobe_report(LED_ALL, color, strobe_speed, iterations),
    {
        proof {
            use_type_invariant(self);
        }
        encode_strobe(self.target_led, color, strobe_speed, iterations)
    }

    /// Starts the detection of a press that lasts longer than `interval`
    /// milliseconds, with a first poll of at most `timeout` milliseconds.
    pub fn is_button_pressed(&self, timeout: i32, interval: u64) -> (detection: PressDetection)
        ensures
            detection == PressDetection::started(timeout, interval),
    {
        PressDetection::new(timeout, interval)
    }

    /// Starts the detection of a press that lasts longer than `interval`
    /// milliseconds, with a first poll of at most `timeout` milliseconds. The
    /// light shows white while the button is down and `feedback_color` once
    /// it has been down long enough.
    pub fn is_button_pressed_feedback(
        &self,
        timeout: i32,
        interval: u64,
        feedback_color: Color,
    ) -> (detection: FeedbackDetection)
        ensures
            detection == FeedbackDetection::started(timeout, interval, LED_ALL, feedback_color),
    {
        proof {
            use_type_invariant(self);
        }
        FeedbackDetection::new(timeout, interval, self.target_led, feedback_color)
    }
}

/// The result of an operation that writes one report: it succeeds if the
/// write completed, and fails with [`DeviceError::TransportWrite`] if not.
/// Nothing is tried again.
pub fn write_outcome(completed: bool) -> (outcome: Result<(), DeviceError>)
    ensures
        outcome == if completed {
            Ok::<(), DeviceError>(())
        } else {
            Err::<(), DeviceError>(DeviceError::TransportWrite)
        },
{
    if completed {
        Ok(())
    } else {
        Err(DeviceError::TransportWrite)
    }
}

} // verus!
