//! Command codec and button protocol of a USB status light.
//!
//! The crate performs no I/O. It says which bytes make up each command, what
//! the frames sent by the light's button mean, which device on the bus is the
//! light, and what a session must read and write next while it waits for a
//! press. The caller owns the transport and carries those commands out.

pub mod color;
pub mod device;
pub mod discovery;
pub mod error;
pub mod exchange;
pub mod feedback;
pub mod feedback_runs;
pub mod frame;
pub mod identity;
pub mod press;
pub mod report;

pub use crate::color::{color_to_bytes, CircularLength, Color};
pub use crate::device::{write_outcome, USBDevice};
pub use crate::discovery::{DeviceId, USBDiscovery, DEVICE_PRODUCT_ID, DEVICE_VENDOR_ID};
pub use crate::error::DeviceError;
pub use crate::exchange::{is_hold_exceeded, Command, Event, NANOS_PER_MILLI};
pub use crate::feedback::{FeedbackDetection, FeedbackPhase, RELEASE_POLL_MS};
pub use crate::frame::{classify, Signal, BUTTON_PRESSED, BUTTON_RELEASED, FRAME_LEN};
pub use crate::identity::{field, identity, Descriptors, Lookup};
pub use crate::press::{PressDetection, PressPhase};
pub use crate::report::{
    decode_report, encode_circling, encode_static, encode_strobe, Request, HID_REPORT_ID, LED_ALL,
    MODE_CIRCLING, MODE_STATIC, MODE_STROBE,
};
