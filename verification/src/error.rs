//! Failures a device session can report.

use vstd::prelude::*;

verus! {

/// Why an operation on the status light failed.
#[derive(Clone, Copy, Debug, PartialEq, Eq, Structural)]
pub enum DeviceError {
    /// The HID backend could not be initialised.
    BackendInit,
    /// No attached device carries the light's vendor and product identifiers.
    DeviceNotFound,
    /// The light is attached but could not be opened.
    OpenFailed,
    /// A read from the transport failed.
    TransportRead,
    /// A write to the transport did not complete.
    TransportWrite,
}

} // verus!
