//! Finding the light among the attached HID devices.
//!
//! Discovery fails in three ways that a user must be able to tell apart: the
//! HID backend is not there, the light is not attached, or the light is
//! attached and cannot be opened.

use crate::device::USBDevice;
use crate::error::DeviceError;
use crate::identity::{identity_text, Descriptors};
use vstd::prelude::*;

verus! {

/// Vendor identifier of the light.
pub const DEVICE_VENDOR_ID: u16 = 0x04d8;

/// Product identifier of the light.
pub const DEVICE_PRODUCT_ID: u16 = 0xf372;

/// The identifiers under which an attached HID device is listed.
#[derive(Clone, Copy, Debug, PartialEq, Eq, Structural)]
pub struct DeviceId {
    /// Identifier of the maker.
    pub vendor_id: u16,
    /// Identifier of the product among those of its maker.
    pub product_id: u16,
}

impl DeviceId {
    /// Whether these are the identifiers of the light.
    pub open spec fn is_light(self) -> bool {
        self.vendor_id == DEVICE_VENDOR_ID && self.product_id == DEVICE_PRODUCT_ID
    }

    /// Tells whether these are the identifiers of the light.
    pub fn matches_light(&self) -> (matches: bool)
        ensures
            matches == self.is_light(),
    {
        self.vendor_id == DEVICE_VENDOR_ID && self.product_id == DEVICE_PRODUCT_ID
    }
}

/// Whether `index` is the place of the first light in `listed`.
pub open spec fn is_first_light(listed: Seq<DeviceId>, index: int) -> bool {
    &&& 0 <= index < listed.len()
    &&& listed[index].is_light()
    &&& forall|earlier: int| 0 <= earlier < index ==> !(#[trigger] listed[earlier]).is_light()
}

/// Whether no device in `listed` is the light.
pub open spec fn no_light(listed: Seq<DeviceId>) -> bool {
    forall|index: int| 0 <= index < listed.len() ==> !(#[trigger] listed[index]).is_light()
}

/// The HID bus as one enumeration found it.
pub struct USBDiscovery {
    listed: Vec<DeviceId>,
}

impl View for USBDiscovery {
    type V = Seq<DeviceId>;

    /// The devices that the bus lists, in the order of the enumeration.
    closed spec fn view(&self) -> Seq<DeviceId> {
        self.listed@
    }
}

impl USBDiscovery {
    /// Takes in what the backend enumerated, or `None` if the backend could
    /// not be initialised, which ends discovery.
    pub fn new(enumerated: Option<Vec<DeviceId>>) -> (discovery: Result<USBDiscovery, DeviceError>)
        ensures
            discovery is Ok <==> enumerated is Some,
            discovery matches Ok(bus) ==> bus@ == enumerated->0@,
            discovery matches Err(error) ==> error == DeviceError::BackendInit,
    {
        match enumerated {
            Some(listed) => Ok(USBDiscovery { listed }),
            None => Err(DeviceError::BackendInit),
        }
    }

    /// Picks the one device to open: the first that the bus lists under the
    /// light's identifiers. Where it lists none, the light is not attached.
    pub fn select(&self) -> (found: Result<usize, DeviceError>)
        ensures
            found is Ok <==> !no_light(self@),
            found matches Ok(index) ==> is_first_light(self@, index as int),
            found matches Err(error) ==> error == DeviceError::DeviceNotFound,
    {
        let mut index: usize = 0;
        while index < self.listed.len()
            invariant
                index <= self.listed.len(),
                forall|earlier: int|
                    0 <= earlier < index ==> !(#[trigger] self.listed@[earlier]).is_light(),
            decreases self.listed.len() - index,
        {
            if self.listed[index].matches_light() {
                return Ok(index);
            }
            index += 1;
        }
        Err(DeviceError::DeviceNotFound)
    }

    /// Ends discovery. `opened` holds the lookups made on the selected device
    /// if it could be opened, and `None` if it could not. Where the bus lists
    /// no light there was nothing to open, and the light is reported as not
    /// found; where it lists one that could not be opened, the failure is one
    /// of access.
    pub fn device(&self, opened: Option<Descriptors>) -> (session: Result<USBDevice, DeviceError>)
        ensures
            session is Ok <==> !no_light(self@) && opened is Some,
            session matches Ok(device) ==> device.identity() == identity_text(opened->0),
            session matches Err(error) ==> error == if no_light(self@) {
                DeviceError::DeviceNotFound
            } else {
                DeviceError::OpenFailed
            },
    {
        match self.select() {
            Err(error) => Err(error),
            Ok(_) => match opened {
                Some(descriptors) => Ok(USBDevice::new(descriptors)),
                None => Err(DeviceError::OpenFailed),
            },
        }
    }
}

} // verus!
