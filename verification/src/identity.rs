//! The identity string of a device session.
//!
//! A session names its device by manufacturer, product and serial number.
//! Each of the three is looked up on its own, and a lookup that fails or
//! finds nothing does not stop the session: a fixed word takes the place of
//! the missing text.

use vstd::prelude::*;
use vstd::string::StringExecFns;

verus! {

/// How the lookup of one descriptive string of the device ended.
#[derive(Debug, PartialEq, Eq)]
pub enum Lookup {
    /// The device answered with this text.
    Found(String),
    /// The device answered, and had no such text.
    Missing,
    /// The query itself failed.
    Failed,
}

/// The three lookups made on a device that was opened.
#[derive(Debug, PartialEq, Eq)]
pub struct Descriptors {
    /// Lookup of the manufacturer string.
    pub manufacturer: Lookup,
    /// Lookup of the product string.
    pub product: Lookup,
    /// Lookup of the serial number string.
    pub serial: Lookup,
}

/// The text that stands for one lookup in the identity string.
pub open spec fn field_text(lookup: Lookup) -> Seq<char> {
    match lookup {
        Lookup::Found(text) => text@,
        Lookup::Missing => "<unknown>"@,
        Lookup::Failed => "<error>"@,
    }
}

/// The identity string: the three fields in the order manufacturer, product,
/// serial number, with `::` between them.
pub open spec fn identity_text(descriptors: Descriptors) -> Seq<char> {
    field_text(descriptors.manufacturer) + "::"@ + field_text(descriptors.product) + "::"@
        + field_text(descriptors.serial)
}

/// Turns one lookup into the text that stands for it.
pub fn field(lookup: Lookup) -> (text: String)
    ensures
        text@ == field_text(lookup),
{
    match lookup {
        Lookup::Found(text) => text,
        Lookup::Missing => String::from_str("<unknown>"),
        Lookup::Failed => String::from_str("<error>"),
    }
}

/// Composes the identity string of a device from its three lookups.
pub fn identity(descriptors: Descriptors) -> (id: String)
    ensures
        id@ == identity_text(descriptors),
{
    let mut id = field(descriptors.manufacturer);
    id.append("::");
    let product = field(descriptors.product);
    id.append(product.as_str());
    id.append("::");
    let serial = field(descriptors.serial);
    id.append(serial.as_str());
    id
}

} // verus!
