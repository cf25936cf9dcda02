//! The names of classes, vendors and devices from the PCI ID database.

use pci_ids::{Class, Device, FromId, Subclass};
use vstd::prelude::*;

verus! {

/// The name that the PCI ID database has for a class, if it knows the
/// class.
pub uninterp spec fn pci_class_name(class_id: u8) -> Option<Seq<char>>;

/// The name that the PCI ID database has for a subclass of a class, if it
/// knows both.
pub uninterp spec fn pci_subclass_name(class_id: u8, subclass_id: u8) -> Option<Seq<char>>;

/// The names that the PCI ID database has for the vendor of a device and
/// for the device, if it knows the device.
pub uninterp spec fn pci_device_names(vendor_id: u16, device_id: u16) -> Option<
    (Seq<char>, Seq<char>),
>;

/// Calls `pci_ids::Class::from_id` and takes the name of the class
/// found. The database is fixed when the crate is built, so the answer
/// depends on the class byte alone; nothing more is claimed of it.
#[verifier::external_body]
pub(crate) fn class_name(class_id: u8) -> (name: Option<String>)
    ensures
        match name {
            Some(name) => pci_class_name(class_id) == Some(name@),
            None => pci_class_name(class_id) is None,
        },
{
    match Class::from_id(class_id) {
        Some(class) => Some(String::from(class.name())),
        None => None,
    }
}

/// Calls `pci_ids::Subclass::from_cid_sid` and takes the name of the
/// subclass found. The answer depends on the two bytes alone; nothing more
/// is claimed of it.
#[verifier::external_body]
pub(crate) fn subclass_name(class_id: u8, subclass_id: u8) -> (name: Option<String>)
    ensures
        match name {
            Some(name) => pci_subclass_name(class_id, subclass_id) == Some(name@),
            None => pci_subclass_name(class_id, subclass_id) is None,
        },
{
    match Subclass::from_cid_sid(class_id, subclass_id) {
        Some(subclass) => Some(String::from(subclass.name())),
        None => None,
    }
}

/// Calls `pci_ids::Device::from_vid_pid` and takes the names of the
/// vendor of the device found and of the device. The answer depends on
/// the two IDs alone; nothing more is claimed of it.
#[verifier::external_body]
pub(crate) fn device_names(vendor_id: u16, device_id: u16) -> (names: Option<(String, String)>)
    ensures
        match names {
            Some((vendor, device)) => pci_device_names(vendor_id, device_id) == Some(
                (vendor@, device@),
            ),
            None => pci_device_names(vendor_id, device_id) is None,
        },
{
    match Device::from_vid_pid(vendor_id, device_id) {
        Some(device) => Some((String::from(device.vendor().name()), String::from(device.name()))),
        None => None,
    }
}

} // verus!
