//! The errors of device discovery.

use vstd::prelude::*;

verus! {

/// Why a device could not be set up. Each carries the device ID.
#[derive(Clone, Copy, Debug, PartialEq, Eq, Structural)]
pub enum PciError {
    General(u16),
    /// The resource that a capability lies in cannot be mapped.
    NoBar(u16),
    /// The device has no capability list.
    NoCapPtr(u16),
    /// The capability list starts inside the header.
    BadCapPtr(u16),
    /// A virtio capability that the driver needs is not in the list.
    NoVirtioCaps(u16),
}

} // verus!
