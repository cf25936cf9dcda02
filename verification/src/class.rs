//! The class codes of PCI devices.

use vstd::prelude::*;

verus! {

/// Classes of PCI nodes.
#[derive(Clone, Copy, Debug, PartialEq, Eq, Structural)]
pub enum PciClassCode {
    TooOld,
    MassStorage,
    NetworkController,
    DisplayController,
    MultimediaController,
    MemoryController,
    BridgeDevice,
    SimpleCommunicationController,
    BaseSystemPeripheral,
    InputDevice,
    DockingStation,
    Processor,
    SerialBusController,
    WirelessController,
    IntelligentIoController,
    EncryptionController,
    DataAcquisitionSignalProcessing,
    Other,
}

impl PciClassCode {
    /// The class byte of a class.
    pub open spec fn spec_to_u8(self) -> u8 {
        match self {
            PciClassCode::TooOld => 0x00,
            PciClassCode::MassStorage => 0x01,
            PciClassCode::NetworkController => 0x02,
            PciClassCode::DisplayController => 0x03,
            PciClassCode::MultimediaController => 0x04,
            PciClassCode::MemoryController => 0x05,
            PciClassCode::BridgeDevice => 0x06,
            PciClassCode::SimpleCommunicationController => 0x07,
            PciClassCode::BaseSystemPeripheral => 0x08,
            PciClassCode::InputDevice => 0x09,
            PciClassCode::DockingStation => 0x0A,
            PciClassCode::Processor => 0x0B,
            PciClassCode::SerialBusController => 0x0C,
            PciClassCode::WirelessController => 0x0D,
            PciClassCode::IntelligentIoController => 0x0E,
            PciClassCode::EncryptionController => 0x0F,
            PciClassCode::DataAcquisitionSignalProcessing => 0x11,
            PciClassCode::Other => 0xFF,
        }
    }

    /// The class with a class byte, if there is one.
    pub open spec fn spec_from_u8(id: u8) -> Option<PciClassCode> {
        if id == 0x00 {
            Some(PciClassCode::TooOld)
        } else if id == 0x01 {
            Some(PciClassCode::MassStorage)
        } else if id == 0x02 {
            Some(PciClassCode::NetworkController)
        } else if id == 0x03 {
            Some(PciClassCode::DisplayController)
        } else if id == 0x04 {
            Some(PciClassCode::MultimediaController)
        } else if id == 0x05 {
            Some(PciClassCode::MemoryController)
        } else if id == 0x06 {
            Some(PciClassCode::BridgeDevice)
        } else if id == 0x07 {
            Some(PciClassCode::SimpleCommunicationController)
        } else if id == 0x08 {
            Some(PciClassCode::BaseSystemPeripheral)
        } else if id == 0x09 {
            Some(PciClassCode::InputDevice)
        } else if id == 0x0A {
            Some(PciClassCode::DockingStation)
        } else if id == 0x0B {
            Some(PciClassCode::Processor)
        } else if id == 0x0C {
            Some(PciClassCode::SerialBusController)
        } else if id == 0x0D {
            Some(PciClassCode::WirelessController)
        } else if id == 0x0E {
            Some(PciClassCode::IntelligentIoController)
        } else if id == 0x0F {
            Some(PciClassCode::EncryptionController)
        } else if id == 0x11 {
            Some(PciClassCode::DataAcquisitionSignalProcessing)
        } else if id == 0xFF {
            Some(PciClassCode::Other)
        } else {
            None
        }
    }

    /// The class byte of this class.
    pub fn to_u8(self) -> (id: u8)
        ensures
            id == self.spec_to_u8(),
    {
        match self {
            PciClassCode::TooOld => 0x00,
            PciClassCode::MassStorage => 0x01,
            PciClassCode::NetworkController => 0x02,
            PciClassCode::DisplayController => 0x03,
            PciClassCode::MultimediaController => 0x04,
            PciClassCode::MemoryController => 0x05,
            PciClassCode::BridgeDevice => 0x06,
            PciClassCode::SimpleCommunicationController => 0x07,
            PciClassCode::BaseSystemPeripheral => 0x08,
            PciClassCode::InputDevice => 0x09,
            PciClassCode::DockingStation => 0x0A,
            PciClassCode::Processor => 0x0B,
            PciClassCode::SerialBusController => 0x0C,
            PciClassCode::WirelessController => 0x0D,
            PciClassCode::IntelligentIoController => 0x0E,
            PciClassCode::EncryptionController => 0x0F,
            PciClassCode::DataAcquisitionSignalProcessing => 0x11,
            PciClassCode::Other => 0xFF,
        }
    }

    /// The class with the class byte `id`, or `None` where no class has
    /// it.
    pub fn from_u8(id: u8) -> (class: Option<PciClassCode>)
        ensures
            class == PciClassCode::spec_from_u8(id),
    {
        if id == 0x00 {
            Some(PciClassCode::TooOld)
        } else if id == 0x01 {
            Some(PciClassCode::MassStorage)
        } else if id == 0x02 {
            Some(PciClassCode::NetworkController)
        } else if id == 0x03 {
            Some(PciClassCode::DisplayController)
        } else if id == 0x04 {
            Some(PciClassCode::MultimediaController)
        } else if id == 0x05 {
            Some(PciClassCode::MemoryController)
        } else if id == 0x06 {
            Some(PciClassCode::BridgeDevice)
        } else if id == 0x07 {
            Some(PciClassCode::SimpleCommunicationController)
        } else if id == 0x08 {
            Some(PciClassCode::BaseSystemPeripheral)
        } else if id == 0x09 {
            Some(PciClassCode::InputDevice)
        } else if id == 0x0A {
            Some(PciClassCode::DockingStation)
        } else if id == 0x0B {
            Some(PciClassCode::Processor)
        } else if id == 0x0C {
            Some(PciClassCode::SerialBusController)
        } else if id == 0x0D {
            Some(PciClassCode::WirelessController)
        } else if id == 0x0E {
            Some(PciClassCode::IntelligentIoController)
        } else if id == 0x0F {
            Some(PciClassCode::EncryptionController)
        } else if id == 0x11 {
            Some(PciClassCode::DataAcquisitionSignalProcessing)
        } else if id == 0xFF {
            Some(PciClassCode::Other)
        } else {
            None
        }
    }

    /// A class is the class of its class byte, and a byte that has a
    /// class is the byte of that class.
    pub proof fn lemma_round_trip(class: PciClassCode, id: u8)
        ensures
            PciClassCode::spec_from_u8(class.spec_to_u8()) == Some(class),
            PciClassCode::spec_from_u8(id) is Some ==> PciClassCode::spec_from_u8(
                id,
            ).unwrap().spec_to_u8() == id,
    {
    }
}

/// Network controller subclasses.
#[derive(Clone, Copy, Debug, PartialEq, Eq, Structural)]
pub enum PciNetworkControllerSubclass {
    Ethernet,
    TokenRing,
    Fddi,
    Atm,
    Isdn,
    WorldFip,
    Picmg,
    Infiniband,
    Fabric,
    Network,
}

impl PciNetworkControllerSubclass {
    /// The subclass byte of a subclass.
    pub open spec fn spec_to_u8(self) -> u8 {
        match self {
            PciNetworkControllerSubclass::Ethernet => 0x00,
            PciNetworkControllerSubclass::TokenRing => 0x01,
            PciNetworkControllerSubclass::Fddi => 0x02,
            PciNetworkControllerSubclass::Atm => 0x03,
            PciNetworkControllerSubclass::Isdn => 0x04,
            PciNetworkControllerSubclass::WorldFip => 0x05,
            PciNetworkControllerSubclass::Picmg => 0x06,
            PciNetworkControllerSubclass::Infiniband => 0x07,
            PciNetworkControllerSubclass::Fabric => 0x08,
            PciNetworkControllerSubclass::Network => 0x80,
        }
    }

    /// The subclass with a subclass byte, if there is one.
    pub open spec fn spec_from_u8(id: u8) -> Option<PciNetworkControllerSubclass> {
        if id == 0x00 {
            Some(PciNetworkControllerSubclass::Ethernet)
        } else if id == 0x01 {
            Some(PciNetworkControllerSubclass::TokenRing)
        } else if id == 0x02 {
            Some(PciNetworkControllerSubclass::Fddi)
        } else if id == 0x03 {
            Some(PciNetworkControllerSubclass::Atm)
        } else if id == 0x04 {
            Some(PciNetworkControllerSubclass::Isdn)
        } else if id == 0x05 {
            Some(PciNetworkControllerSubclass::WorldFip)
        } else if id == 0x06 {
            Some(PciNetworkControllerSubclass::Picmg)
        } else if id == 0x07 {
            Some(PciNetworkControllerSubclass::Infiniband)
        } else if id == 0x08 {
            Some(PciNetworkControllerSubclass::Fabric)
        } else if id == 0x80 {
            Some(PciNetworkControllerSubclass::Network)
        } else {
            None
        }
    }

    /// The subclass byte of this subclass.
    pub fn to_u8(self) -> (id: u8)
        ensures
            id == self.spec_to_u8(),
    {
        match self {
            PciNetworkControllerSubclass::Ethernet => 0x00,
            PciNetworkControllerSubclass::TokenRing => 0x01,
            PciNetworkControllerSubclass::Fddi => 0x02,
            PciNetworkControllerSubclass::Atm => 0x03,
            PciNetworkControllerSubclass::Isdn => 0x04,
            PciNetworkControllerSubclass::WorldFip => 0x05,
            PciNetworkControllerSubclass::Picmg => 0x06,
            PciNetworkControllerSubclass::Infiniband => 0x07,
            PciNetworkControllerSubclass::Fabric => 0x08,
            PciNetworkControllerSubclass::Network => 0x80,
        }
    }

    /// The subclass with the subclass byte `id`, or `None` where no
    /// subclass has it.
    pub fn from_u8(id: u8) -> (subclass: Option<PciNetworkControllerSubclass>)
        ensures
            subclass == PciNetworkControllerSubclass::spec_from_u8(id),
    {
        if id == 0x00 {
            Some(PciNetworkControllerSubclass::Ethernet)
        } else if id == 0x01 {
            Some(PciNetworkControllerSubclass::TokenRing)
        } else if id == 0x02 {
            Some(PciNetworkControllerSubclass::Fddi)
        } else if id == 0x03 {
            Some(PciNetworkControllerSubclass::Atm)
        } else if id == 0x04 {
            Some(PciNetworkControllerSubclass::Isdn)
        } else if id == 0x05 {
            Some(PciNetworkControllerSubclass::WorldFip)
        } else if id == 0x06 {
            Some(PciNetworkControllerSubclass::Picmg)
        } else if id == 0x07 {
            Some(PciNetworkControllerSubclass::Infiniband)
        } else if id == 0x08 {
            Some(PciNetworkControllerSubclass::Fabric)
        } else if id == 0x80 {
            Some(PciNetworkControllerSubclass::Network)
        } else {
            None
        }
    }

    /// A subclass is the subclass of its byte, and a byte that has a
    /// subclass is the byte of that subclass.
    pub proof fn lemma_round_trip(subclass: PciNetworkControllerSubclass, id: u8)
        ensures
            PciNetworkControllerSubclass::spec_from_u8(subclass.spec_to_u8()) == Some(subclass),
            PciNetworkControllerSubclass::spec_from_u8(id) is Some
                ==> PciNetworkControllerSubclass::spec_from_u8(id).unwrap().spec_to_u8() == id,
    {
    }
}

} // verus!
