//! Device discovery over PCI configuration space and a virtio network
//! driver, written without any hardware access of their own.
//!
//! Every routine that talks to hardware is a small state machine: it names
//! the next access it needs (`pending`) and is taken on with the answer
//! (`advance`). Whoever owns the hardware performs the accesses. The same
//! machines are run here against executable models of the hardware, the
//! configuration space in [`config`] and the network device in
//! [`net_device`], and the contracts of those runs state what the
//! protocols achieve: that probing leaves every register as it was, which
//! devices a scan records, when a handshake brings a device to life.
//!
//! The bus side: [`config`] (addresses and the model), [`bar`] (base
//! address registers), [`adapter`] (one device), [`scan`] (the bus),
//! [`capability`] (virtio capabilities), [`class`], [`describe`] and
//! [`pci_names`] (what a device is called), [`error`].
//!
//! The network side: [`features`] (negotiation), [`queues`] (buffers and
//! the setup of the queues), [`virtq`] (one queue of the transport),
//! [`virtio_net`] (the driver), [`registry`] (the drivers that were made).

pub mod adapter;
pub mod bar;
pub mod capability;
pub mod class;
pub mod config;
pub mod describe;
pub mod error;
pub mod features;
mod fence;
pub mod net_device;
pub mod pci_names;
pub mod queues;
pub mod registry;
pub mod scan;
pub mod virtio_net;
pub mod virtq;
