//! The virtio capabilities of a device: the walk along the capability
//! list in configuration space that finds them, and the place in virtual
//! memory where each comes to lie.

use crate::adapter::{low_byte, BarMapping, PciAdapter, spec_get_bar, spec_mapping};
use crate::config::{
    read_config, spec_config_address, spec_read, ConfigAccess, ConfigRegister, ConfigSpace,
    PCI_CAPABILITY_LIST_REGISTER, PCI_CAP_ID_VNDR, PCI_COMMAND_REGISTER,
    PCI_STATUS_CAPABILITIES_LIST,
};
use crate::error::PciError;
use vstd::prelude::*;

verus! {

/// The common configuration.
pub const VIRTIO_PCI_CAP_COMMON_CFG: u32 = 1;

/// The notifications.
pub const VIRTIO_PCI_CAP_NOTIFY_CFG: u32 = 2;

/// The interrupt status.
pub const VIRTIO_PCI_CAP_ISR_CFG: u32 = 3;

/// The configuration that is specific to the kind of device.
pub const VIRTIO_PCI_CAP_DEVICE_CFG: u32 = 4;

/// Access to the configuration through configuration space.
pub const VIRTIO_PCI_CAP_PCI_CFG: u32 = 5;

/// Capabilities lie behind the header: from this offset on.
pub const PCI_CAPABILITY_FIRST: u32 = 0x40;

/// The most entries that a capability list can have without crossing
/// itself: one for every place behind the header.
pub const PCI_CAPABILITY_LIMIT: u32 = 48;

/// A virtio capability: the region of a resource in which a part of the
/// device's configuration lies.
#[derive(Clone, Copy, Debug, PartialEq, Eq, Structural)]
pub struct VirtioCapability {
    /// What the region holds.
    pub cfg_type: u32,
    /// The base address register of the resource.
    pub bar: u8,
    /// The offset of the region in the resource.
    pub offset: u32,
    /// The length of the region.
    pub length: u32,
    /// For the notifications: the factor between a queue's notification
    /// offset and its place in the region. Zero for the others.
    pub notify_off_multiplier: u32,
}

/// Whether the first word of a capability is that of the virtio
/// capability of type `wanted`: a vendor-specific capability with that
/// type in its top byte.
pub open spec fn spec_is_wanted(word: u32, wanted: u32) -> bool {
    word & 0xFF == PCI_CAP_ID_VNDR && (word >> 24) & 0xFF == wanted
}

/// The offset of the capability that follows: the second byte of the
/// first word, without its two low bits.
pub open spec fn spec_next_pointer(word: u32) -> u32 {
    (word >> 8) & 0xFC
}

/// The offset of the first capability of type `wanted` among those from
/// `pointer` on, following at most `fuel` entries. The list ends with an
/// offset inside the header.
pub open spec fn spec_walk(
    registers: Map<u32, ConfigRegister>,
    bus: u8,
    device: u8,
    pointer: u32,
    wanted: u32,
    fuel: nat,
) -> Option<u32>
    decreases fuel,
{
    if pointer < PCI_CAPABILITY_FIRST || fuel == 0 {
        None
    } else {
        let word = spec_read(registers, spec_config_address(bus, device, pointer));
        if spec_is_wanted(word, wanted) {
            Some(pointer)
        } else {
            spec_walk(
                registers,
                bus,
                device,
                spec_next_pointer(word),
                wanted,
                (fuel - 1) as nat,
            )
        }
    }
}

/// The capability at `pointer`, read as one of type `wanted`.
pub open spec fn spec_capability_at(
    registers: Map<u32, ConfigRegister>,
    bus: u8,
    device: u8,
    pointer: u32,
    wanted: u32,
) -> VirtioCapability {
    VirtioCapability {
        cfg_type: wanted,
        bar: (spec_read(registers, spec_config_address(bus, device, (pointer + 4) as u32))
            & 0xFF) as u8,
        offset: spec_read(registers, spec_config_address(bus, device, (pointer + 8) as u32)),
        length: spec_read(registers, spec_config_address(bus, device, (pointer + 12) as u32)),
        notify_off_multiplier: if wanted == VIRTIO_PCI_CAP_NOTIFY_CFG {
            spec_read(registers, spec_config_address(bus, device, (pointer + 16) as u32))
        } else {
            0
        },
    }
}

/// The first virtio capability of type `wanted` in the list that starts
/// at `caplist`, if there is one.
pub open spec fn spec_capability(
    registers: Map<u32, ConfigRegister>,
    bus: u8,
    device: u8,
    caplist: u32,
    wanted: u32,
) -> Option<VirtioCapability> {
    match spec_walk(registers, bus, device, caplist, wanted, PCI_CAPABILITY_LIMIT as nat) {
        Some(pointer) => Some(spec_capability_at(registers, bus, device, pointer, wanted)),
        None => None,
    }
}

/// What the walk along the capability list waits to do next.
#[derive(Clone, Copy, Debug, PartialEq, Eq, Structural)]
pub enum WalkPhase {
    /// Read the first word of the capability at the pointer.
    Entry,
    /// Read the word that holds the base address register.
    Bar,
    /// Read the offset.
    Offset,
    /// Read the length.
    Length,
    /// Read the notification multiplier.
    Multiplier,
    /// The capability is found and read.
    Found,
    /// The list holds no such capability.
    Missing,
}

/// The walk along the capability list of a device in search of one virtio
/// capability. It performs no access itself: `pending` names the access
/// it needs, and `advance` takes it on once that access is done.
#[derive(Clone, Copy, Debug, PartialEq, Eq, Structural)]
pub struct CapabilityWalk {
    pub phase: WalkPhase,
    pub wanted: u32,
    pub pointer: u32,
    pub steps: u32,
    pub found: VirtioCapability,
}

impl CapabilityWalk {
    /// A walk that starts at `caplist`. A list that starts inside the
    /// header holds nothing.
    pub open spec fn spec_start(caplist: u32, wanted: u32) -> CapabilityWalk {
        CapabilityWalk {
            phase: if caplist < PCI_CAPABILITY_FIRST || caplist > 0xFF {
                WalkPhase::Missing
            } else {
                WalkPhase::Entry
            },
            wanted,
            pointer: caplist,
            steps: 0,
            found: VirtioCapability {
                cfg_type: wanted,
                bar: 0,
                offset: 0,
                length: 0,
                notify_off_multiplier: 0,
            },
        }
    }

    /// The access that the walk needs next, or `None` when it has ended.
    pub open spec fn spec_pending(self) -> Option<ConfigAccess> {
        match self.phase {
            WalkPhase::Entry => Some(ConfigAccess::Read { register: self.pointer }),
            WalkPhase::Bar => Some(ConfigAccess::Read { register: self.pointer.wrapping_add(4) }),
            WalkPhase::Offset => Some(
                ConfigAccess::Read { register: self.pointer.wrapping_add(8) },
            ),
            WalkPhase::Length => Some(
                ConfigAccess::Read { register: self.pointer.wrapping_add(12) },
            ),
            WalkPhase::Multiplier => Some(
                ConfigAccess::Read { register: self.pointer.wrapping_add(16) },
            ),
            WalkPhase::Found => None,
            WalkPhase::Missing => None,
        }
    }

    /// The walk after the pending read was performed and answered `reply`.
    pub open spec fn spec_next(self, reply: u32) -> CapabilityWalk {
        match self.phase {
            WalkPhase::Entry => {
                if spec_is_wanted(reply, self.wanted) {
                    CapabilityWalk { phase: WalkPhase::Bar, ..self }
                } else if spec_next_pointer(reply) < PCI_CAPABILITY_FIRST || self.steps + 1
                    >= PCI_CAPABILITY_LIMIT {
                    CapabilityWalk { phase: WalkPhase::Missing, ..self }
                } else {
                    CapabilityWalk {
                        pointer: spec_next_pointer(reply),
                        steps: (self.steps + 1) as u32,
                        ..self
                    }
                }
            },
            WalkPhase::Bar => CapabilityWalk {
                phase: WalkPhase::Offset,
                found: VirtioCapability { bar: (reply & 0xFF) as u8, ..self.found },
                ..self
            },
            WalkPhase::Offset => CapabilityWalk {
                phase: WalkPhase::Length,
                found: VirtioCapability { offset: reply, ..self.found },
                ..self
            },
            WalkPhase::Length => CapabilityWalk {
                phase: if self.wanted == VIRTIO_PCI_CAP_NOTIFY_CFG {
                    WalkPhase::Multiplier
                } else {
                    WalkPhase::Found
                },
                found: VirtioCapability { length: reply, ..self.found },
                ..self
            },
            WalkPhase::Multiplier => CapabilityWalk {
                phase: WalkPhase::Found,
                found: VirtioCapability { notify_off_multiplier: reply, ..self.found },
                ..self
            },
            WalkPhase::Found => self,
            WalkPhase::Missing => self,
        }
    }

    /// Whether the walk has ended.
    pub open spec fn spec_ended(self) -> bool {
        self.phase == WalkPhase::Found || self.phase == WalkPhase::Missing
    }

    /// The capability, once it is found.
    pub open spec fn spec_result(self) -> Option<VirtioCapability> {
        if self.phase == WalkPhase::Found {
            Some(self.found)
        } else {
            None
        }
    }

    /// A bound on the number of reads that the walk still needs.
    pub open spec fn spec_remaining(self) -> nat {
        match self.phase {
            WalkPhase::Entry => if self.steps < PCI_CAPABILITY_LIMIT {
                (5 + PCI_CAPABILITY_LIMIT - self.steps) as nat
            } else {
                5
            },
            WalkPhase::Bar => 4,
            WalkPhase::Offset => 3,
            WalkPhase::Length => 2,
            WalkPhase::Multiplier => 1,
            WalkPhase::Found => 0,
            WalkPhase::Missing => 0,
        }
    }

    /// What holds between the steps of a walk on given registers that
    /// started at `caplist`.
    pub open spec fn inv(
        self,
        registers: Map<u32, ConfigRegister>,
        bus: u8,
        device: u8,
        caplist: u32,
    ) -> bool {
        let goal = spec_capability(registers, bus, device, caplist, self.wanted);
        let here = spec_capability_at(registers, bus, device, self.pointer, self.wanted);
        let at = spec_walk(
            registers,
            bus,
            device,
            caplist,
            self.wanted,
            PCI_CAPABILITY_LIMIT as nat,
        ) == Some(self.pointer);
        &&& self.found.cfg_type == self.wanted
        &&& !self.spec_ended() ==> PCI_CAPABILITY_FIRST <= self.pointer <= 0xFF
        &&& match self.phase {
            WalkPhase::Entry => {
                &&& self.steps < PCI_CAPABILITY_LIMIT
                &&& self.found.notify_off_multiplier == 0
                &&& spec_walk(
                    registers,
                    bus,
                    device,
                    self.pointer,
                    self.wanted,
                    (PCI_CAPABILITY_LIMIT - self.steps) as nat,
                ) == spec_walk(
                    registers,
                    bus,
                    device,
                    caplist,
                    self.wanted,
                    PCI_CAPABILITY_LIMIT as nat,
                )
            },
            WalkPhase::Bar => at && self.found.notify_off_multiplier == 0,
            WalkPhase::Offset => {
                &&& at
                &&& self.found.notify_off_multiplier == 0
                &&& self.found.bar == here.bar
            },
            WalkPhase::Length => {
                &&& at
                &&& self.found.notify_off_multiplier == 0
                &&& self.found.bar == here.bar
                &&& self.found.offset == here.offset
            },
            WalkPhase::Multiplier => {
                &&& at
                &&& self.wanted == VIRTIO_PCI_CAP_NOTIFY_CFG
                &&& self.found.bar == here.bar
                &&& self.found.offset == here.offset
                &&& self.found.length == here.length
            },
            WalkPhase::Found => goal == Some(self.found),
            WalkPhase::Missing => goal is None,
        }
    }

    /// A walk that has read nothing is in step with any registers.
    pub proof fn lemma_start(
        registers: Map<u32, ConfigRegister>,
        bus: u8,
        device: u8,
        caplist: u32,
        wanted: u32,
    )
        requires
            caplist <= 0xFF,
        ensures
            Self::spec_start(caplist, wanted).inv(registers, bus, device, caplist),
    {
    }

    /// Performing the pending read on the modelled registers and
    /// advancing the walk with the answer keeps the two in step, and
    /// brings the walk nearer to its end.
    pub proof fn lemma_step(
        self,
        registers: Map<u32, ConfigRegister>,
        bus: u8,
        device: u8,
        caplist: u32,
    )
        requires
            self.inv(registers, bus, device, caplist),
            !self.spec_ended(),
        ensures
            ({
                let register = self.spec_pending().unwrap()->Read_register;
                let reply = spec_read(registers, spec_config_address(bus, device, register));
                let next = self.spec_next(reply);
                &&& self.spec_pending() is Some
                &&& self.spec_pending().unwrap() is Read
                &&& next.inv(registers, bus, device, caplist)
                &&& next.spec_remaining() < self.spec_remaining()
                &&& next.wanted == self.wanted
            }),
    {
        let register = self.spec_pending().unwrap()->Read_register;
        let reply = spec_read(registers, spec_config_address(bus, device, register));
        if self.phase == WalkPhase::Entry {
            assert(spec_next_pointer(reply) <= 0xFC) by {
                assert((reply >> 8) & 0xFC <= 0xFC) by (bit_vector);
            }
            let fuel = (PCI_CAPABILITY_LIMIT - self.steps) as nat;
            if !spec_is_wanted(reply, self.wanted) && self.steps + 1 >= PCI_CAPABILITY_LIMIT {
                assert(spec_walk(
                    registers,
                    bus,
                    device,
                    spec_next_pointer(reply),
                    self.wanted,
                    (fuel - 1) as nat,
                ) is None);
            }
        }
    }

    /// A walk that starts at `caplist`, of which only the low byte
    /// counts, in search of the capability of type `wanted`.
    pub fn new(caplist: u32, wanted: u32) -> (walk: CapabilityWalk)
        ensures
            walk == CapabilityWalk::spec_start(caplist, wanted),
    {
        CapabilityWalk {
            phase: if caplist < PCI_CAPABILITY_FIRST || caplist > 0xFF {
                WalkPhase::Missing
            } else {
                WalkPhase::Entry
            },
            wanted,
            pointer: caplist,
            steps: 0,
            found: VirtioCapability {
                cfg_type: wanted,
                bar: 0,
                offset: 0,
                length: 0,
                notify_off_multiplier: 0,
            },
        }
    }

    /// The read to perform next, or `None` when the walk has ended.
    pub fn pending(&self) -> (access: Option<ConfigAccess>)
        ensures
            access == self.spec_pending(),
    {
        match self.phase {
            WalkPhase::Entry => Some(ConfigAccess::Read { register: self.pointer }),
            WalkPhase::Bar => Some(ConfigAccess::Read { register: self.pointer.wrapping_add(4) }),
            WalkPhase::Offset => Some(
                ConfigAccess::Read { register: self.pointer.wrapping_add(8) },
            ),
            WalkPhase::Length => Some(
                ConfigAccess::Read { register: self.pointer.wrapping_add(12) },
            ),
            WalkPhase::Multiplier => Some(
                ConfigAccess::Read { register: self.pointer.wrapping_add(16) },
            ),
            WalkPhase::Found => None,
            WalkPhase::Missing => None,
        }
    }

    /// Takes the walk on after the pending read was performed and
    /// answered `reply`.
    pub fn advance(&mut self, reply: u32)
        ensures
            *final(self) == old(self).spec_next(reply),
    {
        match self.phase {
            WalkPhase::Entry => {
                let next: u32 = (reply >> 8) & 0xFC;
                if reply & 0xFF == PCI_CAP_ID_VNDR && (reply >> 24) & 0xFF == self.wanted {
                    self.phase = WalkPhase::Bar;
                } else if next < PCI_CAPABILITY_FIRST || self.steps >= PCI_CAPABILITY_LIMIT - 1 {
                    self.phase = WalkPhase::Missing;
                } else {
                    self.pointer = next;
                    self.steps = self.steps + 1;
                }
            },
            WalkPhase::Bar => {
                self.found.bar = low_byte(reply);
                self.phase = WalkPhase::Offset;
            },
            WalkPhase::Offset => {
                self.found.offset = reply;
                self.phase = WalkPhase::Length;
            },
            WalkPhase::Length => {
                self.found.length = reply;
                if self.wanted == VIRTIO_PCI_CAP_NOTIFY_CFG {
                    self.phase = WalkPhase::Multiplier;
                } else {
                    self.phase = WalkPhase::Found;
                }
            },
            WalkPhase::Multiplier => {
                self.found.notify_off_multiplier = reply;
                self.phase = WalkPhase::Found;
            },
            WalkPhase::Found => {},
            WalkPhase::Missing => {},
        }
    }

    /// Whether the walk has ended, with a capability or without.
    pub fn has_ended(&self) -> (ended: bool)
        ensures
            ended == self.spec_ended(),
    {
        self.phase == WalkPhase::Found || self.phase == WalkPhase::Missing
    }

    /// The capability, or `None` where the walk did not find it.
    pub fn result(&self) -> (capability: Option<VirtioCapability>)
        ensures
            capability == self.spec_result(),
    {
        if self.phase == WalkPhase::Found {
            Some(self.found)
        } else {
            None
        }
    }
}

/// Searches the capability list of a device of the modelled configuration
/// space, which starts at `caplist`, for the virtio capability of type
/// `wanted`.
pub fn find_capability(space: &ConfigSpace, bus: u8, device: u8, caplist: u8, wanted: u32) -> (capability:
    Option<VirtioCapability>)
    ensures
        capability == spec_capability(space@, bus, device, caplist as u32, wanted),
{
    let mut walk = CapabilityWalk::new(caplist as u32, wanted);
    proof {
        CapabilityWalk::lemma_start(space@, bus, device, caplist as u32, wanted);
    }
    while !walk.has_ended()
        invariant
            walk.inv(space@, bus, device, caplist as u32),
            walk.wanted == wanted,
        decreases walk.spec_remaining(),
    {
        proof {
            walk.lemma_step(space@, bus, device, caplist as u32);
        }
        match walk.pending() {
            Some(ConfigAccess::Read { register }) => {
                let reply: u32 = read_config(space, bus, device, register);
                walk.advance(reply);
            },
            _ => {},
        }
    }
    walk.result()
}

/// A virtio capability in virtual memory.
#[derive(Clone, Copy, Debug, PartialEq, Eq, Structural)]
pub struct MappedCapability {
    /// The mapping of the resource that the capability lies in.
    pub mapping: BarMapping,
    /// The virtual address of the capability: its offset into the mapping.
    pub address: u64,
    /// The length of the capability.
    pub length: u32,
    /// For the notifications, the multiplier; else zero.
    pub notify_off_multiplier: u32,
}

/// Where a capability comes to lie once its resource is mapped, without
/// caching: `None` where the resource cannot be mapped, or the capability
/// would lie behind the last address.
pub open spec fn spec_map_capability(bars: Seq<crate::bar::PciBar>, capability: VirtioCapability) -> Option<
    MappedCapability,
> {
    match spec_mapping(spec_get_bar(bars, capability.bar), true) {
        Some(mapping) => if mapping.virtual_address + capability.offset <= u64::MAX {
            Some(
                MappedCapability {
                    mapping,
                    address: (mapping.virtual_address + capability.offset) as u64,
                    length: capability.length,
                    notify_off_multiplier: capability.notify_off_multiplier,
                },
            )
        } else {
            None
        },
        None => None,
    }
}

/// Decides where a capability of a device comes to lie in virtual memory:
/// in the mapping of its resource, at its offset.
pub fn map_capability(adapter: &PciAdapter, capability: VirtioCapability) -> (mapped: Option<
    MappedCapability,
>)
    ensures
        mapped == spec_map_capability(adapter.base_addresses@, capability),
{
    match adapter.memory_map_bar(capability.bar, true) {
        Some(mapping) => {
            if capability.offset as u64 <= u64::MAX - mapping.virtual_address {
                Some(
                    MappedCapability {
                        mapping,
                        address: mapping.virtual_address + capability.offset as u64,
                        length: capability.length,
                        notify_off_multiplier: capability.notify_off_multiplier,
                    },
                )
            } else {
                None
            }
        },
        None => None,
    }
}

/// Finds the virtio capability of type `virtiocaptype` of a device of the
/// modelled configuration space and decides where it comes to lie in
/// virtual memory. The list starts at the low byte of `caplist`.
pub fn map_virtiocap(
    space: &ConfigSpace,
    bus: u8,
    device: u8,
    adapter: &PciAdapter,
    caplist: u32,
    virtiocaptype: u32,
) -> (mapped: Option<MappedCapability>)
    ensures
        mapped == match spec_capability(
            space@,
            bus,
            device,
            caplist & 0xFF,
            virtiocaptype,
        ) {
            Some(capability) => spec_map_capability(adapter.base_addresses@, capability),
            None => None,
        },
{
    match find_capability(space, bus, device, low_byte(caplist), virtiocaptype) {
        Some(capability) => map_capability(adapter, capability),
        None => None,
    }
}

/// The four virtio capabilities that the network driver needs.
#[derive(Clone, Copy, Debug, PartialEq, Eq, Structural)]
pub struct VirtioCapabilities {
    pub common: VirtioCapability,
    pub device: VirtioCapability,
    pub isr: VirtioCapability,
    pub notify: VirtioCapability,
}

/// The type of the capability that is searched for in place `kind` of
/// four: the common configuration, the device configuration, the interrupt
/// status, the notifications.
pub open spec fn spec_kind_type(kind: u8) -> u32 {
    if kind == 0 {
        VIRTIO_PCI_CAP_COMMON_CFG
    } else if kind == 1 {
        VIRTIO_PCI_CAP_DEVICE_CFG
    } else if kind == 2 {
        VIRTIO_PCI_CAP_ISR_CFG
    } else {
        VIRTIO_PCI_CAP_NOTIFY_CFG
    }
}

/// The type of the capability that is searched for in place `kind`.
pub fn kind_type(kind: u8) -> (cfg_type: u32)
    ensures
        cfg_type == spec_kind_type(kind),
{
    if kind == 0 {
        VIRTIO_PCI_CAP_COMMON_CFG
    } else if kind == 1 {
        VIRTIO_PCI_CAP_DEVICE_CFG
    } else if kind == 2 {
        VIRTIO_PCI_CAP_ISR_CFG
    } else {
        VIRTIO_PCI_CAP_NOTIFY_CFG
    }
}

/// Whether the status half of a command word announces a capability list.
pub open spec fn spec_has_capability_list(command: u32) -> bool {
    (command >> 16) & PCI_STATUS_CAPABILITIES_LIST != 0
}

/// The four capabilities of a device on given registers, or why they
/// cannot be had: the device announces no capability list, the list
/// starts inside the header, or one of the four is not in it.
pub open spec fn spec_locate(
    registers: Map<u32, ConfigRegister>,
    bus: u8,
    device: u8,
    device_id: u16,
) -> Result<VirtioCapabilities, PciError> {
    let command = spec_read(registers, spec_config_address(bus, device, PCI_COMMAND_REGISTER));
    let caplist = spec_read(
        registers,
        spec_config_address(bus, device, PCI_CAPABILITY_LIST_REGISTER),
    ) & 0xFF;
    let common = spec_capability(registers, bus, device, caplist, spec_kind_type(0));
    let specific = spec_capability(registers, bus, device, caplist, spec_kind_type(1));
    let isr = spec_capability(registers, bus, device, caplist, spec_kind_type(2));
    let notify = spec_capability(registers, bus, device, caplist, spec_kind_type(3));
    if !spec_has_capability_list(command) {
        Err(PciError::NoCapPtr(device_id))
    } else if caplist < PCI_CAPABILITY_FIRST {
        Err(PciError::BadCapPtr(device_id))
    } else if common is None || specific is None || isr is None || notify is None {
        Err(PciError::NoVirtioCaps(device_id))
    } else {
        Ok(
            VirtioCapabilities {
                common: common.unwrap(),
                device: specific.unwrap(),
                isr: isr.unwrap(),
                notify: notify.unwrap(),
            },
        )
    }
}

/// What the search for the four capabilities waits to do next.
#[derive(Clone, Copy, Debug, PartialEq, Eq, Structural)]
pub enum LocatePhase {
    /// Read the command and status register.
    Status,
    /// Read the pointer to the capability list.
    Pointer,
    /// Walk the list for the capability of the current kind.
    Walk,
    /// All four capabilities are found.
    Located,
    /// The capabilities cannot be had.
    Failed,
}

/// The search for the four virtio capabilities of a device. It performs
/// no access itself: `pending` names the access it needs, and `advance`
/// takes it on once that access is done.
#[derive(Clone, Copy, Debug, PartialEq, Eq, Structural)]
pub struct CapabilityScan {
    pub phase: LocatePhase,
    pub device_id: u16,
    pub caplist: u32,
    pub kind: u8,
    pub walk: CapabilityWalk,
    pub found: VirtioCapabilities,
    pub error: PciError,
}

impl CapabilityScan {
    /// A capability of which nothing is read yet.
    pub open spec fn spec_blank(cfg_type: u32) -> VirtioCapability {
        VirtioCapability { cfg_type, bar: 0, offset: 0, length: 0, notify_off_multiplier: 0 }
    }

    /// A search that has read nothing yet.
    pub open spec fn spec_start(device_id: u16) -> CapabilityScan {
        CapabilityScan {
            phase: LocatePhase::Status,
            device_id,
            caplist: 0,
            kind: 0,
            walk: CapabilityWalk::spec_start(0, spec_kind_type(0)),
            found: VirtioCapabilities {
                common: Self::spec_blank(spec_kind_type(0)),
                device: Self::spec_blank(spec_kind_type(1)),
                isr: Self::spec_blank(spec_kind_type(2)),
                notify: Self::spec_blank(spec_kind_type(3)),
            },
            error: PciError::General(device_id),
        }
    }

    /// The access that the search needs next, or `None` when it has
    /// ended.
    pub open spec fn spec_pending(self) -> Option<ConfigAccess> {
        match self.phase {
            LocatePhase::Status => Some(ConfigAccess::Read { register: PCI_COMMAND_REGISTER }),
            LocatePhase::Pointer => Some(
                ConfigAccess::Read { register: PCI_CAPABILITY_LIST_REGISTER },
            ),
            LocatePhase::Walk => self.walk.spec_pending(),
            LocatePhase::Located => None,
            LocatePhase::Failed => None,
        }
    }

    /// What is found so far, with `capability` in the place of `kind`.
    pub open spec fn spec_with_found(self, kind: u8, capability: VirtioCapability) -> VirtioCapabilities {
        if kind == 0 {
            VirtioCapabilities { common: capability, ..self.found }
        } else if kind == 1 {
            VirtioCapabilities { device: capability, ..self.found }
        } else if kind == 2 {
            VirtioCapabilities { isr: capability, ..self.found }
        } else {
            VirtioCapabilities { notify: capability, ..self.found }
        }
    }

    /// The search after the pending read was performed and answered
    /// `reply`.
    pub open spec fn spec_next(self, reply: u32) -> CapabilityScan {
        match self.phase {
            LocatePhase::Status => {
                if spec_has_capability_list(reply) {
                    CapabilityScan { phase: LocatePhase::Pointer, ..self }
                } else {
                    CapabilityScan {
                        phase: LocatePhase::Failed,
                        error: PciError::NoCapPtr(self.device_id),
                        ..self
                    }
                }
            },
            LocatePhase::Pointer => {
                let caplist = reply & 0xFF;
                if caplist < PCI_CAPABILITY_FIRST {
                    CapabilityScan {
                        phase: LocatePhase::Failed,
                        caplist,
                        error: PciError::BadCapPtr(self.device_id),
                        ..self
                    }
                } else {
                    CapabilityScan {
                        phase: LocatePhase::Walk,
                        caplist,
                        kind: 0,
                        walk: CapabilityWalk::spec_start(caplist, spec_kind_type(0)),
                        ..self
                    }
                }
            },
            LocatePhase::Walk => {
                let walk = self.walk.spec_next(reply);
                if walk.phase == WalkPhase::Found {
                    let found = self.spec_with_found(self.kind, walk.found);
                    if self.kind >= 3 {
                        CapabilityScan { phase: LocatePhase::Located, walk, found, ..self }
                    } else {
                        CapabilityScan {
                            kind: (self.kind + 1) as u8,
                            walk: CapabilityWalk::spec_start(
                                self.caplist,
                                spec_kind_type((self.kind + 1) as u8),
                            ),
                            found,
                            ..self
                        }
                    }
                } else if walk.phase == WalkPhase::Missing {
                    CapabilityScan {
                        phase: LocatePhase::Failed,
                        walk,
                        error: PciError::NoVirtioCaps(self.device_id),
                        ..self
                    }
                } else {
                    CapabilityScan { walk, ..self }
                }
            },
            LocatePhase::Located => self,
            LocatePhase::Failed => self,
        }
    }

    /// Whether the search has ended.
    pub open spec fn spec_ended(self) -> bool {
        self.phase == LocatePhase::Located || self.phase == LocatePhase::Failed
    }

    /// The capabilities, or why they cannot be had, once the search has
    /// ended.
    pub open spec fn spec_result(self) -> Result<VirtioCapabilities, PciError> {
        if self.phase == LocatePhase::Located {
            Ok(self.found)
        } else {
            Err(self.error)
        }
    }

    /// A bound on the number of reads that the search still needs.
    pub open spec fn spec_remaining(self) -> nat {
        let kinds: nat = if self.kind < 3 {
            (3 - self.kind) as nat
        } else {
            0
        };
        match self.phase {
            LocatePhase::Status => 218,
            LocatePhase::Pointer => 217,
            LocatePhase::Walk => 54 * kinds + self.walk.spec_remaining(),
            LocatePhase::Located => 0,
            LocatePhase::Failed => 0,
        }
    }

    /// What holds between the steps of a search on given registers.
    pub open spec fn inv(self, registers: Map<u32, ConfigRegister>, bus: u8, device: u8) -> bool {
        let command = spec_read(
            registers,
            spec_config_address(bus, device, PCI_COMMAND_REGISTER),
        );
        let caplist = spec_read(
            registers,
            spec_config_address(bus, device, PCI_CAPABILITY_LIST_REGISTER),
        ) & 0xFF;
        let common = spec_capability(registers, bus, device, caplist, spec_kind_type(0));
        let specific = spec_capability(registers, bus, device, caplist, spec_kind_type(1));
        let isr = spec_capability(registers, bus, device, caplist, spec_kind_type(2));
        let notify = spec_capability(registers, bus, device, caplist, spec_kind_type(3));
        match self.phase {
            LocatePhase::Status => true,
            LocatePhase::Pointer => spec_has_capability_list(command),
            LocatePhase::Walk => {
                &&& spec_has_capability_list(command)
                &&& self.caplist == caplist
                &&& PCI_CAPABILITY_FIRST <= caplist <= 0xFF
                &&& self.kind <= 3
                &&& self.walk.wanted == spec_kind_type(self.kind)
                &&& self.walk.inv(registers, bus, device, caplist)
                &&& !self.walk.spec_ended()
                &&& self.kind > 0 ==> common == Some(self.found.common)
                &&& self.kind > 1 ==> specific == Some(self.found.device)
                &&& self.kind > 2 ==> isr == Some(self.found.isr)
            },
            LocatePhase::Located => spec_locate(registers, bus, device, self.device_id) == Ok::<
                VirtioCapabilities,
                PciError,
            >(self.found),
            LocatePhase::Failed => spec_locate(registers, bus, device, self.device_id) == Err::<
                VirtioCapabilities,
                PciError,
            >(self.error),
        }
    }

    /// Performing the pending read on the modelled registers and
    /// advancing the search with the answer keeps the two in step, and
    /// brings the search nearer to its end.
    pub proof fn lemma_step(self, registers: Map<u32, ConfigRegister>, bus: u8, device: u8)
        requires
            self.inv(registers, bus, device),
            !self.spec_ended(),
        ensures
            ({
                let register = self.spec_pending().unwrap()->Read_register;
                let reply = spec_read(registers, spec_config_address(bus, device, register));
                let next = self.spec_next(reply);
                &&& self.spec_pending() is Some
                &&& self.spec_pending().unwrap() is Read
                &&& next.inv(registers, bus, device)
                &&& next.spec_remaining() < self.spec_remaining()
                &&& next.device_id == self.device_id
            }),
    {
        let register = self.spec_pending().unwrap()->Read_register;
        let reply = spec_read(registers, spec_config_address(bus, device, register));
        match self.phase {
            LocatePhase::Pointer => {
                let caplist = reply & 0xFF;
                assert(reply & 0xFF <= 0xFF) by (bit_vector);
                CapabilityWalk::lemma_start(registers, bus, device, caplist, spec_kind_type(0));
            },
            LocatePhase::Walk => {
                self.walk.lemma_step(registers, bus, device, self.caplist);
                if self.kind < 3 {
                    CapabilityWalk::lemma_start(
                        registers,
                        bus,
                        device,
                        self.caplist,
                        spec_kind_type((self.kind + 1) as u8),
                    );
                }
            },
            _ => {},
        }
    }

    /// A search for the capabilities of the device with this ID that has
    /// read nothing yet.
    pub fn new(device_id: u16) -> (scan: CapabilityScan)
        ensures
            scan == CapabilityScan::spec_start(device_id),
    {
        CapabilityScan {
            phase: LocatePhase::Status,
            device_id,
            caplist: 0,
            kind: 0,
            walk: CapabilityWalk::new(0, kind_type(0)),
            found: VirtioCapabilities {
                common: Self::blank(kind_type(0)),
                device: Self::blank(kind_type(1)),
                isr: Self::blank(kind_type(2)),
                notify: Self::blank(kind_type(3)),
            },
            error: PciError::General(device_id),
        }
    }

    fn blank(cfg_type: u32) -> (capability: VirtioCapability)
        ensures
            capability == Self::spec_blank(cfg_type),
    {
        VirtioCapability { cfg_type, bar: 0, offset: 0, length: 0, notify_off_multiplier: 0 }
    }

    /// The read to perform next, or `None` when the search has ended.
    pub fn pending(&self) -> (access: Option<ConfigAccess>)
        ensures
            access == self.spec_pending(),
    {
        match self.phase {
            LocatePhase::Status => Some(ConfigAccess::Read { register: PCI_COMMAND_REGISTER }),
            LocatePhase::Pointer => Some(
                ConfigAccess::Read { register: PCI_CAPABILITY_LIST_REGISTER },
            ),
            LocatePhase::Walk => self.walk.pending(),
            LocatePhase::Located => None,
            LocatePhase::Failed => None,
        }
    }

    /// Takes the search on after the pending read was performed and
    /// answered `reply`.
    pub fn advance(&mut self, reply: u32)
        ensures
            *final(self) == old(self).spec_next(reply),
    {
        match self.phase {
            LocatePhase::Status => {
                if (reply >> 16) & PCI_STATUS_CAPABILITIES_LIST != 0 {
                    self.phase = LocatePhase::Pointer;
                } else {
                    self.phase = LocatePhase::Failed;
                    self.error = PciError::NoCapPtr(self.device_id);
                }
            },
            LocatePhase::Pointer => {
                self.caplist = reply & 0xFF;
                if self.caplist < PCI_CAPABILITY_FIRST {
                    self.phase = LocatePhase::Failed;
                    self.error = PciError::BadCapPtr(self.device_id);
                } else {
                    self.phase = LocatePhase::Walk;
                    self.kind = 0;
                    self.walk = CapabilityWalk::new(self.caplist, kind_type(0));
                }
            },
            LocatePhase::Walk => {
                self.walk.advance(reply);
                match self.walk.result() {
                    Some(capability) => {
                        if self.kind == 0 {
                            self.found.common = capability;
                        } else if self.kind == 1 {
                            self.found.device = capability;
                        } else if self.kind == 2 {
                            self.found.isr = capability;
                        } else {
                            self.found.notify = capability;
                        }
                        if self.kind >= 3 {
                            self.phase = LocatePhase::Located;
                        } else {
                            self.kind = self.kind + 1;
                            self.walk = CapabilityWalk::new(self.caplist, kind_type(self.kind));
                        }
                    },
                    None => {
                        if self.walk.has_ended() {
                            self.phase = LocatePhase::Failed;
                            self.error = PciError::NoVirtioCaps(self.device_id);
                        }
                    },
                }
            },
            LocatePhase::Located => {},
            LocatePhase::Failed => {},
        }
    }

    /// Whether the search has ended, one way or the other.
    pub fn has_ended(&self) -> (ended: bool)
        ensures
            ended == self.spec_ended(),
    {
        self.phase == LocatePhase::Located || self.phase == LocatePhase::Failed
    }

    /// The capabilities, or why they cannot be had.
    pub fn result(&self) -> (capabilities: Result<VirtioCapabilities, PciError>)
        ensures
            capabilities == self.spec_result(),
    {
        if self.phase == LocatePhase::Located {
            Ok(self.found)
        } else {
            Err(self.error)
        }
    }
}

/// Finds the four virtio capabilities of a device of the modelled
/// configuration space.
pub fn locate_capabilities(space: &ConfigSpace, bus: u8, device: u8, device_id: u16) -> (capabilities:
    Result<VirtioCapabilities, PciError>)
    ensures
        capabilities == spec_locate(space@, bus, device, device_id),
{
    let mut scan = CapabilityScan::new(device_id);
    while !scan.has_ended()
        invariant
            scan.inv(space@, bus, device),
            scan.device_id == device_id,
        decreases scan.spec_remaining(),
    {
        proof {
            scan.lemma_step(space@, bus, device);
        }
        match scan.pending() {
            Some(ConfigAccess::Read { register }) => {
                let reply: u32 = read_config(space, bus, device, register);
                scan.advance(reply);
            },
            _ => {},
        }
    }
    scan.result()
}

/// The four capabilities in virtual memory.
#[derive(Clone, Copy, Debug, PartialEq, Eq, Structural)]
pub struct VirtioRegions {
    pub common_cfg: MappedCapability,
    pub device_cfg: MappedCapability,
    pub isr_cfg: MappedCapability,
    pub notify_cfg: MappedCapability,
}

/// Where the four capabilities come to lie, or that a resource cannot be
/// mapped.
pub open spec fn spec_map_capabilities(
    bars: Seq<crate::bar::PciBar>,
    capabilities: VirtioCapabilities,
    device_id: u16,
) -> Result<VirtioRegions, PciError> {
    let common = spec_map_capability(bars, capabilities.common);
    let specific = spec_map_capability(bars, capabilities.device);
    let isr = spec_map_capability(bars, capabilities.isr);
    let notify = spec_map_capability(bars, capabilities.notify);
    if common is None || specific is None || isr is None || notify is None {
        Err(PciError::NoBar(device_id))
    } else {
        Ok(
            VirtioRegions {
                common_cfg: common.unwrap(),
                device_cfg: specific.unwrap(),
                isr_cfg: isr.unwrap(),
                notify_cfg: notify.unwrap(),
            },
        )
    }
}

/// Decides where the four capabilities of a device come to lie in virtual
/// memory.
pub fn map_capabilities(adapter: &PciAdapter, capabilities: VirtioCapabilities) -> (regions: Result<
    VirtioRegions,
    PciError,
>)
    ensures
        regions == spec_map_capabilities(
            adapter.base_addresses@,
            capabilities,
            adapter.device_id,
        ),
{
    let common = map_capability(adapter, capabilities.common);
    let specific = map_capability(adapter, capabilities.device);
    let isr = map_capability(adapter, capabilities.isr);
    let notify = map_capability(adapter, capabilities.notify);
    match (common, specific, isr, notify) {
        (Some(common_cfg), Some(device_cfg), Some(isr_cfg), Some(notify_cfg)) => Ok(
            VirtioRegions { common_cfg, device_cfg, isr_cfg, notify_cfg },
        ),
        _ => Err(PciError::NoBar(adapter.device_id)),
    }
}

} // verus!
