//! Configuration-space addressing, the register constants of the PCI 2.x
//! header, and a model of configuration space.

use std::collections::HashMap;
use vstd::prelude::*;

verus! {

/// Buses `0..PCI_MAX_BUS_NUMBER` are scanned.
pub const PCI_MAX_BUS_NUMBER: u8 = 32;

/// Devices `0..PCI_MAX_DEVICE_NUMBER` of each bus are scanned.
pub const PCI_MAX_DEVICE_NUMBER: u8 = 32;

pub const PCI_CONFIG_ADDRESS_PORT: u16 = 0xCF8;

pub const PCI_CONFIG_ADDRESS_ENABLE: u32 = 0x8000_0000;

pub const PCI_CONFIG_DATA_PORT: u16 = 0xCFC;

pub const PCI_COMMAND_BUSMASTER: u32 = 0x0000_0004;

pub const PCI_ID_REGISTER: u32 = 0x00;

pub const PCI_COMMAND_REGISTER: u32 = 0x04;

pub const PCI_CLASS_REGISTER: u32 = 0x08;

pub const PCI_HEADER_REGISTER: u32 = 0x0C;

pub const PCI_BAR0_REGISTER: u32 = 0x10;

pub const PCI_CAPABILITY_LIST_REGISTER: u32 = 0x34;

pub const PCI_INTERRUPT_REGISTER: u32 = 0x3C;

pub const PCI_STATUS_CAPABILITIES_LIST: u32 = 0x0000_0010;

pub const PCI_BASE_ADDRESS_IO_SPACE: u32 = 0x0000_0001;

pub const PCI_MEM_BASE_ADDRESS_64BIT: u32 = 0x0000_0004;

pub const PCI_MEM_PREFETCHABLE: u32 = 0x0000_0008;

pub const PCI_MEM_BASE_ADDRESS_MASK: u32 = 0xFFFF_FFF0;

pub const PCI_IO_BASE_ADDRESS_MASK: u32 = 0xFFFF_FFFC;

pub const PCI_HEADER_TYPE_MASK: u32 = 0x007F_0000;

pub const PCI_MULTIFUNCTION_MASK: u32 = 0x0080_0000;

pub const PCI_CAP_ID_VNDR: u32 = 0x09;

/// The value to write to the address port to select `register` of
/// `device` on `bus`: the enable bit, the bus in bits 16 to 23, the device
/// from bit 11 upwards, and the register offset.
pub open spec fn spec_config_address(bus: u8, device: u8, register: u32) -> u32 {
    PCI_CONFIG_ADDRESS_ENABLE | ((bus as u32) << 16) | ((device as u32) << 11) | register
}

/// Computes the configuration address of a register.
pub fn config_address(bus: u8, device: u8, register: u32) -> (address: u32)
    ensures
        address == spec_config_address(bus, device, register),
{
    PCI_CONFIG_ADDRESS_ENABLE | ((bus as u32) << 16) | ((device as u32) << 11) | register
}

/// The low byte of a configuration address is the register offset, so two
/// registers in the 256-byte header of one device never share an address.
pub proof fn lemma_config_address_register(bus: u8, device: u8, register: u32)
    requires
        register < 0x100,
    ensures
        spec_config_address(bus, device, register) & 0xFF == register,
{
    let b: u32 = bus as u32;
    let d: u32 = device as u32;
    assert((0x8000_0000u32 | (b << 16) | (d << 11) | register) & 0xFF == register) by (bit_vector)
        requires
            register < 0x100,
            b < 0x100,
            d < 0x100,
    ;
}

/// One access to the configuration space of a device.
#[derive(Clone, Copy, Debug, PartialEq, Eq, Structural)]
pub enum ConfigAccess {
    /// Read the 32-bit register at this offset.
    Read { register: u32 },
    /// Write `data` to the 32-bit register at this offset.
    Write { register: u32, data: u32 },
}

/// A 32-bit configuration register as a device implements it: the bits of
/// `writable` take what is written, the others keep their value.
#[derive(Clone, Copy, Debug, PartialEq, Eq, Structural)]
pub struct ConfigRegister {
    pub value: u32,
    pub writable: u32,
}

impl ConfigRegister {
    /// The register after `data` is written to it.
    pub open spec fn written(self, data: u32) -> ConfigRegister {
        ConfigRegister {
            value: (data & self.writable) | (self.value & !self.writable),
            writable: self.writable,
        }
    }

    /// Writes `data` to the register.
    pub fn write(self, data: u32) -> (after: ConfigRegister)
        ensures
            after == self.written(data),
    {
        ConfigRegister {
            value: (data & self.writable) | (self.value & !self.writable),
            writable: self.writable,
        }
    }
}

/// Writing back the value that a register held undoes any write in between.
pub proof fn lemma_write_restores(register: ConfigRegister, data: u32)
    ensures
        register.written(data).written(register.value) == register,
{
    let v: u32 = register.value;
    let w: u32 = register.writable;
    assert((v & w) | (((data & w) | (v & !w)) & !w) == v) by (bit_vector);
}

/// What a read of `address` returns: the register's value, or all ones
/// where no device answers.
pub open spec fn spec_read(registers: Map<u32, ConfigRegister>, address: u32) -> u32 {
    if registers.contains_key(address) {
        registers[address].value
    } else {
        0xFFFF_FFFF
    }
}

/// The registers after `data` is written to `address`. A write that no
/// device answers changes nothing.
pub open spec fn spec_write(registers: Map<u32, ConfigRegister>, address: u32, data: u32) -> Map<
    u32,
    ConfigRegister,
> {
    if registers.contains_key(address) {
        registers.insert(address, registers[address].written(data))
    } else {
        registers
    }
}

/// What a read of `address` returns after all ones were written to it.
pub open spec fn spec_probe(registers: Map<u32, ConfigRegister>, address: u32) -> u32 {
    spec_read(spec_write(registers, address, 0xFFFF_FFFF), address)
}

/// A write followed by a write of the value that was there before leaves
/// every register as it was.
pub proof fn lemma_restore(registers: Map<u32, ConfigRegister>, address: u32, data: u32)
    ensures
        spec_write(spec_write(registers, address, data), address, spec_read(registers, address))
            == registers,
{
    if registers.contains_key(address) {
        lemma_write_restores(registers[address], data);
        assert(spec_write(
            spec_write(registers, address, data),
            address,
            spec_read(registers, address),
        ) =~= registers);
    }
}

/// The number of 32-bit registers in the header of a device.
pub const PCI_HEADER_REGISTERS: u32 = 64;

/// The word of an ID register: the device ID above the vendor ID.
pub open spec fn spec_id_word(vendor_id: u16, device_id: u16) -> u32 {
    ((device_id as u32) << 16) | (vendor_id as u32)
}

/// The registers with the first `count` registers of the header of a
/// device installed: the ID register holds `id`, the others read zero, and
/// none can be written.
pub open spec fn spec_with_header(
    registers: Map<u32, ConfigRegister>,
    bus: u8,
    device: u8,
    id: u32,
    count: nat,
) -> Map<u32, ConfigRegister>
    decreases count,
{
    if count == 0 {
        registers
    } else {
        spec_with_header(registers, bus, device, id, (count - 1) as nat).insert(
            spec_config_address(bus, device, (4 * (count - 1)) as u32),
            ConfigRegister {
                value: if count == 1 {
                    id
                } else {
                    0
                },
                writable: 0,
            },
        )
    }
}

/// In a header installed afresh, the ID register reads the ID and every
/// other register of the header reads zero and ignores writes.
pub proof fn lemma_with_header(
    registers: Map<u32, ConfigRegister>,
    bus: u8,
    device: u8,
    id: u32,
    count: nat,
    index: nat,
)
    requires
        index < count <= PCI_HEADER_REGISTERS,
    ensures
        spec_with_header(registers, bus, device, id, count).contains_key(
            spec_config_address(bus, device, (4 * index) as u32),
        ),
        spec_with_header(registers, bus, device, id, count)[spec_config_address(
            bus,
            device,
            (4 * index) as u32,
        )] == (ConfigRegister {
            value: if index == 0 {
                id
            } else {
                0
            },
            writable: 0,
        }),
    decreases count,
{
    lemma_config_address_register(bus, device, (4 * index) as u32);
    lemma_config_address_register(bus, device, (4 * (count - 1)) as u32);
    if index + 1 < count {
        lemma_with_header(registers, bus, device, id, (count - 1) as nat, index);
    }
}

/// A model of configuration space: the registers that answer, by
/// configuration address. It is the hardware against which the probing
/// protocols of this library are verified, and it stands in for the
/// hardware where there is none.
#[derive(Debug)]
pub struct ConfigSpace {
    registers: HashMap<u32, ConfigRegister>,
}

impl View for ConfigSpace {
    type V = Map<u32, ConfigRegister>;

    closed spec fn view(&self) -> Map<u32, ConfigRegister> {
        self.registers@
    }
}

impl ConfigSpace {
    /// A configuration space in which no device answers.
    pub fn new() -> (space: ConfigSpace)
        ensures
            space@ == Map::<u32, ConfigRegister>::empty(),
    {
        ConfigSpace { registers: HashMap::new() }
    }

    /// Installs a register with its value and its writable bits, replacing
    /// what was at its address.
    pub fn set_register(&mut self, bus: u8, device: u8, register: u32, value: u32, writable: u32)
        ensures
            final(self)@ == old(self)@.insert(
                spec_config_address(bus, device, register),
                ConfigRegister { value, writable },
            ),
    {
        let address: u32 = config_address(bus, device, register);
        self.registers.insert(address, ConfigRegister { value, writable });
    }

    /// Installs the 64 registers of the header of a device: the ID
    /// register holds `device_id` above `vendor_id`, every other register
    /// reads zero, and none can be written. Registers installed before at
    /// these addresses are replaced.
    pub fn add_device(&mut self, bus: u8, device: u8, vendor_id: u16, device_id: u16)
        ensures
            final(self)@ == spec_with_header(
                old(self)@,
                bus,
                device,
                spec_id_word(vendor_id, device_id),
                PCI_HEADER_REGISTERS as nat,
            ),
    {
        let id: u32 = ((device_id as u32) << 16) | (vendor_id as u32);
        let mut index: u32 = 0;
        while index < PCI_HEADER_REGISTERS
            invariant
                index <= PCI_HEADER_REGISTERS,
                id == spec_id_word(vendor_id, device_id),
                self@ == spec_with_header(old(self)@, bus, device, id, index as nat),
            decreases PCI_HEADER_REGISTERS - index,
        {
            let value: u32 = if index == 0 {
                id
            } else {
                0
            };
            self.set_register(bus, device, 4 * index, value, 0);
            index = index + 1;
        }
    }

    /// Performs one access and returns what was read (zero for a write).
    pub fn access(&mut self, bus: u8, device: u8, access: ConfigAccess) -> (reply: u32)
        ensures
            final(self)@ == spec_after(old(self)@, bus, device, access),
            reply == spec_reply(old(self)@, bus, device, access),
    {
        match access {
            ConfigAccess::Read { register } => read_config(self, bus, device, register),
            ConfigAccess::Write { register, data } => {
                write_config(self, bus, device, register, data);
                0
            },
        }
    }
}

/// The registers after one access.
pub open spec fn spec_after(
    registers: Map<u32, ConfigRegister>,
    bus: u8,
    device: u8,
    access: ConfigAccess,
) -> Map<u32, ConfigRegister> {
    match access {
        ConfigAccess::Read { register } => registers,
        ConfigAccess::Write { register, data } => spec_write(
            registers,
            spec_config_address(bus, device, register),
            data,
        ),
    }
}

/// What one access returns: the value read, or zero for a write.
pub open spec fn spec_reply(
    registers: Map<u32, ConfigRegister>,
    bus: u8,
    device: u8,
    access: ConfigAccess,
) -> u32 {
    match access {
        ConfigAccess::Read { register } => spec_read(
            registers,
            spec_config_address(bus, device, register),
        ),
        ConfigAccess::Write { register, data } => 0,
    }
}

/// Reads a register of the modelled configuration space. A register that
/// no device implements reads as all ones.
pub fn read_config(space: &ConfigSpace, bus: u8, device: u8, register: u32) -> (value: u32)
    ensures
        value == spec_read(space@, spec_config_address(bus, device, register)),
{
    let address: u32 = config_address(bus, device, register);
    match space.registers.get(&address) {
        Some(found) => found.value,
        None => 0xFFFF_FFFF,
    }
}

/// Writes a register of the modelled configuration space. Only its
/// writable bits change; a write that no device answers is lost.
pub fn write_config(space: &mut ConfigSpace, bus: u8, device: u8, register: u32, data: u32)
    ensures
        final(space)@ == spec_write(old(space)@, spec_config_address(bus, device, register), data),
{
    let address: u32 = config_address(bus, device, register);
    let found: Option<ConfigRegister> = match space.registers.get(&address) {
        Some(found) => Some(*found),
        None => None,
    };
    match found {
        Some(register) => {
            space.registers.insert(address, register.write(data));
        },
        None => {},
    }
}

} // verus!
