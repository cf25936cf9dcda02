//! Adapter records: what the scan keeps of a device, the protocol that
//! reads it from the device's header, and the queries on its resources.

use crate::bar::{
    bar_scan_inv, lemma_bar_scan_start, lemma_bar_scan_step, spec_bars, BarCursor, BarPhase,
    BarScan, MemoryBar, PciBar,
};
use crate::config::{
    read_config, spec_after, spec_config_address, spec_read, spec_reply, spec_write,
    write_config, ConfigAccess, ConfigRegister, ConfigSpace, PCI_CLASS_REGISTER,
    PCI_COMMAND_BUSMASTER, PCI_COMMAND_REGISTER, PCI_HEADER_REGISTER, PCI_HEADER_TYPE_MASK,
    PCI_INTERRUPT_REGISTER, PCI_MULTIFUNCTION_MASK,
};
use vstd::prelude::*;

verus! {

/// The low byte of a word.
pub fn low_byte(word: u32) -> (byte: u8)
    ensures
        byte == word & 0xFF,
{
    assert(word & 0xFF < 0x100) by (bit_vector);
    (word & 0xFF) as u8
}

/// The low half of a word.
pub fn low_half(word: u32) -> (half: u16)
    ensures
        half == word & 0xFFFF,
{
    assert(word & 0xFFFF < 0x1_0000) by (bit_vector);
    (word & 0xFFFF) as u16
}

/// One discovered device.
#[derive(Clone, Debug)]
pub struct PciAdapter {
    pub bus: u8,
    pub device: u8,
    pub vendor_id: u16,
    pub device_id: u16,
    pub class_id: u8,
    pub subclass_id: u8,
    pub programming_interface_id: u8,
    pub base_addresses: Vec<PciBar>,
    pub irq: u8,
}

/// An adapter record as a value: the resources as a sequence.
pub ghost struct AdapterRecord {
    pub bus: u8,
    pub device: u8,
    pub vendor_id: u16,
    pub device_id: u16,
    pub class_id: u8,
    pub subclass_id: u8,
    pub programming_interface_id: u8,
    pub base_addresses: Seq<PciBar>,
    pub irq: u8,
}

impl View for PciAdapter {
    type V = AdapterRecord;

    open spec fn view(&self) -> AdapterRecord {
        AdapterRecord {
            bus: self.bus,
            device: self.device,
            vendor_id: self.vendor_id,
            device_id: self.device_id,
            class_id: self.class_id,
            subclass_id: self.subclass_id,
            programming_interface_id: self.programming_interface_id,
            base_addresses: self.base_addresses@,
            irq: self.irq,
        }
    }
}

/// Whether a header word is that of a device this library handles: one
/// with header type 0.
pub open spec fn spec_header_accepted(header: u32) -> bool {
    header & PCI_HEADER_TYPE_MASK == 0
}

/// Whether a header word announces more than one function.
pub open spec fn spec_multifunction(header: u32) -> bool {
    header & PCI_MULTIFUNCTION_MASK != 0
}

/// Decides whether a header word is that of a device this library
/// handles.
pub fn header_accepted(header: u32) -> (accepted: bool)
    ensures
        accepted == spec_header_accepted(header),
{
    header & PCI_HEADER_TYPE_MASK == 0
}

/// Decides whether a header word announces more than one function.
pub fn header_multifunction(header: u32) -> (multifunction: bool)
    ensures
        multifunction == spec_multifunction(header),
{
    header & PCI_MULTIFUNCTION_MASK != 0
}

/// The record of a device, from the words of its header and its
/// resources: the class in the top byte of the class word, the subclass
/// and the programming interface below it, the interrupt line in the low
/// byte of the interrupt word.
pub open spec fn spec_record(
    bus: u8,
    device: u8,
    vendor_id: u16,
    device_id: u16,
    class_ids: u32,
    bars: Seq<PciBar>,
    interrupt_info: u32,
) -> AdapterRecord {
    AdapterRecord {
        bus,
        device,
        vendor_id,
        device_id,
        class_id: ((class_ids >> 24) & 0xFF) as u8,
        subclass_id: ((class_ids >> 16) & 0xFF) as u8,
        programming_interface_id: ((class_ids >> 8) & 0xFF) as u8,
        base_addresses: bars,
        irq: (interrupt_info & 0xFF) as u8,
    }
}

/// The record that a probe of a device yields on given registers: none
/// where the header type is not 0.
pub open spec fn spec_adapter(
    registers: Map<u32, ConfigRegister>,
    bus: u8,
    device: u8,
    vendor_id: u16,
    device_id: u16,
) -> Option<AdapterRecord> {
    let header = spec_read(registers, spec_config_address(bus, device, PCI_HEADER_REGISTER));
    if spec_header_accepted(header) {
        Some(
            spec_record(
                bus,
                device,
                vendor_id,
                device_id,
                spec_read(registers, spec_config_address(bus, device, PCI_CLASS_REGISTER)),
                spec_bars(registers, bus, device),
                spec_read(registers, spec_config_address(bus, device, PCI_INTERRUPT_REGISTER)),
            ),
        )
    } else {
        None
    }
}

/// What the probe of a device waits to do next.
#[derive(Clone, Copy, Debug, PartialEq, Eq, Structural)]
pub enum ProbePhase {
    /// Read the header register.
    Header,
    /// Read the class register.
    Class,
    /// Scan the base address registers.
    Bars,
    /// Read the interrupt register.
    Interrupt,
    /// The device is recorded.
    Accepted,
    /// The device has a header of another type and is left alone.
    Rejected,
}

/// The state of a probe as a value.
pub ghost struct ProbeState {
    pub phase: ProbePhase,
    pub bus: u8,
    pub device: u8,
    pub vendor_id: u16,
    pub device_id: u16,
    pub multifunction: bool,
    pub class_ids: u32,
    pub interrupt_info: u32,
    pub cursor: BarCursor,
    pub bars: Seq<PciBar>,
}

impl ProbeState {
    /// A probe that has read nothing yet.
    pub open spec fn spec_start(bus: u8, device: u8, vendor_id: u16, device_id: u16) -> ProbeState {
        ProbeState {
            phase: ProbePhase::Header,
            bus,
            device,
            vendor_id,
            device_id,
            multifunction: false,
            class_ids: 0,
            interrupt_info: 0,
            cursor: BarCursor::spec_start(),
            bars: Seq::empty(),
        }
    }

    /// The access that the probe needs next, or `None` when it has ended.
    pub open spec fn spec_pending(self) -> Option<ConfigAccess> {
        match self.phase {
            ProbePhase::Header => Some(ConfigAccess::Read { register: PCI_HEADER_REGISTER }),
            ProbePhase::Class => Some(ConfigAccess::Read { register: PCI_CLASS_REGISTER }),
            ProbePhase::Bars => self.cursor.spec_pending(),
            ProbePhase::Interrupt => Some(ConfigAccess::Read { register: PCI_INTERRUPT_REGISTER }),
            ProbePhase::Accepted => None,
            ProbePhase::Rejected => None,
        }
    }

    /// The probe after the pending access was performed and answered
    /// `reply`. A header of another type than 0 ends it at once, before any
    /// register of the device is written.
    pub open spec fn spec_next(self, reply: u32) -> ProbeState {
        match self.phase {
            ProbePhase::Header => {
                if spec_header_accepted(reply) {
                    ProbeState {
                        phase: ProbePhase::Class,
                        multifunction: spec_multifunction(reply),
                        ..self
                    }
                } else {
                    ProbeState { phase: ProbePhase::Rejected, ..self }
                }
            },
            ProbePhase::Class => ProbeState { phase: ProbePhase::Bars, class_ids: reply, ..self },
            ProbePhase::Bars => {
                let cursor = self.cursor.spec_next(reply);
                let bars = match self.cursor.spec_found() {
                    Some(bar) => self.bars.push(bar),
                    None => self.bars,
                };
                ProbeState {
                    phase: if cursor.phase == BarPhase::Done {
                        ProbePhase::Interrupt
                    } else {
                        ProbePhase::Bars
                    },
                    cursor,
                    bars,
                    ..self
                }
            },
            ProbePhase::Interrupt => ProbeState {
                phase: ProbePhase::Accepted,
                interrupt_info: reply,
                ..self
            },
            ProbePhase::Accepted => self,
            ProbePhase::Rejected => self,
        }
    }

    /// Whether the probe has ended.
    pub open spec fn spec_ended(self) -> bool {
        self.phase == ProbePhase::Accepted || self.phase == ProbePhase::Rejected
    }

    /// The record of the device, once the probe has accepted it.
    pub open spec fn spec_result(self) -> Option<AdapterRecord> {
        if self.phase == ProbePhase::Accepted {
            Some(
                spec_record(
                    self.bus,
                    self.device,
                    self.vendor_id,
                    self.device_id,
                    self.class_ids,
                    self.bars,
                    self.interrupt_info,
                ),
            )
        } else {
            None
        }
    }

    /// A bound on the number of accesses that the probe still needs.
    pub open spec fn spec_remaining(self) -> nat {
        match self.phase {
            ProbePhase::Header => 51,
            ProbePhase::Class => 50,
            ProbePhase::Bars => 1 + self.cursor.spec_remaining(),
            ProbePhase::Interrupt => 1,
            ProbePhase::Accepted => 0,
            ProbePhase::Rejected => 0,
        }
    }

    /// What holds between the steps of a probe that started on `initial`.
    pub open spec fn inv(
        self,
        registers: Map<u32, ConfigRegister>,
        initial: Map<u32, ConfigRegister>,
    ) -> bool {
        let header = spec_read(
            initial,
            spec_config_address(self.bus, self.device, PCI_HEADER_REGISTER),
        );
        let class_ids = spec_read(
            initial,
            spec_config_address(self.bus, self.device, PCI_CLASS_REGISTER),
        );
        let interrupt_info = spec_read(
            initial,
            spec_config_address(self.bus, self.device, PCI_INTERRUPT_REGISTER),
        );
        match self.phase {
            ProbePhase::Header => {
                &&& registers == initial
                &&& self.cursor == BarCursor::spec_start()
                &&& self.bars == Seq::<PciBar>::empty()
            },
            ProbePhase::Class => {
                &&& registers == initial
                &&& spec_header_accepted(header)
                &&& self.cursor == BarCursor::spec_start()
                &&& self.bars == Seq::<PciBar>::empty()
            },
            ProbePhase::Bars => {
                &&& spec_header_accepted(header)
                &&& self.class_ids == class_ids
                &&& self.cursor.phase != BarPhase::Done
                &&& bar_scan_inv(self.cursor, self.bars, registers, initial, self.bus, self.device)
            },
            ProbePhase::Interrupt => {
                &&& registers == initial
                &&& spec_header_accepted(header)
                &&& self.class_ids == class_ids
                &&& self.bars == spec_bars(initial, self.bus, self.device)
            },
            ProbePhase::Accepted => {
                &&& registers == initial
                &&& spec_header_accepted(header)
                &&& self.class_ids == class_ids
                &&& self.bars == spec_bars(initial, self.bus, self.device)
                &&& self.interrupt_info == interrupt_info
            },
            ProbePhase::Rejected => registers == initial && !spec_header_accepted(header),
        }
    }

    /// A probe that has read nothing is in step with any registers.
    pub proof fn lemma_start(
        registers: Map<u32, ConfigRegister>,
        bus: u8,
        device: u8,
        vendor_id: u16,
        device_id: u16,
    )
        ensures
            ProbeState::spec_start(bus, device, vendor_id, device_id).inv(registers, registers),
    {
    }

    /// Performing the pending access on the modelled registers and
    /// advancing the probe with the answer keeps the two in step, and
    /// brings the probe nearer to its end.
    pub proof fn lemma_step(
        self,
        registers: Map<u32, ConfigRegister>,
        initial: Map<u32, ConfigRegister>,
    )
        requires
            self.inv(registers, initial),
            !self.spec_ended(),
        ensures
            ({
                let access = self.spec_pending().unwrap();
                let reply = spec_reply(registers, self.bus, self.device, access);
                let next = self.spec_next(reply);
                &&& self.spec_pending() is Some
                &&& next.inv(spec_after(registers, self.bus, self.device, access), initial)
                &&& next.spec_remaining() < self.spec_remaining()
                &&& next.bus == self.bus
                &&& next.device == self.device
                &&& next.vendor_id == self.vendor_id
                &&& next.device_id == self.device_id
            }),
    {
        match self.phase {
            ProbePhase::Class => {
                lemma_bar_scan_start(initial, self.bus, self.device);
            },
            ProbePhase::Bars => {
                lemma_bar_scan_step(
                    self.cursor,
                    self.bars,
                    registers,
                    initial,
                    self.bus,
                    self.device,
                );
                let access = self.spec_pending().unwrap();
                let reply = spec_reply(registers, self.bus, self.device, access);
                self.cursor.lemma_next_decreases(reply);
            },
            _ => {},
        }
    }

    /// A probe that has ended in step with the registers has left them as
    /// they were, and its result is the record of the device.
    pub proof fn lemma_ended(
        self,
        registers: Map<u32, ConfigRegister>,
        initial: Map<u32, ConfigRegister>,
    )
        requires
            self.inv(registers, initial),
            self.spec_ended(),
        ensures
            registers == initial,
            self.spec_result() == spec_adapter(
                initial,
                self.bus,
                self.device,
                self.vendor_id,
                self.device_id,
            ),
    {
    }
}

/// The probe of one device: it reads the header, and for a device of
/// header type 0 the class, the resources and the interrupt line. It
/// performs no access itself: `pending` names the access it needs, and
/// `advance` takes it on once that access is done.
#[derive(Debug)]
pub struct AdapterProbe {
    pub phase: ProbePhase,
    pub bus: u8,
    pub device: u8,
    pub vendor_id: u16,
    pub device_id: u16,
    pub multifunction: bool,
    pub class_ids: u32,
    pub interrupt_info: u32,
    pub scan: BarScan,
}

impl View for AdapterProbe {
    type V = ProbeState;

    open spec fn view(&self) -> ProbeState {
        ProbeState {
            phase: self.phase,
            bus: self.bus,
            device: self.device,
            vendor_id: self.vendor_id,
            device_id: self.device_id,
            multifunction: self.multifunction,
            class_ids: self.class_ids,
            interrupt_info: self.interrupt_info,
            cursor: self.scan.cursor,
            bars: self.scan.bars@,
        }
    }
}

impl AdapterProbe {
    /// A probe of the device at `bus` and `device`, whose ID register gave
    /// `vendor_id` and `device_id`.
    pub fn new(bus: u8, device: u8, vendor_id: u16, device_id: u16) -> (probe: AdapterProbe)
        ensures
            probe@ == ProbeState::spec_start(bus, device, vendor_id, device_id),
    {
        AdapterProbe {
            phase: ProbePhase::Header,
            bus,
            device,
            vendor_id,
            device_id,
            multifunction: false,
            class_ids: 0,
            interrupt_info: 0,
            scan: BarScan::new(),
        }
    }

    /// The access to perform next, or `None` when the probe has ended.
    pub fn pending(&self) -> (access: Option<ConfigAccess>)
        ensures
            access == self@.spec_pending(),
    {
        match self.phase {
            ProbePhase::Header => Some(ConfigAccess::Read { register: PCI_HEADER_REGISTER }),
            ProbePhase::Class => Some(ConfigAccess::Read { register: PCI_CLASS_REGISTER }),
            ProbePhase::Bars => self.scan.pending(),
            ProbePhase::Interrupt => Some(ConfigAccess::Read { register: PCI_INTERRUPT_REGISTER }),
            ProbePhase::Accepted => None,
            ProbePhase::Rejected => None,
        }
    }

    /// Takes the probe on after the pending access was performed. `reply`
    /// is the value read; after a write it is ignored.
    pub fn advance(&mut self, reply: u32)
        ensures
            final(self)@ == old(self)@.spec_next(reply),
    {
        match self.phase {
            ProbePhase::Header => {
                if header_accepted(reply) {
                    self.multifunction = header_multifunction(reply);
                    self.phase = ProbePhase::Class;
                } else {
                    self.phase = ProbePhase::Rejected;
                }
            },
            ProbePhase::Class => {
                self.class_ids = reply;
                self.phase = ProbePhase::Bars;
            },
            ProbePhase::Bars => {
                self.scan.advance(reply);
                if self.scan.is_done() {
                    self.phase = ProbePhase::Interrupt;
                }
            },
            ProbePhase::Interrupt => {
                self.interrupt_info = reply;
                self.phase = ProbePhase::Accepted;
            },
            ProbePhase::Accepted => {},
            ProbePhase::Rejected => {},
        }
    }

    /// Whether the probe has ended, with a record or without.
    pub fn has_ended(&self) -> (ended: bool)
        ensures
            ended == self@.spec_ended(),
    {
        self.phase == ProbePhase::Accepted || self.phase == ProbePhase::Rejected
    }

    /// Whether the header announced more than one function. Only the
    /// first is handled; the device is recorded all the same.
    pub fn is_multifunction(&self) -> (multifunction: bool)
        ensures
            multifunction == self.multifunction,
    {
        self.multifunction
    }

    /// The record of the device, or `None` where the probe did not accept
    /// it.
    pub fn finish(self) -> (adapter: Option<PciAdapter>)
        ensures
            match adapter {
                Some(adapter) => self@.spec_result() == Some(adapter@),
                None => self@.spec_result() is None,
            },
    {
        if self.phase == ProbePhase::Accepted {
            Some(
                PciAdapter {
                    bus: self.bus,
                    device: self.device,
                    vendor_id: self.vendor_id,
                    device_id: self.device_id,
                    class_id: low_byte(self.class_ids >> 24),
                    subclass_id: low_byte(self.class_ids >> 16),
                    programming_interface_id: low_byte(self.class_ids >> 8),
                    base_addresses: self.scan.bars,
                    irq: low_byte(self.interrupt_info),
                },
            )
        } else {
            None
        }
    }
}

/// What the command register is to hold for a device that masters the
/// bus: what it holds, with the bus-master bit set.
pub open spec fn spec_bus_master_command(command: u32) -> u32 {
    command | PCI_COMMAND_BUSMASTER
}

/// Computes the command word that makes a device a bus master.
pub fn bus_master_command(command: u32) -> (enabled: u32)
    ensures
        enabled == spec_bus_master_command(command),
{
    command | PCI_COMMAND_BUSMASTER
}

/// A request to map a memory resource into virtual memory, one to one.
#[derive(Clone, Copy, Debug, PartialEq, Eq, Structural)]
pub struct BarMapping {
    pub physical_address: u64,
    /// The address at which the resource is to appear: the physical one.
    pub virtual_address: u64,
    pub size: u64,
    pub writable: bool,
    pub executable: bool,
    /// Whether the mapping is to bypass the cache.
    pub no_cache: bool,
}

/// The first resource in `bars` that register `baridx` describes.
pub open spec fn spec_get_bar(bars: Seq<PciBar>, baridx: u8) -> Option<PciBar>
    decreases bars.len(),
{
    if bars.len() == 0 {
        None
    } else if bars[0].spec_index() == baridx {
        Some(bars[0])
    } else {
        spec_get_bar(bars.subrange(1, bars.len() as int), baridx)
    }
}

/// The mapping that a resource is eligible for: only a prefetchable
/// 64-bit memory resource is mapped, readable and writable, not
/// executable, at its physical address.
pub open spec fn spec_mapping(bar: Option<PciBar>, no_cache: bool) -> Option<BarMapping> {
    match bar {
        Some(PciBar::Memory(bar)) if bar.width == 64 && bar.prefetchable => Some(
            BarMapping {
                physical_address: bar.addr,
                virtual_address: bar.addr,
                size: bar.size,
                writable: true,
                executable: false,
                no_cache,
            },
        ),
        _ => None,
    }
}

/// `spec_get_bar` finds a resource exactly where one with that register
/// exists, and then the first of them.
pub proof fn lemma_get_bar(bars: Seq<PciBar>, baridx: u8)
    ensures
        match spec_get_bar(bars, baridx) {
            Some(bar) => exists|i: int|
                0 <= i < bars.len() && #[trigger] bars[i] == bar && bar.spec_index() == baridx
                    && forall|j: int| 0 <= j < i ==> (#[trigger] bars[j]).spec_index() != baridx,
            None => forall|j: int| 0 <= j < bars.len() ==> (#[trigger] bars[j]).spec_index() != baridx,
        },
    decreases bars.len(),
{
    if bars.len() > 0 && bars[0].spec_index() != baridx {
        let rest = bars.subrange(1, bars.len() as int);
        lemma_get_bar(rest, baridx);
        match spec_get_bar(rest, baridx) {
            Some(bar) => {
                let i = choose|i: int|
                    0 <= i < rest.len() && #[trigger] rest[i] == bar && bar.spec_index() == baridx
                        && forall|j: int|
                        0 <= j < i ==> (#[trigger] rest[j]).spec_index() != baridx;
                assert(bars[i + 1] == bar);
                assert forall|j: int| 0 <= j < i + 1 implies (#[trigger] bars[j]).spec_index()
                    != baridx by {
                    if j > 0 {
                        assert(rest[j - 1] == bars[j]);
                    }
                }
            },
            None => {
                assert forall|j: int| 0 <= j < bars.len() implies (#[trigger] bars[j]).spec_index()
                    != baridx by {
                    if j > 0 {
                        assert(rest[j - 1] == bars[j]);
                    }
                }
            },
        }
    } else if bars.len() > 0 {
        assert(bars[0] == bars[0]);
    }
}

impl PciAdapter {
    /// Probes the device at `bus` and `device` of the modelled
    /// configuration space. Returns its record, or `None` where its
    /// header is not of type 0; such a device is not written to. Every
    /// register is left as it was found.
    pub fn new(space: &mut ConfigSpace, bus: u8, device: u8, vendor_id: u16, device_id: u16) -> (adapter:
        Option<PciAdapter>)
        ensures
            final(space)@ == old(space)@,
            match adapter {
                Some(adapter) => spec_adapter(old(space)@, bus, device, vendor_id, device_id)
                    == Some(adapter@),
                None => spec_adapter(old(space)@, bus, device, vendor_id, device_id) is None,
            },
    {
        let ghost initial = space@;
        let mut probe = AdapterProbe::new(bus, device, vendor_id, device_id);
        proof {
            ProbeState::lemma_start(initial, bus, device, vendor_id, device_id);
        }
        while !probe.has_ended()
            invariant
                probe@.inv(space@, initial),
                probe.bus == bus,
                probe.device == device,
                probe.vendor_id == vendor_id,
                probe.device_id == device_id,
            decreases probe@.spec_remaining(),
        {
            proof {
                probe@.lemma_step(space@, initial);
            }
            let access: Option<ConfigAccess> = probe.pending();
            let reply: u32 = space.access(bus, device, access.unwrap());
            probe.advance(reply);
        }
        proof {
            probe@.lemma_ended(space@, initial);
        }
        probe.finish()
    }

    /// Sets the bus-master bit in the command register of the device.
    pub fn make_bus_master(&self, space: &mut ConfigSpace)
        ensures
            final(space)@ == spec_write(
                old(space)@,
                spec_config_address(self.bus, self.device, PCI_COMMAND_REGISTER),
                spec_bus_master_command(
                    spec_read(
                        old(space)@,
                        spec_config_address(self.bus, self.device, PCI_COMMAND_REGISTER),
                    ),
                ),
            ),
    {
        let command: u32 = read_config(space, self.bus, self.device, PCI_COMMAND_REGISTER);
        write_config(
            space,
            self.bus,
            self.device,
            PCI_COMMAND_REGISTER,
            bus_master_command(command),
        );
    }

    /// Returns the resource that base address register `baridx` describes.
    pub fn get_bar(&self, baridx: u8) -> (bar: Option<PciBar>)
        ensures
            bar == spec_get_bar(self.base_addresses@, baridx),
    {
        let ghost bars = self.base_addresses@;
        let mut i: usize = 0;
        proof {
            assert(bars.subrange(0, bars.len() as int) =~= bars);
        }
        while i < self.base_addresses.len()
            invariant
                i <= self.base_addresses.len(),
                bars == self.base_addresses@,
                spec_get_bar(bars, baridx) == spec_get_bar(
                    bars.subrange(i as int, bars.len() as int),
                    baridx,
                ),
            decreases self.base_addresses.len() - i,
        {
            let pci_bar: PciBar = self.base_addresses[i];
            let ghost rest = bars.subrange(i as int, bars.len() as int);
            proof {
                assert(rest[0] == pci_bar);
                assert(rest.subrange(1, rest.len() as int) =~= bars.subrange(
                    i + 1,
                    bars.len() as int,
                ));
            }
            if pci_bar.index() == baridx {
                return Some(pci_bar);
            }
            i = i + 1;
        }
        proof {
            assert(bars.subrange(i as int, bars.len() as int).len() == 0);
        }
        None
    }

    /// Decides whether the resource of register `index` can be mapped into
    /// virtual memory, and how. Only a prefetchable 64-bit memory resource
    /// can: for an IO resource, a 32-bit or a non-prefetchable one, or a
    /// register that describes none, the result is `None`. `no_cache` asks
    /// for a mapping that bypasses the cache.
    pub fn memory_map_bar(&self, index: u8, no_cache: bool) -> (mapping: Option<BarMapping>)
        ensures
            mapping == spec_mapping(spec_get_bar(self.base_addresses@, index), no_cache),
    {
        let pci_bar: MemoryBar = match self.get_bar(index) {
            Some(PciBar::IO(_)) => {
                return None;
            },
            Some(PciBar::Memory(mem_bar)) => mem_bar,
            None => {
                return None;
            },
        };
        if pci_bar.width != 64 {
            return None;
        }
        if !pci_bar.prefetchable {
            return None;
        }
        Some(
            BarMapping {
                physical_address: pci_bar.addr,
                virtual_address: pci_bar.addr,
                size: pci_bar.size,
                writable: true,
                executable: false,
                no_cache,
            },
        )
    }
}

} // verus!
