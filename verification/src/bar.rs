//! Base address registers: the resources they describe, and the protocol
//! that reads the six registers of a device and recovers each resource's
//! size by writing all ones, reading back and restoring.

use crate::config::{
    lemma_config_address_register, lemma_restore, spec_after, spec_config_address, spec_probe,
    spec_read, spec_reply, spec_write, ConfigAccess, ConfigRegister, ConfigSpace,
    PCI_BAR0_REGISTER, PCI_BASE_ADDRESS_IO_SPACE, PCI_IO_BASE_ADDRESS_MASK,
    PCI_MEM_BASE_ADDRESS_64BIT, PCI_MEM_BASE_ADDRESS_MASK, PCI_MEM_PREFETCHABLE,
};
use vstd::prelude::*;

verus! {

/// An IO-mapped resource.
#[derive(Clone, Copy, Debug, PartialEq, Eq, Structural)]
pub struct IOBar {
    /// The register that describes the resource.
    pub index: u8,
    /// The port base address.
    pub addr: u32,
    /// The size in bytes.
    pub size: usize,
}

/// A memory-mapped resource.
#[derive(Clone, Copy, Debug, PartialEq, Eq, Structural)]
pub struct MemoryBar {
    /// The register that describes the resource; for a 64-bit resource the
    /// lower of its two registers.
    pub index: u8,
    /// The physical base address.
    pub addr: u64,
    /// The size in bytes.
    pub size: u64,
    /// The address width: 32 or 64.
    pub width: u8,
    pub prefetchable: bool,
}

/// A resource of a device, as one of its base address registers describes
/// it. A register that reads zero describes none.
#[derive(Clone, Copy, Debug, PartialEq, Eq, Structural)]
pub enum PciBar {
    IO(IOBar),
    Memory(MemoryBar),
}

impl PciBar {
    /// The register that describes the resource.
    pub open spec fn spec_index(self) -> u8 {
        match self {
            PciBar::IO(bar) => bar.index,
            PciBar::Memory(bar) => bar.index,
        }
    }

    /// The register that describes the resource.
    pub fn index(&self) -> (index: u8)
        ensures
            index == self.spec_index(),
    {
        match self {
            PciBar::IO(bar) => bar.index,
            PciBar::Memory(bar) => bar.index,
        }
    }
}

/// The number of base address registers of a device.
pub const PCI_BAR_COUNT: u8 = 6;

/// The offset of base address register `index`.
pub open spec fn spec_bar_register(index: int) -> u32 {
    (PCI_BAR0_REGISTER + 4 * index) as u32
}

/// The offset of base address register `index`.
pub fn bar_register(index: u8) -> (register: u32)
    ensures
        register == spec_bar_register(index as int),
{
    PCI_BAR0_REGISTER + 4 * (index as u32)
}

/// The size that a probe reports: the two's complement of the address bits
/// that the register gave back after all ones were written to it.
pub open spec fn spec_probed_size(masked: u32) -> u32 {
    if masked == 0 {
        0
    } else {
        (0x1_0000_0000 - masked) as u32
    }
}

/// Computes `!masked + 1` in 32 bits.
pub fn probed_size(masked: u32) -> (size: u32)
    ensures
        size == spec_probed_size(masked),
{
    if masked == 0 {
        0
    } else {
        assert(!masked == 0xFFFF_FFFF - masked) by (bit_vector);
        !masked + 1
    }
}

/// The IO resource that a register describes, given the word it holds and
/// the word it gave back to the probe.
pub open spec fn spec_io_bar(index: u8, barword: u32, sizebits: u32) -> PciBar {
    PciBar::IO(
        IOBar {
            index,
            addr: barword & PCI_IO_BASE_ADDRESS_MASK,
            size: spec_probed_size(sizebits & PCI_IO_BASE_ADDRESS_MASK) as usize,
        },
    )
}

/// The 32-bit memory resource that a register describes.
pub open spec fn spec_memory32_bar(index: u8, barword: u32, sizebits: u32) -> PciBar {
    PciBar::Memory(
        MemoryBar {
            index,
            addr: (barword & PCI_MEM_BASE_ADDRESS_MASK) as u64,
            size: spec_probed_size(sizebits & PCI_MEM_BASE_ADDRESS_MASK) as u64,
            width: 32,
            prefetchable: barword & PCI_MEM_PREFETCHABLE != 0,
        },
    )
}

/// The 64-bit memory resource that a pair of registers describes. The high
/// register is probed only where the low one gave back no address bit: the
/// resource then spans 4 GiB or more.
pub open spec fn spec_memory64_bar(
    index: u8,
    barword: u32,
    barword_high: u32,
    sizebits: u32,
    sizebits_high: u32,
) -> PciBar {
    PciBar::Memory(
        MemoryBar {
            index,
            addr: ((barword_high as u64) << 32) | ((barword & PCI_MEM_BASE_ADDRESS_MASK) as u64),
            size: if sizebits & PCI_MEM_BASE_ADDRESS_MASK == 0 {
                (spec_probed_size(sizebits_high) as u64) << 32
            } else {
                spec_probed_size(sizebits & PCI_MEM_BASE_ADDRESS_MASK) as u64
            },
            width: 64,
            prefetchable: barword & PCI_MEM_PREFETCHABLE != 0,
        },
    )
}

/// Whether a register word describes an IO resource.
pub open spec fn spec_is_io(barword: u32) -> bool {
    barword & PCI_BASE_ADDRESS_IO_SPACE != 0
}

/// Whether a register word describes a 64-bit memory resource.
pub open spec fn spec_is_memory64(barword: u32) -> bool {
    !spec_is_io(barword) && barword & PCI_MEM_BASE_ADDRESS_64BIT != 0
}

/// What the scan of the base address registers waits to do next.
#[derive(Clone, Copy, Debug, PartialEq, Eq, Structural)]
pub enum BarPhase {
    /// Read the register of the current slot.
    Word,
    /// Read the upper register of a 64-bit resource.
    HighWord,
    /// Write all ones to the register.
    Probe,
    /// Read the register back.
    Size,
    /// Write all ones to the upper register.
    ProbeHigh,
    /// Read the upper register back.
    SizeHigh,
    /// Write to the upper register what it held.
    RestoreHigh,
    /// Write to the register what it held.
    Restore,
    /// All six registers are done.
    Done,
}

/// The position of a scan: the slot, what is to be done next, and the
/// words read for the slot so far.
#[derive(Clone, Copy, Debug, PartialEq, Eq, Structural)]
pub struct BarCursor {
    pub phase: BarPhase,
    pub index: u8,
    pub barword: u32,
    pub barword_high: u32,
    pub sizebits: u32,
    pub sizebits_high: u32,
}

impl BarCursor {
    /// The cursor at the first register.
    pub open spec fn spec_start() -> BarCursor {
        BarCursor {
            phase: BarPhase::Word,
            index: 0,
            barword: 0,
            barword_high: 0,
            sizebits: 0,
            sizebits_high: 0,
        }
    }

    /// The access that the scan needs next, or `None` when it is done.
    pub open spec fn spec_pending(self) -> Option<ConfigAccess> {
        let low = spec_bar_register(self.index as int);
        let high = spec_bar_register(self.index + 1);
        match self.phase {
            BarPhase::Word => Some(ConfigAccess::Read { register: low }),
            BarPhase::HighWord => Some(ConfigAccess::Read { register: high }),
            BarPhase::Probe => Some(ConfigAccess::Write { register: low, data: 0xFFFF_FFFF }),
            BarPhase::Size => Some(ConfigAccess::Read { register: low }),
            BarPhase::ProbeHigh => Some(ConfigAccess::Write { register: high, data: 0xFFFF_FFFF }),
            BarPhase::SizeHigh => Some(ConfigAccess::Read { register: high }),
            BarPhase::RestoreHigh => Some(
                ConfigAccess::Write { register: high, data: self.barword_high },
            ),
            BarPhase::Restore => Some(ConfigAccess::Write { register: low, data: self.barword }),
            BarPhase::Done => None,
        }
    }

    /// The cursor at the slot `slots` further on, or done behind the last.
    pub open spec fn spec_skip(self, slots: int) -> BarCursor {
        if self.index + slots >= PCI_BAR_COUNT {
            BarCursor { phase: BarPhase::Done, ..self }
        } else {
            BarCursor { phase: BarPhase::Word, index: (self.index + slots) as u8, ..self }
        }
    }

    /// The cursor after the pending access was performed and answered
    /// `reply` (which counts only where the access was a read).
    pub open spec fn spec_next(self, reply: u32) -> BarCursor {
        match self.phase {
            BarPhase::Word => {
                let read = BarCursor { barword: reply, ..self };
                if reply == 0 {
                    read.spec_skip(1)
                } else if !spec_is_memory64(reply) {
                    BarCursor { phase: BarPhase::Probe, ..read }
                } else if self.index + 1 >= PCI_BAR_COUNT {
                    read.spec_skip(1)
                } else {
                    BarCursor { phase: BarPhase::HighWord, ..read }
                }
            },
            BarPhase::HighWord => BarCursor {
                phase: BarPhase::Probe,
                barword_high: reply,
                ..self
            },
            BarPhase::Probe => BarCursor { phase: BarPhase::Size, ..self },
            BarPhase::Size => {
                if spec_is_memory64(self.barword) && reply & PCI_MEM_BASE_ADDRESS_MASK == 0 {
                    BarCursor { phase: BarPhase::ProbeHigh, sizebits: reply, ..self }
                } else {
                    BarCursor { phase: BarPhase::Restore, sizebits: reply, ..self }
                }
            },
            BarPhase::ProbeHigh => BarCursor { phase: BarPhase::SizeHigh, ..self },
            BarPhase::SizeHigh => BarCursor {
                phase: BarPhase::RestoreHigh,
                sizebits_high: reply,
                ..self
            },
            BarPhase::RestoreHigh => BarCursor { phase: BarPhase::Restore, ..self },
            BarPhase::Restore => {
                if spec_is_memory64(self.barword) {
                    self.spec_skip(2)
                } else {
                    self.spec_skip(1)
                }
            },
            BarPhase::Done => self,
        }
    }

    /// The resource that the pending access completes: the one of the
    /// current slot, when its register is restored.
    pub open spec fn spec_found(self) -> Option<PciBar> {
        if self.phase == BarPhase::Restore {
            if spec_is_io(self.barword) {
                Some(spec_io_bar(self.index, self.barword, self.sizebits))
            } else if spec_is_memory64(self.barword) {
                Some(
                    spec_memory64_bar(
                        self.index,
                        self.barword,
                        self.barword_high,
                        self.sizebits,
                        self.sizebits_high,
                    ),
                )
            } else {
                Some(spec_memory32_bar(self.index, self.barword, self.sizebits))
            }
        } else {
            None
        }
    }

    /// A bound on the number of accesses that the scan still needs.
    pub open spec fn spec_remaining(self) -> nat {
        let slots: nat = if self.index < 5 {
            (5 - self.index) as nat
        } else {
            0
        };
        match self.phase {
            BarPhase::Word => 8 * slots + 8,
            BarPhase::HighWord => 8 * slots + 7,
            BarPhase::Probe => 8 * slots + 6,
            BarPhase::Size => 8 * slots + 5,
            BarPhase::ProbeHigh => 8 * slots + 4,
            BarPhase::SizeHigh => 8 * slots + 3,
            BarPhase::RestoreHigh => 8 * slots + 2,
            BarPhase::Restore => 8 * slots + 1,
            BarPhase::Done => 0,
        }
    }

    /// Every step brings the scan nearer to its end.
    pub proof fn lemma_next_decreases(self, reply: u32)
        requires
            self.phase != BarPhase::Done,
        ensures
            self.spec_next(reply).spec_remaining() < self.spec_remaining(),
    {
    }
}

/// The scan of the six base address registers of one device. It performs
/// no access itself: `pending` names the access it needs, and `advance`
/// takes the scan on once that access is done.
#[derive(Debug)]
pub struct BarScan {
    pub cursor: BarCursor,
    pub bars: Vec<PciBar>,
}

impl BarScan {
    /// A scan that has read nothing yet.
    pub fn new() -> (scan: BarScan)
        ensures
            scan.cursor == BarCursor::spec_start(),
            scan.bars@ == Seq::<PciBar>::empty(),
    {
        BarScan {
            cursor: BarCursor {
                phase: BarPhase::Word,
                index: 0,
                barword: 0,
                barword_high: 0,
                sizebits: 0,
                sizebits_high: 0,
            },
            bars: Vec::new(),
        }
    }

    /// The access to perform next, or `None` when the scan is done.
    pub fn pending(&self) -> (access: Option<ConfigAccess>)
        ensures
            access == self.cursor.spec_pending(),
    {
        let low: u32 = bar_register(self.cursor.index);
        let high: u32 = low + 4;
        match self.cursor.phase {
            BarPhase::Word => Some(ConfigAccess::Read { register: low }),
            BarPhase::HighWord => Some(ConfigAccess::Read { register: high }),
            BarPhase::Probe => Some(ConfigAccess::Write { register: low, data: 0xFFFF_FFFF }),
            BarPhase::Size => Some(ConfigAccess::Read { register: low }),
            BarPhase::ProbeHigh => Some(ConfigAccess::Write { register: high, data: 0xFFFF_FFFF }),
            BarPhase::SizeHigh => Some(ConfigAccess::Read { register: high }),
            BarPhase::RestoreHigh => Some(
                ConfigAccess::Write { register: high, data: self.cursor.barword_high },
            ),
            BarPhase::Restore => Some(
                ConfigAccess::Write { register: low, data: self.cursor.barword },
            ),
            BarPhase::Done => None,
        }
    }

    /// Whether all six registers are done.
    pub fn is_done(&self) -> (done: bool)
        ensures
            done == (self.cursor.phase == BarPhase::Done),
    {
        self.cursor.phase == BarPhase::Done
    }

    fn skip(&mut self, slots: u8)
        requires
            slots <= 2,
        ensures
            final(self).cursor == old(self).cursor.spec_skip(slots as int),
            final(self).bars == old(self).bars,
    {
        if self.cursor.index >= PCI_BAR_COUNT - slots {
            self.cursor.phase = BarPhase::Done;
        } else {
            self.cursor.phase = BarPhase::Word;
            self.cursor.index = self.cursor.index + slots;
        }
    }

    /// The resource of the current slot, from the words read for it.
    fn found(&self) -> (bar: PciBar)
        requires
            self.cursor.phase == BarPhase::Restore,
        ensures
            Some(bar) == self.cursor.spec_found(),
    {
        let cursor: BarCursor = self.cursor;
        if cursor.barword & PCI_BASE_ADDRESS_IO_SPACE != 0 {
            PciBar::IO(
                IOBar {
                    index: cursor.index,
                    addr: cursor.barword & PCI_IO_BASE_ADDRESS_MASK,
                    size: probed_size(cursor.sizebits & PCI_IO_BASE_ADDRESS_MASK) as usize,
                },
            )
        } else if cursor.barword & PCI_MEM_BASE_ADDRESS_64BIT != 0 {
            let size: u64 = if cursor.sizebits & PCI_MEM_BASE_ADDRESS_MASK == 0 {
                (probed_size(cursor.sizebits_high) as u64) << 32
            } else {
                probed_size(cursor.sizebits & PCI_MEM_BASE_ADDRESS_MASK) as u64
            };
            PciBar::Memory(
                MemoryBar {
                    index: cursor.index,
                    addr: ((cursor.barword_high as u64) << 32) | ((cursor.barword
                        & PCI_MEM_BASE_ADDRESS_MASK) as u64),
                    size,
                    width: 64,
                    prefetchable: cursor.barword & PCI_MEM_PREFETCHABLE != 0,
                },
            )
        } else {
            PciBar::Memory(
                MemoryBar {
                    index: cursor.index,
                    addr: (cursor.barword & PCI_MEM_BASE_ADDRESS_MASK) as u64,
                    size: probed_size(cursor.sizebits & PCI_MEM_BASE_ADDRESS_MASK) as u64,
                    width: 32,
                    prefetchable: cursor.barword & PCI_MEM_PREFETCHABLE != 0,
                },
            )
        }
    }

    /// Takes the scan on after the pending access was performed. `reply`
    /// is the value read; after a write it is ignored.
    pub fn advance(&mut self, reply: u32)
        ensures
            final(self).cursor == old(self).cursor.spec_next(reply),
            final(self).bars@ == match old(self).cursor.spec_found() {
                Some(bar) => old(self).bars@.push(bar),
                None => old(self).bars@,
            },
    {
        match self.cursor.phase {
            BarPhase::Word => {
                self.cursor.barword = reply;
                if reply == 0 {
                    self.skip(1);
                } else if reply & PCI_BASE_ADDRESS_IO_SPACE != 0 || reply
                    & PCI_MEM_BASE_ADDRESS_64BIT == 0 {
                    self.cursor.phase = BarPhase::Probe;
                } else if self.cursor.index >= PCI_BAR_COUNT - 1 {
                    self.skip(1);
                } else {
                    self.cursor.phase = BarPhase::HighWord;
                }
            },
            BarPhase::HighWord => {
                self.cursor.barword_high = reply;
                self.cursor.phase = BarPhase::Probe;
            },
            BarPhase::Probe => {
                self.cursor.phase = BarPhase::Size;
            },
            BarPhase::Size => {
                let barword: u32 = self.cursor.barword;
                self.cursor.sizebits = reply;
                if barword & PCI_BASE_ADDRESS_IO_SPACE == 0 && barword & PCI_MEM_BASE_ADDRESS_64BIT
                    != 0 && reply & PCI_MEM_BASE_ADDRESS_MASK == 0 {
                    self.cursor.phase = BarPhase::ProbeHigh;
                } else {
                    self.cursor.phase = BarPhase::Restore;
                }
            },
            BarPhase::ProbeHigh => {
                self.cursor.phase = BarPhase::SizeHigh;
            },
            BarPhase::SizeHigh => {
                self.cursor.sizebits_high = reply;
                self.cursor.phase = BarPhase::RestoreHigh;
            },
            BarPhase::RestoreHigh => {
                self.cursor.phase = BarPhase::Restore;
            },
            BarPhase::Restore => {
                let bar: PciBar = self.found();
                let barword: u32 = self.cursor.barword;
                self.bars.push(bar);
                if barword & PCI_BASE_ADDRESS_IO_SPACE == 0 && barword & PCI_MEM_BASE_ADDRESS_64BIT
                    != 0 {
                    self.skip(2);
                } else {
                    self.skip(1);
                }
            },
            BarPhase::Done => {},
        }
    }
}

/// The configuration address of base address register `index` of a device.
pub open spec fn spec_bar_address(bus: u8, device: u8, index: int) -> u32 {
    spec_config_address(bus, device, spec_bar_register(index))
}

/// The resource that base address register `index` describes where a
/// resource starts in it: none where it reads zero, and none where a
/// 64-bit resource would start in the last register.
pub open spec fn spec_bar_at(
    registers: Map<u32, ConfigRegister>,
    bus: u8,
    device: u8,
    index: int,
) -> Option<PciBar> {
    let low = spec_bar_address(bus, device, index);
    let high = spec_bar_address(bus, device, index + 1);
    let barword = spec_read(registers, low);
    if barword == 0 {
        None
    } else if spec_is_io(barword) {
        Some(spec_io_bar(index as u8, barword, spec_probe(registers, low)))
    } else if !spec_is_memory64(barword) {
        Some(spec_memory32_bar(index as u8, barword, spec_probe(registers, low)))
    } else if index + 1 >= PCI_BAR_COUNT {
        None
    } else {
        Some(
            spec_memory64_bar(
                index as u8,
                barword,
                spec_read(registers, high),
                spec_probe(registers, low),
                spec_probe(registers, high),
            ),
        )
    }
}

/// The number of registers that the resource starting in register `index`
/// takes: two for a 64-bit resource, else one.
pub open spec fn spec_bar_slots(
    registers: Map<u32, ConfigRegister>,
    bus: u8,
    device: u8,
    index: int,
) -> int {
    match spec_bar_at(registers, bus, device, index) {
        Some(PciBar::Memory(bar)) if bar.width == 64 => 2,
        _ => 1,
    }
}

/// The resources that the registers from `index` on describe, in the
/// order of their registers.
pub open spec fn spec_bars_from(
    registers: Map<u32, ConfigRegister>,
    bus: u8,
    device: u8,
    index: int,
) -> Seq<PciBar>
    decreases PCI_BAR_COUNT - index,
{
    if index < 0 || index >= PCI_BAR_COUNT {
        Seq::empty()
    } else {
        let rest = spec_bars_from(
            registers,
            bus,
            device,
            index + spec_bar_slots(registers, bus, device, index),
        );
        match spec_bar_at(registers, bus, device, index) {
            Some(bar) => seq![bar] + rest,
            None => rest,
        }
    }
}

/// The resources of a device, as its six base address registers describe
/// them.
pub open spec fn spec_bars(registers: Map<u32, ConfigRegister>, bus: u8, device: u8) -> Seq<
    PciBar,
> {
    spec_bars_from(registers, bus, device, 0)
}

/// The number of registers that a resource takes: two for a 64-bit
/// memory resource, else one.
pub open spec fn spec_slots_of(bar: PciBar) -> int {
    match bar {
        PciBar::Memory(bar) if bar.width == 64 => 2,
        _ => 1,
    }
}

/// Every resource in the list of a device starts in one of the six
/// registers and is the one that register describes; a register that reads
/// zero is never in the list; and the resources stand in the order of
/// their registers, each behind the registers that the one before it
/// takes.
pub proof fn lemma_bars_from(
    registers: Map<u32, ConfigRegister>,
    bus: u8,
    device: u8,
    index: int,
)
    requires
        0 <= index,
    ensures
        forall|k: int|
            0 <= k < spec_bars_from(registers, bus, device, index).len() ==> {
                let bar = #[trigger] spec_bars_from(registers, bus, device, index)[k];
                &&& index <= bar.spec_index()
                &&& bar.spec_index() + spec_slots_of(bar) <= PCI_BAR_COUNT
                &&& spec_bar_at(registers, bus, device, bar.spec_index() as int) == Some(bar)
                &&& spec_read(registers, spec_bar_address(bus, device, bar.spec_index() as int))
                    != 0
            },
        forall|j: int, k: int|
            0 <= j < k < spec_bars_from(registers, bus, device, index).len() ==> {
                let first = #[trigger] spec_bars_from(registers, bus, device, index)[j];
                let second = #[trigger] spec_bars_from(registers, bus, device, index)[k];
                first.spec_index() + spec_slots_of(first) <= second.spec_index()
            },
    decreases PCI_BAR_COUNT - index,
{
    if index < PCI_BAR_COUNT {
        let slots = spec_bar_slots(registers, bus, device, index);
        lemma_bars_from(registers, bus, device, index + slots);
    }
}

/// The resources of a device: each is the one that its register
/// describes, a register that reads zero describes none, a 64-bit memory
/// resource takes two registers and is reported under the lower one, and
/// no register is reported twice.
pub proof fn lemma_bars(registers: Map<u32, ConfigRegister>, bus: u8, device: u8)
    ensures
        forall|k: int|
            0 <= k < spec_bars(registers, bus, device).len() ==> {
                let bar = #[trigger] spec_bars(registers, bus, device)[k];
                &&& bar.spec_index() + spec_slots_of(bar) <= PCI_BAR_COUNT
                &&& spec_bar_at(registers, bus, device, bar.spec_index() as int) == Some(bar)
                &&& spec_read(registers, spec_bar_address(bus, device, bar.spec_index() as int))
                    != 0
            },
        forall|j: int, k: int|
            0 <= j < k < spec_bars(registers, bus, device).len() ==> {
                let first = #[trigger] spec_bars(registers, bus, device)[j];
                let second = #[trigger] spec_bars(registers, bus, device)[k];
                first.spec_index() + spec_slots_of(first) <= second.spec_index()
            },
{
    lemma_bars_from(registers, bus, device, 0);
}

/// Whether the answers to the probe of a pair of registers are those of a
/// region of two to the `log2` bytes: the address bits from `log2`
/// upwards came back set, and no other. The high register counts only
/// where the low one gave back no address bit.
pub open spec fn spec_answers_size(sizebits: u32, sizebits_high: u32, log2: u32) -> bool {
    let masked = sizebits & PCI_MEM_BASE_ADDRESS_MASK;
    if log2 < 32 {
        masked != 0 && masked == 0xFFFF_FFFFu32 << log2
    } else {
        masked == 0 && sizebits_high != 0 && sizebits_high == 0xFFFF_FFFFu32 << ((log2 - 32) as u32)
    }
}

/// The base address of a 64-bit memory resource is the high word above
/// the address bits of the low word. Its size is a given power of two
/// exactly where the device answered the probe with the mask of a region
/// of that size; a device that answers otherwise is reported with a size
/// that is no power of two.
pub proof fn lemma_memory64_bar(
    index: u8,
    barword: u32,
    barword_high: u32,
    sizebits: u32,
    sizebits_high: u32,
    log2: u32,
)
    requires
        log2 < 64,
    ensures
        spec_memory64_bar(index, barword, barword_high, sizebits, sizebits_high) is Memory,
        spec_memory64_bar(index, barword, barword_high, sizebits, sizebits_high)->Memory_0.addr
            == ((barword_high as u64) << 32) | ((barword & PCI_MEM_BASE_ADDRESS_MASK) as u64),
        spec_memory64_bar(index, barword, barword_high, sizebits, sizebits_high)->Memory_0.width
            == 64,
        (spec_memory64_bar(index, barword, barword_high, sizebits, sizebits_high)->Memory_0.size
            == 1u64 << (log2 as u64)) <==> spec_answers_size(sizebits, sizebits_high, log2),
{
    let masked: u32 = sizebits & PCI_MEM_BASE_ADDRESS_MASK;
    let shift: u64 = log2 as u64;
    let low: u32 = spec_probed_size(masked);
    let high: u32 = spec_probed_size(sizebits_high);
    if masked != 0 {
        assert(low as u64 == 0x1_0000_0000u64 - masked as u64);
        assert(((0x1_0000_0000u64 - masked as u64) as u64 == 1u64 << shift) <==> (log2 < 32
            && masked == 0xFFFF_FFFFu32 << log2)) by (bit_vector)
            requires
                masked != 0,
                shift == log2 as u64,
                log2 < 64,
        ;
    } else if sizebits_high != 0 {
        let rest: u32 = if log2 >= 32 {
            (log2 - 32) as u32
        } else {
            0
        };
        assert(high as u64 == 0x1_0000_0000u64 - sizebits_high as u64);
        assert((((0x1_0000_0000u64 - sizebits_high as u64) as u32 as u64) << 32 == 1u64 << shift)
            <==> (log2 >= 32 && sizebits_high == 0xFFFF_FFFFu32 << rest)) by (bit_vector)
            requires
                sizebits_high != 0,
                shift == log2 as u64,
                log2 < 64,
                rest == if log2 >= 32 {
                    (log2 - 32) as u32
                } else {
                    0u32
                },
        ;
    } else {
        assert((0u32 as u64) << 32 != 1u64 << shift) by (bit_vector)
            requires
                shift < 64,
        ;
    }
}

/// Whether registers `index` and `index + 1` of a device implement a
/// 64-bit memory region of two to the `log2` bytes: the address bits from
/// `log2` upwards are the writable ones, and those below read zero.
pub open spec fn spec_implements_memory64(
    registers: Map<u32, ConfigRegister>,
    bus: u8,
    device: u8,
    index: int,
    log2: u32,
) -> bool {
    let low = spec_bar_address(bus, device, index);
    let high = spec_bar_address(bus, device, index + 1);
    let writable = ((registers[high].writable as u64) << 32) | (registers[low].writable as u64);
    let value = ((registers[high].value as u64) << 32) | (registers[low].value as u64);
    &&& 0 <= index < PCI_BAR_COUNT - 1
    &&& 4 <= log2 < 64
    &&& registers.contains_key(low)
    &&& registers.contains_key(high)
    &&& spec_is_memory64(registers[low].value)
    &&& writable == 0xFFFF_FFFF_FFFF_FFFFu64 << (log2 as u64)
    &&& value & !writable & 0xFFFF_FFFF_FFFF_FFF0u64 == 0
}

/// A pair of registers that implements a 64-bit memory region is reported
/// as one resource at the lower register, whose base address is the high
/// word above the address bits of the low word, and whose size is the
/// power of two that the device implements.
pub proof fn lemma_memory64_region(
    registers: Map<u32, ConfigRegister>,
    bus: u8,
    device: u8,
    index: int,
    log2: u32,
)
    requires
        spec_implements_memory64(registers, bus, device, index, log2),
    ensures
        spec_bar_at(registers, bus, device, index) == Some(
            PciBar::Memory(
                MemoryBar {
                    index: index as u8,
                    addr: ((spec_read(registers, spec_bar_address(bus, device, index + 1)) as u64)
                        << 32) | ((spec_read(registers, spec_bar_address(bus, device, index))
                        & PCI_MEM_BASE_ADDRESS_MASK) as u64),
                    size: 1u64 << (log2 as u64),
                    width: 64,
                    prefetchable: spec_read(registers, spec_bar_address(bus, device, index))
                        & PCI_MEM_PREFETCHABLE != 0,
                },
            ),
        ),
{
    let low = spec_bar_address(bus, device, index);
    let high = spec_bar_address(bus, device, index + 1);
    lemma_config_address_register(bus, device, spec_bar_register(index));
    lemma_config_address_register(bus, device, spec_bar_register(index + 1));
    let wl: u32 = registers[low].writable;
    let wh: u32 = registers[high].writable;
    let vl: u32 = registers[low].value;
    let vh: u32 = registers[high].value;
    let sizebits: u32 = spec_probe(registers, low);
    let sizebits_high: u32 = spec_probe(registers, high);
    let masked: u32 = sizebits & PCI_MEM_BASE_ADDRESS_MASK;
    let shift: u64 = log2 as u64;
    assert(sizebits == (0xFFFF_FFFFu32 & wl) | (vl & !wl));
    assert(sizebits_high == (0xFFFF_FFFFu32 & wh) | (vh & !wh));
    assert(vl != 0) by (bit_vector)
        requires
            vl & 1 == 0 && vl & 4 != 0,
    ;
    if log2 < 32 {
        assert(masked != 0 && (0x1_0000_0000u64 - masked as u64) as u64 == 1u64 << shift)
            by (bit_vector)
            requires
                masked == ((0xFFFF_FFFFu32 & wl) | (vl & !wl)) & 0xFFFF_FFF0u32,
                ((wh as u64) << 32) | (wl as u64) == 0xFFFF_FFFF_FFFF_FFFFu64 << shift,
                (((vh as u64) << 32) | (vl as u64)) & !(((wh as u64) << 32) | (wl as u64))
                    & 0xFFFF_FFFF_FFFF_FFF0u64 == 0,
                4 <= shift < 32,
        ;
    } else {
        assert(masked == 0 && sizebits_high != 0 && ((0x1_0000_0000u64 - sizebits_high as u64)
            as u32 as u64) << 32 == 1u64 << shift) by (bit_vector)
            requires
                masked == ((0xFFFF_FFFFu32 & wl) | (vl & !wl)) & 0xFFFF_FFF0u32,
                sizebits_high == (0xFFFF_FFFFu32 & wh) | (vh & !wh),
                ((wh as u64) << 32) | (wl as u64) == 0xFFFF_FFFF_FFFF_FFFFu64 << shift,
                (((vh as u64) << 32) | (vl as u64)) & !(((wh as u64) << 32) | (wl as u64))
                    & 0xFFFF_FFFF_FFFF_FFF0u64 == 0,
                32 <= shift < 64,
        ;
    }
}

/// What holds between the steps of a scan that started on `initial`: the
/// resources found so far are those of the registers before the cursor,
/// the words kept are those of the current register, and `registers`
/// differs from `initial` in the registers under probe alone.
pub open spec fn bar_scan_inv(
    cursor: BarCursor,
    bars: Seq<PciBar>,
    registers: Map<u32, ConfigRegister>,
    initial: Map<u32, ConfigRegister>,
    bus: u8,
    device: u8,
) -> bool {
    let index = cursor.index as int;
    let low = spec_bar_address(bus, device, index);
    let high = spec_bar_address(bus, device, index + 1);
    let barword = spec_read(initial, low);
    let probed = spec_write(initial, low, 0xFFFF_FFFF);
    let probed_high = spec_write(probed, high, 0xFFFF_FFFF);
    let current = cursor.barword == barword && barword != 0;
    let paired = spec_is_memory64(barword) && index + 1 < PCI_BAR_COUNT && cursor.barword_high
        == spec_read(initial, high);
    let single_or_paired = spec_is_memory64(barword) ==> paired;
    let sized = cursor.sizebits == spec_probe(initial, low);
    let spans = cursor.sizebits & PCI_MEM_BASE_ADDRESS_MASK == 0;
    &&& cursor.phase != BarPhase::Done ==> index < PCI_BAR_COUNT && bars + spec_bars_from(
        initial,
        bus,
        device,
        index,
    ) == spec_bars(initial, bus, device)
    &&& match cursor.phase {
        BarPhase::Word => registers == initial,
        BarPhase::HighWord => {
            &&& registers == initial
            &&& current
            &&& spec_is_memory64(barword)
            &&& index + 1 < PCI_BAR_COUNT
        },
        BarPhase::Probe => registers == initial && current && single_or_paired,
        BarPhase::Size => registers == probed && current && single_or_paired,
        BarPhase::ProbeHigh => registers == probed && current && paired && sized && spans,
        BarPhase::SizeHigh => registers == probed_high && current && paired && sized && spans,
        BarPhase::RestoreHigh => {
            &&& registers == probed_high
            &&& current
            &&& paired
            &&& sized
            &&& spans
            &&& cursor.sizebits_high == spec_probe(initial, high)
        },
        BarPhase::Restore => {
            &&& registers == probed
            &&& current
            &&& single_or_paired
            &&& sized
            &&& spec_is_memory64(barword) && spans ==> cursor.sizebits_high == spec_probe(
                initial,
                high,
            )
        },
        BarPhase::Done => registers == initial && bars == spec_bars(initial, bus, device),
    }
}

/// A scan that has read nothing is in step with any registers.
pub proof fn lemma_bar_scan_start(registers: Map<u32, ConfigRegister>, bus: u8, device: u8)
    ensures
        bar_scan_inv(
            BarCursor::spec_start(),
            Seq::<PciBar>::empty(),
            registers,
            registers,
            bus,
            device,
        ),
{
    assert(Seq::<PciBar>::empty() + spec_bars_from(registers, bus, device, 0) =~= spec_bars(
        registers,
        bus,
        device,
    ));
}

/// Performing the pending access on the modelled registers and advancing
/// the scan with the answer keeps the two in step.
pub proof fn lemma_bar_scan_step(
    cursor: BarCursor,
    bars: Seq<PciBar>,
    registers: Map<u32, ConfigRegister>,
    initial: Map<u32, ConfigRegister>,
    bus: u8,
    device: u8,
)
    requires
        bar_scan_inv(cursor, bars, registers, initial, bus, device),
        cursor.phase != BarPhase::Done,
    ensures
        ({
            let access = cursor.spec_pending().unwrap();
            let reply = spec_reply(registers, bus, device, access);
            bar_scan_inv(
                cursor.spec_next(reply),
                match cursor.spec_found() {
                    Some(bar) => bars.push(bar),
                    None => bars,
                },
                spec_after(registers, bus, device, access),
                initial,
                bus,
                device,
            )
        }),
{
    let index = cursor.index as int;
    let low = spec_bar_address(bus, device, index);
    let high = spec_bar_address(bus, device, index + 1);
    let probed = spec_write(initial, low, 0xFFFF_FFFF);
    let access = cursor.spec_pending().unwrap();
    let reply = spec_reply(registers, bus, device, access);
    let next = cursor.spec_next(reply);
    let rest = spec_bars_from(initial, bus, device, index);
    lemma_config_address_register(bus, device, spec_bar_register(index));
    lemma_config_address_register(bus, device, spec_bar_register(index + 1));
    assert(low != high);
    match cursor.phase {
        BarPhase::Word => {},
        BarPhase::RestoreHigh => {
            lemma_restore(probed, high, 0xFFFF_FFFF);
        },
        BarPhase::Restore => {
            lemma_restore(initial, low, 0xFFFF_FFFF);
            let bar = cursor.spec_found().unwrap();
            let after = spec_bars_from(initial, bus, device, next.index as int);
            if next.phase == BarPhase::Done {
                if spec_is_memory64(cursor.barword) {
                    assert(spec_bars_from(initial, bus, device, index + 2) =~= Seq::<
                        PciBar,
                    >::empty());
                } else {
                    assert(spec_bars_from(initial, bus, device, index + 1) =~= Seq::<
                        PciBar,
                    >::empty());
                }
                assert(rest =~= seq![bar]);
                assert(bars.push(bar) =~= bars + rest);
            } else {
                assert(rest =~= seq![bar] + after);
                assert(bars.push(bar) + after =~= bars + rest);
            }
        },
        _ => {},
    }
    if cursor.phase == BarPhase::Word && next.phase == BarPhase::Done {
        assert(spec_bars_from(initial, bus, device, index + 1) =~= Seq::<PciBar>::empty());
        assert(bars + rest =~= bars);
    }
}

/// Reads the base address registers of a device of the modelled
/// configuration space and returns the resources they describe. Every
/// register is left as it was found.
pub fn parse_bars(space: &mut ConfigSpace, bus: u8, device: u8) -> (bars: Vec<PciBar>)
    ensures
        final(space)@ == old(space)@,
        bars@ == spec_bars(old(space)@, bus, device),
{
    let ghost initial = space@;
    let mut scan = BarScan::new();
    let mut pending: Option<ConfigAccess> = scan.pending();
    proof {
        lemma_bar_scan_start(initial, bus, device);
    }
    while pending.is_some()
        invariant
            pending == scan.cursor.spec_pending(),
            bar_scan_inv(scan.cursor, scan.bars@, space@, initial, bus, device),
        decreases scan.cursor.spec_remaining(),
    {
        proof {
            lemma_bar_scan_step(scan.cursor, scan.bars@, space@, initial, bus, device);
        }
        let reply: u32 = space.access(bus, device, pending.unwrap());
        proof {
            scan.cursor.lemma_next_decreases(reply);
        }
        scan.advance(reply);
        pending = scan.pending();
    }
    scan.bars
}

} // verus!
