//! The bus scan: the protocol that visits every device of the scanned
//! range and records those that are present.

use crate::adapter::{
    low_half, spec_adapter, AdapterProbe, AdapterRecord, PciAdapter, ProbeState,
};
use crate::config::{
    spec_after, spec_config_address, spec_read, spec_reply, ConfigAccess, ConfigRegister,
    ConfigSpace, PCI_ID_REGISTER, PCI_MAX_BUS_NUMBER, PCI_MAX_DEVICE_NUMBER,
};
use vstd::prelude::*;

verus! {

/// What an ID register reads where no device is present.
pub const PCI_ID_ABSENT: u32 = 0xFFFF_FFFF;

/// The vendor ID in the word of an ID register: its low half.
pub open spec fn spec_vendor_id(id: u32) -> u16 {
    (id & 0xFFFF) as u16
}

/// The device ID in the word of an ID register: its high half.
pub open spec fn spec_device_id(id: u32) -> u16 {
    ((id >> 16) & 0xFFFF) as u16
}

/// One access to the configuration space, with the device it is for.
#[derive(Clone, Copy, Debug, PartialEq, Eq, Structural)]
pub struct ConfigRequest {
    pub bus: u8,
    pub device: u8,
    pub access: ConfigAccess,
}

/// The views of a list of adapters.
pub open spec fn spec_records(adapters: Seq<PciAdapter>) -> Seq<AdapterRecord> {
    Seq::new(adapters.len(), |i: int| adapters[i]@)
}

/// The number of the place of a device in the order of the scan.
pub open spec fn spec_slot(bus: u8, device: u8) -> int {
    bus * PCI_MAX_DEVICE_NUMBER + device
}

/// The number of places that the scan visits.
pub open spec fn spec_slot_count() -> int {
    PCI_MAX_BUS_NUMBER * PCI_MAX_DEVICE_NUMBER
}

/// The record of the device in place `slot`, if one is present there and
/// has a header of type 0.
pub open spec fn spec_adapter_at(registers: Map<u32, ConfigRegister>, slot: int) -> Option<
    AdapterRecord,
> {
    let bus = (slot / PCI_MAX_DEVICE_NUMBER as int) as u8;
    let device = (slot % PCI_MAX_DEVICE_NUMBER as int) as u8;
    let id = spec_read(registers, spec_config_address(bus, device, PCI_ID_REGISTER));
    if id == PCI_ID_ABSENT {
        None
    } else {
        spec_adapter(registers, bus, device, spec_vendor_id(id), spec_device_id(id))
    }
}

/// The records of the devices from place `slot` on, in the order of the
/// scan.
pub open spec fn spec_scan_from(registers: Map<u32, ConfigRegister>, slot: int) -> Seq<
    AdapterRecord,
>
    decreases spec_slot_count() - slot,
{
    if slot < 0 || slot >= spec_slot_count() {
        Seq::empty()
    } else {
        let rest = spec_scan_from(registers, slot + 1);
        match spec_adapter_at(registers, slot) {
            Some(adapter) => seq![adapter] + rest,
            None => rest,
        }
    }
}

/// The records that a scan of buses 0 to 31 yields on given registers.
pub open spec fn spec_scan(registers: Map<u32, ConfigRegister>) -> Seq<AdapterRecord> {
    spec_scan_from(registers, 0)
}

/// Every record of a scan stands for a device of the scanned range whose
/// ID register does not read all ones, and is the record of that device;
/// the records stand in the order of the scan.
pub proof fn lemma_scan_from(registers: Map<u32, ConfigRegister>, slot: int)
    requires
        0 <= slot,
    ensures
        forall|k: int|
            0 <= k < spec_scan_from(registers, slot).len() ==> {
                let adapter = #[trigger] spec_scan_from(registers, slot)[k];
                &&& adapter.bus < PCI_MAX_BUS_NUMBER
                &&& adapter.device < PCI_MAX_DEVICE_NUMBER
                &&& slot <= spec_slot(adapter.bus, adapter.device)
                &&& spec_read(
                    registers,
                    spec_config_address(adapter.bus, adapter.device, PCI_ID_REGISTER),
                ) != PCI_ID_ABSENT
                &&& spec_adapter_at(registers, spec_slot(adapter.bus, adapter.device)) == Some(
                    adapter,
                )
            },
        forall|j: int, k: int|
            0 <= j < k < spec_scan_from(registers, slot).len() ==> {
                let first = #[trigger] spec_scan_from(registers, slot)[j];
                let second = #[trigger] spec_scan_from(registers, slot)[k];
                spec_slot(first.bus, first.device) < spec_slot(second.bus, second.device)
            },
    decreases spec_slot_count() - slot,
{
    if slot < spec_slot_count() {
        lemma_scan_from(registers, slot + 1);
    }
}

/// A scan never yields two records with the same bus and device, and
/// never a record for a device whose ID register reads all ones.
pub proof fn lemma_scan_distinct(registers: Map<u32, ConfigRegister>)
    ensures
        forall|j: int, k: int|
            0 <= j < k < spec_scan(registers).len() ==> {
                let first = #[trigger] spec_scan(registers)[j];
                let second = #[trigger] spec_scan(registers)[k];
                first.bus != second.bus || first.device != second.device
            },
        forall|k: int|
            0 <= k < spec_scan(registers).len() ==> {
                let adapter = #[trigger] spec_scan(registers)[k];
                &&& adapter.bus < PCI_MAX_BUS_NUMBER
                &&& adapter.device < PCI_MAX_DEVICE_NUMBER
                &&& spec_read(
                    registers,
                    spec_config_address(adapter.bus, adapter.device, PCI_ID_REGISTER),
                ) != PCI_ID_ABSENT
            },
{
    lemma_scan_from(registers, 0);
}

/// The state of a bus scan as a value.
pub ghost struct ScanState {
    pub bus: u8,
    pub device: u8,
    pub done: bool,
    pub probe: Option<ProbeState>,
    pub adapters: Seq<AdapterRecord>,
}

impl ScanState {
    /// A scan that has visited nothing yet.
    pub open spec fn spec_start() -> ScanState {
        ScanState { bus: 0, device: 0, done: false, probe: None, adapters: Seq::empty() }
    }

    /// The access that the scan needs next, or `None` when it is done.
    pub open spec fn spec_pending(self) -> Option<ConfigRequest> {
        if self.done {
            None
        } else {
            match self.probe {
                None => Some(
                    ConfigRequest {
                        bus: self.bus,
                        device: self.device,
                        access: ConfigAccess::Read { register: PCI_ID_REGISTER },
                    },
                ),
                Some(probe) => match probe.spec_pending() {
                    Some(access) => Some(
                        ConfigRequest { bus: self.bus, device: self.device, access },
                    ),
                    None => None,
                },
            }
        }
    }

    /// The scan at the next place, or done behind the last.
    pub open spec fn spec_step_on(self) -> ScanState {
        if self.device + 1 < PCI_MAX_DEVICE_NUMBER {
            ScanState { device: (self.device + 1) as u8, probe: None, ..self }
        } else if self.bus + 1 < PCI_MAX_BUS_NUMBER {
            ScanState { bus: (self.bus + 1) as u8, device: 0, probe: None, ..self }
        } else {
            ScanState { done: true, probe: None, ..self }
        }
    }

    /// The scan after the pending access was performed and answered
    /// `reply`. A device whose ID register reads all ones is passed over;
    /// any other is probed, and recorded if the probe accepts it.
    pub open spec fn spec_next(self, reply: u32) -> ScanState {
        if self.done {
            self
        } else {
            match self.probe {
                None => {
                    if reply == PCI_ID_ABSENT {
                        self.spec_step_on()
                    } else {
                        ScanState {
                            probe: Some(
                                ProbeState::spec_start(
                                    self.bus,
                                    self.device,
                                    spec_vendor_id(reply),
                                    spec_device_id(reply),
                                ),
                            ),
                            ..self
                        }
                    }
                },
                Some(probe) => {
                    let next = probe.spec_next(reply);
                    if next.spec_ended() {
                        ScanState {
                            adapters: match next.spec_result() {
                                Some(adapter) => self.adapters.push(adapter),
                                None => self.adapters,
                            },
                            ..self
                        }.spec_step_on()
                    } else {
                        ScanState { probe: Some(next), ..self }
                    }
                },
            }
        }
    }

    /// A bound on the number of accesses that the scan still needs.
    pub open spec fn spec_remaining(self) -> nat {
        if self.done {
            0
        } else {
            let places = spec_slot_count() - 1 - spec_slot(self.bus, self.device);
            let here: nat = match self.probe {
                None => 53,
                Some(probe) => 1 + probe.spec_remaining(),
            };
            if places > 0 {
                (53 * places) as nat + here
            } else {
                here
            }
        }
    }

    /// What holds between the steps of a scan that started on `initial`.
    pub open spec fn inv(
        self,
        registers: Map<u32, ConfigRegister>,
        initial: Map<u32, ConfigRegister>,
    ) -> bool {
        let slot = spec_slot(self.bus, self.device);
        let id = spec_read(initial, spec_config_address(self.bus, self.device, PCI_ID_REGISTER));
        if self.done {
            registers == initial && self.adapters == spec_scan(initial)
        } else {
            &&& self.bus < PCI_MAX_BUS_NUMBER
            &&& self.device < PCI_MAX_DEVICE_NUMBER
            &&& self.adapters + spec_scan_from(initial, slot) == spec_scan(initial)
            &&& match self.probe {
                None => registers == initial,
                Some(probe) => {
                    &&& probe.inv(registers, initial)
                    &&& !probe.spec_ended()
                    &&& probe.bus == self.bus
                    &&& probe.device == self.device
                    &&& id != PCI_ID_ABSENT
                    &&& probe.vendor_id == spec_vendor_id(id)
                    &&& probe.device_id == spec_device_id(id)
                },
            }
        }
    }

    /// A scan that has visited nothing is in step with any registers.
    pub proof fn lemma_start(registers: Map<u32, ConfigRegister>)
        ensures
            ScanState::spec_start().inv(registers, registers),
    {
        assert(Seq::<AdapterRecord>::empty() + spec_scan_from(registers, 0) =~= spec_scan(
            registers,
        ));
    }

    /// Performing the pending access on the modelled registers and
    /// advancing the scan with the answer keeps the two in step, and brings
    /// the scan nearer to its end.
    pub proof fn lemma_step(
        self,
        registers: Map<u32, ConfigRegister>,
        initial: Map<u32, ConfigRegister>,
    )
        requires
            self.inv(registers, initial),
            !self.done,
        ensures
            ({
                let request = self.spec_pending().unwrap();
                let reply = spec_reply(registers, request.bus, request.device, request.access);
                let next = self.spec_next(reply);
                &&& self.spec_pending() is Some
                &&& next.inv(
                    spec_after(registers, request.bus, request.device, request.access),
                    initial,
                )
                &&& next.spec_remaining() < self.spec_remaining()
            }),
    {
        let slot = spec_slot(self.bus, self.device);
        let here = spec_scan_from(initial, slot);
        let rest = spec_scan_from(initial, slot + 1);
        assert(slot / PCI_MAX_DEVICE_NUMBER as int == self.bus && slot
            % PCI_MAX_DEVICE_NUMBER as int == self.device);
        let on = self.spec_step_on();
        if !on.done {
            assert(spec_slot(on.bus, on.device) == slot + 1);
        } else {
            assert(rest =~= Seq::<AdapterRecord>::empty());
        }
        match self.probe {
            None => {
                let request = self.spec_pending().unwrap();
                let reply = spec_reply(registers, request.bus, request.device, request.access);
                if reply == PCI_ID_ABSENT {
                    assert(here == rest);
                    assert(self.adapters + rest =~= self.adapters + here);
                    if on.done {
                        assert(self.adapters + rest =~= self.adapters);
                    }
                } else {
                    ProbeState::lemma_start(
                        initial,
                        self.bus,
                        self.device,
                        spec_vendor_id(reply),
                        spec_device_id(reply),
                    );
                }
            },
            Some(probe) => {
                probe.lemma_step(registers, initial);
                let access = probe.spec_pending().unwrap();
                let reply = spec_reply(registers, self.bus, self.device, access);
                let next = probe.spec_next(reply);
                if next.spec_ended() {
                    next.lemma_ended(spec_after(registers, self.bus, self.device, access), initial);
                    match next.spec_result() {
                        Some(adapter) => {
                            assert(here =~= seq![adapter] + rest);
                            assert(self.adapters.push(adapter) + rest =~= self.adapters + here);
                            if on.done {
                                assert(self.adapters.push(adapter) + rest =~= self.adapters.push(
                                    adapter,
                                ));
                            }
                        },
                        None => {
                            assert(here == rest);
                            if on.done {
                                assert(self.adapters + rest =~= self.adapters);
                            }
                        },
                    }
                }
            },
        }
    }
}

/// The scan of buses 0 to 31 with their devices 0 to 31. Bridges and
/// further functions of a device are not followed. The scan performs no
/// access itself: `pending` names the access it needs, and `advance` takes
/// it on once that access is done.
#[derive(Debug)]
pub struct BusScan {
    pub bus: u8,
    pub device: u8,
    pub done: bool,
    pub probe: Option<AdapterProbe>,
    pub adapters: Vec<PciAdapter>,
}

impl View for BusScan {
    type V = ScanState;

    open spec fn view(&self) -> ScanState {
        ScanState {
            bus: self.bus,
            device: self.device,
            done: self.done,
            probe: match self.probe {
                Some(probe) => Some(probe@),
                None => None,
            },
            adapters: spec_records(self.adapters@),
        }
    }
}

impl BusScan {
    /// A scan that has visited nothing yet.
    pub fn new() -> (scan: BusScan)
        ensures
            scan@ == ScanState::spec_start(),
    {
        let scan = BusScan { bus: 0, device: 0, done: false, probe: None, adapters: Vec::new() };
        assert(spec_records(scan.adapters@) =~= Seq::<AdapterRecord>::empty());
        scan
    }

    /// The access to perform next, or `None` when the scan is done.
    pub fn pending(&self) -> (request: Option<ConfigRequest>)
        ensures
            request == self@.spec_pending(),
    {
        if self.done {
            return None;
        }
        match &self.probe {
            None => Some(
                ConfigRequest {
                    bus: self.bus,
                    device: self.device,
                    access: ConfigAccess::Read { register: PCI_ID_REGISTER },
                },
            ),
            Some(probe) => match probe.pending() {
                Some(access) => Some(ConfigRequest { bus: self.bus, device: self.device, access }),
                None => None,
            },
        }
    }

    /// Whether every place has been visited.
    pub fn is_done(&self) -> (done: bool)
        ensures
            done == self@.done,
    {
        self.done
    }

    fn step_on(&mut self)
        requires
            old(self).probe is None,
        ensures
            final(self)@ == old(self)@.spec_step_on(),
    {
        if self.device < PCI_MAX_DEVICE_NUMBER - 1 {
            self.device = self.device + 1;
        } else if self.bus < PCI_MAX_BUS_NUMBER - 1 {
            self.bus = self.bus + 1;
            self.device = 0;
        } else {
            self.done = true;
        }
    }

    /// Takes the scan on after the pending access was performed. `reply`
    /// is the value read; after a write it is ignored.
    pub fn advance(&mut self, reply: u32)
        ensures
            final(self)@ == old(self)@.spec_next(reply),
    {
        if self.done {
            return ;
        }
        match self.probe.take() {
            None => {
                if reply == PCI_ID_ABSENT {
                    self.step_on();
                } else {
                    let vendor_id: u16 = low_half(reply);
                    let device_id: u16 = low_half(reply >> 16);
                    self.probe = Some(AdapterProbe::new(self.bus, self.device, vendor_id, device_id));
                }
            },
            Some(probe) => {
                let mut probe = probe;
                probe.advance(reply);
                if probe.has_ended() {
                    let ghost before = spec_records(self.adapters@);
                    match probe.finish() {
                        Some(adapter) => {
                            self.adapters.push(adapter);
                            assert(spec_records(self.adapters@) =~= before.push(adapter@));
                        },
                        None => {},
                    }
                    self.step_on();
                } else {
                    self.probe = Some(probe);
                }
            },
        }
    }

    /// The records of the devices found so far; all of them once the scan
    /// is done.
    pub fn finish(self) -> (adapters: Vec<PciAdapter>)
        ensures
            spec_records(adapters@) == self@.adapters,
    {
        self.adapters
    }
}

/// Scans the modelled configuration space and returns the records of the
/// devices that are present and have a header of type 0, in the order of
/// their buses and devices. No two records share a bus and a device, none
/// stands for a device whose ID register reads all ones, and every
/// register is left as it was found.
pub fn init(space: &mut ConfigSpace) -> (adapters: Vec<PciAdapter>)
    ensures
        final(space)@ == old(space)@,
        spec_records(adapters@) == spec_scan(old(space)@),
        forall|j: int, k: int|
            0 <= j < k < adapters.len() ==> (#[trigger] adapters[j]).bus != (
            #[trigger] adapters[k]).bus || adapters[j].device != adapters[k].device,
        forall|k: int|
            0 <= k < adapters.len() ==> spec_read(
                old(space)@,
                spec_config_address(
                    (#[trigger] adapters[k]).bus,
                    adapters[k].device,
                    PCI_ID_REGISTER,
                ),
            ) != PCI_ID_ABSENT,
{
    let ghost initial = space@;
    let mut scan = BusScan::new();
    proof {
        ScanState::lemma_start(initial);
    }
    while !scan.is_done()
        invariant
            scan@.inv(space@, initial),
        decreases scan@.spec_remaining(),
    {
        proof {
            scan@.lemma_step(space@, initial);
        }
        let request: ConfigRequest = scan.pending().unwrap();
        let reply: u32 = space.access(request.bus, request.device, request.access);
        scan.advance(reply);
    }
    let adapters = scan.finish();
    proof {
        lemma_scan_distinct(initial);
        let records = spec_records(adapters@);
        assert forall|j: int, k: int| 0 <= j < k < adapters.len() implies (
        #[trigger] adapters[j]).bus != (#[trigger] adapters[k]).bus || adapters[j].device
            != adapters[k].device by {
            assert(records[j] == adapters[j]@ && records[k] == adapters[k]@);
        }
        assert forall|k: int| 0 <= k < adapters.len() implies spec_read(
            initial,
            spec_config_address((#[trigger] adapters[k]).bus, adapters[k].device, PCI_ID_REGISTER),
        ) != PCI_ID_ABSENT by {
            assert(records[k] == adapters[k]@);
        }
    }
    adapters
}

} // verus!
