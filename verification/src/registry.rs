//! The drivers of the devices that were found: what a driver is, the list
//! they are registered in, and the pass over the adapters that makes them.

use crate::adapter::{AdapterRecord, PciAdapter};
use crate::config::{ConfigRegister, ConfigSpace};
use crate::net_device::{NetDeviceState, VirtioNetDevice};
use crate::queues::{SetupState, VIRTIO_NET_MTU};
use crate::virtio_net::{
    create_virtionet_driver, spec_regions, DriverState, HandshakePhase, VirtioNetDriver,
};
use vstd::prelude::*;

verus! {

/// The vendor of virtio devices.
pub const VIRTIO_VENDOR_ID: u16 = 0x1AF4;

/// The first device ID of a virtio network device.
pub const VIRTIO_NET_DEVICE_ID_FIRST: u16 = 0x1000;

/// The last device ID of a virtio network device.
pub const VIRTIO_NET_DEVICE_ID_LAST: u16 = 0x107F;

/// The vendor of the RTL8139.
pub const REALTEK_VENDOR_ID: u16 = 0x10EC;

/// The first device ID of an RTL8139.
pub const RTL8139_DEVICE_ID_FIRST: u16 = 0x8138;

/// The last device ID of an RTL8139.
pub const RTL8139_DEVICE_ID_LAST: u16 = 0x8139;

/// An initialised driver, by its kind. `F` is the driver of a virtio
/// filesystem device, `N` the driver of a virtio network device, `R` the
/// driver of an RTL8139.
pub enum PciDriver<F, N, R> {
    VirtioFs(F),
    VirtioNet(N),
    RTL8139Net(R),
}

/// A driver that can send and receive packets, whatever its kind.
pub enum NetworkDriver<'a, N, R> {
    Virtio(&'a N),
    Legacy(&'a R),
}

impl<F, N, R> PciDriver<F, N, R> {
    /// Whether this is a driver of a network device.
    pub open spec fn spec_is_network(&self) -> bool {
        self is VirtioNet || self is RTL8139Net
    }

    /// Whether this is a driver of a filesystem device.
    pub open spec fn spec_is_filesystem(&self) -> bool {
        self is VirtioFs
    }

    /// This driver as a network driver, if it is one.
    pub fn get_network_driver(&self) -> (driver: Option<NetworkDriver<'_, N, R>>)
        ensures
            match driver {
                Some(NetworkDriver::Virtio(driver)) => self is VirtioNet && *driver
                    == self->VirtioNet_0,
                Some(NetworkDriver::Legacy(driver)) => self is RTL8139Net && *driver
                    == self->RTL8139Net_0,
                None => self is VirtioFs,
            },
    {
        match self {
            Self::VirtioNet(drv) => Some(NetworkDriver::Virtio(drv)),
            Self::RTL8139Net(drv) => Some(NetworkDriver::Legacy(drv)),
            _ => None,
        }
    }

    /// This driver as a filesystem driver, if it is one.
    pub fn get_filesystem_driver(&self) -> (driver: Option<&F>)
        ensures
            match driver {
                Some(driver) => self is VirtioFs && *driver == self->VirtioFs_0,
                None => !(self is VirtioFs),
            },
    {
        match self {
            Self::VirtioFs(drv) => Some(drv),
            _ => None,
        }
    }
}

/// Appends a driver to the list of drivers. Nothing is ever taken out.
pub fn register_driver<F, N, R>(drivers: &mut Vec<PciDriver<F, N, R>>, drv: PciDriver<F, N, R>)
    ensures
        final(drivers)@ == old(drivers)@.push(drv),
{
    drivers.push(drv);
}

/// The place of the first driver in the list that `wanted` holds of, or
/// the length of the list where it holds of none.
pub open spec fn spec_first<F, N, R>(
    drivers: Seq<PciDriver<F, N, R>>,
    wanted: spec_fn(PciDriver<F, N, R>) -> bool,
) -> int
    decreases drivers.len(),
{
    if drivers.len() == 0 {
        0
    } else if wanted(drivers[0]) {
        0
    } else {
        1 + spec_first(drivers.subrange(1, drivers.len() as int), wanted)
    }
}

/// `spec_first` is the least place in the list of which `wanted` holds.
pub proof fn lemma_first<F, N, R>(
    drivers: Seq<PciDriver<F, N, R>>,
    wanted: spec_fn(PciDriver<F, N, R>) -> bool,
)
    ensures
        0 <= spec_first(drivers, wanted) <= drivers.len(),
        spec_first(drivers, wanted) < drivers.len() ==> wanted(
            drivers[spec_first(drivers, wanted)],
        ),
        forall|j: int| 0 <= j < spec_first(drivers, wanted) ==> !wanted(#[trigger] drivers[j]),
    decreases drivers.len(),
{
    if drivers.len() > 0 && !wanted(drivers[0]) {
        let rest = drivers.subrange(1, drivers.len() as int);
        lemma_first(rest, wanted);
        assert forall|j: int| 0 <= j < spec_first(drivers, wanted) implies !wanted(
            #[trigger] drivers[j],
        ) by {
            if j > 0 {
                assert(rest[j - 1] == drivers[j]);
            }
        }
        if spec_first(drivers, wanted) < drivers.len() {
            assert(rest[spec_first(rest, wanted)] == drivers[spec_first(drivers, wanted)]);
        }
    }
}

/// Returns the network driver that was registered first, if any was.
pub fn get_network_driver<F, N, R>(drivers: &Vec<PciDriver<F, N, R>>) -> (driver: Option<
    NetworkDriver<'_, N, R>,
>)
    ensures
        ({
            let first = spec_first(drivers@, |drv: PciDriver<F, N, R>| drv.spec_is_network());
            match driver {
                Some(NetworkDriver::Virtio(driver)) => first < drivers.len()
                    && drivers[first] is VirtioNet && *driver == drivers[first]->VirtioNet_0,
                Some(NetworkDriver::Legacy(driver)) => first < drivers.len()
                    && drivers[first] is RTL8139Net && *driver == drivers[first]->RTL8139Net_0,
                None => first == drivers.len(),
            }
        }),
{
    let ghost wanted = |drv: PciDriver<F, N, R>| drv.spec_is_network();
    let mut i: usize = 0;
    proof {
        lemma_first(drivers@, wanted);
    }
    while i < drivers.len()
        invariant
            i <= drivers.len(),
            wanted == (|drv: PciDriver<F, N, R>| drv.spec_is_network()),
            forall|j: int| 0 <= j < i ==> !wanted(#[trigger] drivers@[j]),
            0 <= spec_first(drivers@, wanted) <= drivers.len(),
            spec_first(drivers@, wanted) < drivers.len() ==> wanted(
                drivers@[spec_first(drivers@, wanted)],
            ),
            forall|j: int| 0 <= j < spec_first(drivers@, wanted) ==> !wanted(#[trigger] drivers@[j]),
        decreases drivers.len() - i,
    {
        match drivers[i].get_network_driver() {
            Some(driver) => {
                assert(wanted(drivers@[i as int]));
                return Some(driver);
            },
            None => {
                assert(!wanted(drivers@[i as int]));
            },
        }
        i = i + 1;
    }
    None
}

/// Returns the filesystem driver that was registered first, if any was.
pub fn get_filesystem_driver<F, N, R>(drivers: &Vec<PciDriver<F, N, R>>) -> (driver: Option<&F>)
    ensures
        ({
            let first = spec_first(drivers@, |drv: PciDriver<F, N, R>| drv.spec_is_filesystem());
            match driver {
                Some(driver) => first < drivers.len() && drivers[first] is VirtioFs && *driver
                    == drivers[first]->VirtioFs_0,
                None => first == drivers.len(),
            }
        }),
{
    let ghost wanted = |drv: PciDriver<F, N, R>| drv.spec_is_filesystem();
    let mut i: usize = 0;
    proof {
        lemma_first(drivers@, wanted);
    }
    while i < drivers.len()
        invariant
            i <= drivers.len(),
            wanted == (|drv: PciDriver<F, N, R>| drv.spec_is_filesystem()),
            forall|j: int| 0 <= j < i ==> !wanted(#[trigger] drivers@[j]),
            0 <= spec_first(drivers@, wanted) <= drivers.len(),
            spec_first(drivers@, wanted) < drivers.len() ==> wanted(
                drivers@[spec_first(drivers@, wanted)],
            ),
            forall|j: int| 0 <= j < spec_first(drivers@, wanted) ==> !wanted(#[trigger] drivers@[j]),
        decreases drivers.len() - i,
    {
        match drivers[i].get_filesystem_driver() {
            Some(driver) => {
                assert(wanted(drivers@[i as int]));
                return Some(driver);
            },
            None => {
                assert(!wanted(drivers@[i as int]));
            },
        }
        i = i + 1;
    }
    None
}

/// Whether these IDs are those of a virtio network device.
pub open spec fn spec_is_virtio_net(vendor_id: u16, device_id: u16) -> bool {
    vendor_id == VIRTIO_VENDOR_ID && VIRTIO_NET_DEVICE_ID_FIRST <= device_id
        <= VIRTIO_NET_DEVICE_ID_LAST
}

/// Whether these IDs are those of an RTL8139.
pub open spec fn spec_is_rtl8139(vendor_id: u16, device_id: u16) -> bool {
    vendor_id == REALTEK_VENDOR_ID && RTL8139_DEVICE_ID_FIRST <= device_id
        <= RTL8139_DEVICE_ID_LAST
}

/// Decides whether an adapter is a virtio network device.
pub fn is_virtio_net(adapter: &PciAdapter) -> (matches: bool)
    ensures
        matches == spec_is_virtio_net(adapter.vendor_id, adapter.device_id),
{
    adapter.vendor_id == VIRTIO_VENDOR_ID && adapter.device_id >= VIRTIO_NET_DEVICE_ID_FIRST
        && adapter.device_id <= VIRTIO_NET_DEVICE_ID_LAST
}

/// Decides whether an adapter is an RTL8139.
pub fn is_rtl8139(adapter: &PciAdapter) -> (matches: bool)
    ensures
        matches == spec_is_rtl8139(adapter.vendor_id, adapter.device_id),
{
    adapter.vendor_id == REALTEK_VENDOR_ID && adapter.device_id >= RTL8139_DEVICE_ID_FIRST
        && adapter.device_id <= RTL8139_DEVICE_ID_LAST
}

/// Which kind of device the pass over the adapters looks for.
#[derive(Clone, Copy, Debug, PartialEq, Eq, Structural)]
pub enum InitPass {
    /// Virtio network devices.
    Virtio,
    /// RTL8139 devices, where no virtio network device could be driven.
    Legacy,
    /// The pass is over.
    Done,
}

/// A device to make a driver for, by the place of its adapter.
#[derive(Clone, Copy, Debug, PartialEq, Eq, Structural)]
pub enum InitRequest {
    /// Make a virtio network driver for this adapter.
    Virtio { adapter: usize },
    /// Make an RTL8139 driver for this adapter.
    Legacy { adapter: usize },
}

/// Whether an adapter is of the kind that a pass looks for.
pub open spec fn spec_matches(adapter: AdapterRecord, pass: InitPass) -> bool {
    match pass {
        InitPass::Virtio => spec_is_virtio_net(adapter.vendor_id, adapter.device_id),
        InitPass::Legacy => spec_is_rtl8139(adapter.vendor_id, adapter.device_id),
        InitPass::Done => false,
    }
}

/// The place of the first adapter from `from` on that a pass looks for,
/// or the number of adapters where there is none.
pub open spec fn spec_seek(adapters: Seq<PciAdapter>, from: int, pass: InitPass) -> int
    decreases adapters.len() - from,
{
    if from < 0 || from >= adapters.len() {
        adapters.len() as int
    } else if spec_matches(adapters[from]@, pass) {
        from
    } else {
        spec_seek(adapters, from + 1, pass)
    }
}

/// `spec_seek` is the least place from `from` on that the pass looks for.
pub proof fn lemma_seek(adapters: Seq<PciAdapter>, from: int, pass: InitPass)
    requires
        0 <= from <= adapters.len(),
    ensures
        from <= spec_seek(adapters, from, pass) <= adapters.len(),
        spec_seek(adapters, from, pass) < adapters.len() ==> spec_matches(
            adapters[spec_seek(adapters, from, pass)]@,
            pass,
        ),
        forall|j: int|
            from <= j < spec_seek(adapters, from, pass) ==> !spec_matches(
                (#[trigger] adapters[j])@,
                pass,
            ),
    decreases adapters.len() - from,
{
    if from < adapters.len() && !spec_matches(adapters[from]@, pass) {
        lemma_seek(adapters, from + 1, pass);
    }
}

/// The pass and the place at which the work goes on once the adapters
/// before `from` are dealt with in `pass`: at the next adapter of the
/// kind, or, behind the last, in the legacy pass if no network device is
/// driven yet, or nowhere.
pub open spec fn spec_resume(
    adapters: Seq<PciAdapter>,
    pass: InitPass,
    from: int,
    nic_available: bool,
) -> (InitPass, int) {
    let next = spec_seek(adapters, from, pass);
    match pass {
        InitPass::Virtio => {
            if next < adapters.len() {
                (InitPass::Virtio, next)
            } else if nic_available {
                (InitPass::Done, adapters.len() as int)
            } else {
                let legacy = spec_seek(adapters, 0, InitPass::Legacy);
                if legacy < adapters.len() {
                    (InitPass::Legacy, legacy)
                } else {
                    (InitPass::Done, adapters.len() as int)
                }
            }
        },
        InitPass::Legacy => {
            if next < adapters.len() {
                (InitPass::Legacy, next)
            } else {
                (InitPass::Done, adapters.len() as int)
            }
        },
        InitPass::Done => (InitPass::Done, adapters.len() as int),
    }
}

/// The pass over the adapters that makes the drivers: first a driver for
/// every virtio network device, then, if none of them could be driven, a
/// driver for every RTL8139. The pass makes no driver itself: `pending`
/// names the adapter to make one for, and `virtio_done` or `legacy_done`
/// takes the pass on with the outcome.
pub struct DriverInit<F, N, R> {
    pub pass: InitPass,
    pub index: usize,
    pub nic_available: bool,
    pub drivers: Vec<PciDriver<F, N, R>>,
}

impl<F, N, R> DriverInit<F, N, R> {
    /// Whether the pass stands at an adapter of the kind it looks for, or
    /// is over.
    pub open spec fn wf(&self, adapters: Seq<PciAdapter>) -> bool {
        match self.pass {
            InitPass::Done => true,
            _ => self.index < adapters.len() && spec_matches(
                adapters[self.index as int]@,
                self.pass,
            ),
        }
    }

    /// The adapter to make a driver for next, or `None` when the pass is
    /// over.
    pub open spec fn spec_pending(&self) -> Option<InitRequest> {
        match self.pass {
            InitPass::Virtio => Some(InitRequest::Virtio { adapter: self.index }),
            InitPass::Legacy => Some(InitRequest::Legacy { adapter: self.index }),
            InitPass::Done => None,
        }
    }

    fn seek(&mut self, adapters: &Vec<PciAdapter>, from: usize)
        requires
            from <= adapters.len(),
            old(self).pass != InitPass::Done,
        ensures
            (final(self).pass, final(self).index as int) == spec_resume(
                adapters@,
                old(self).pass,
                from as int,
                old(self).nic_available,
            ),
            final(self).nic_available == old(self).nic_available,
            final(self).drivers == old(self).drivers,
            final(self).wf(adapters@),
            final(self).pass == InitPass::Done ==> final(self).index == adapters.len(),
    {
        let mut index: usize = from;
        proof {
            lemma_seek(adapters@, from as int, self.pass);
        }
        while index < adapters.len() && !self.matches(&adapters[index])
            invariant
                from <= index <= adapters.len(),
                self.pass == old(self).pass,
                self.nic_available == old(self).nic_available,
                self.drivers == old(self).drivers,
                spec_seek(adapters@, index as int, self.pass) == spec_seek(
                    adapters@,
                    from as int,
                    self.pass,
                ),
            decreases adapters.len() - index,
        {
            index = index + 1;
        }
        if index < adapters.len() {
            self.index = index;
            return ;
        }
        if self.pass == InitPass::Virtio && !self.nic_available {
            self.pass = InitPass::Legacy;
            let mut legacy: usize = 0;
            proof {
                lemma_seek(adapters@, 0, InitPass::Legacy);
            }
            while legacy < adapters.len() && !self.matches(&adapters[legacy])
                invariant
                    legacy <= adapters.len(),
                    self.pass == InitPass::Legacy,
                    self.nic_available == old(self).nic_available,
                    self.drivers == old(self).drivers,
                    spec_seek(adapters@, legacy as int, InitPass::Legacy) == spec_seek(
                        adapters@,
                        0,
                        InitPass::Legacy,
                    ),
                decreases adapters.len() - legacy,
            {
                legacy = legacy + 1;
            }
            if legacy < adapters.len() {
                self.index = legacy;
                return ;
            }
        }
        self.pass = InitPass::Done;
        self.index = adapters.len();
    }

    fn matches(&self, adapter: &PciAdapter) -> (matches: bool)
        ensures
            matches == spec_matches(adapter@, self.pass),
    {
        match self.pass {
            InitPass::Virtio => is_virtio_net(adapter),
            InitPass::Legacy => is_rtl8139(adapter),
            InitPass::Done => false,
        }
    }

    /// A pass over `adapters` that has made no driver yet.
    pub fn new(adapters: &Vec<PciAdapter>) -> (init: DriverInit<F, N, R>)
        ensures
            (init.pass, init.index as int) == spec_resume(adapters@, InitPass::Virtio, 0, false),
            !init.nic_available,
            init.drivers@ == Seq::<PciDriver<F, N, R>>::empty(),
            init.wf(adapters@),
    {
        let mut init = DriverInit {
            pass: InitPass::Virtio,
            index: 0,
            nic_available: false,
            drivers: Vec::new(),
        };
        init.seek(adapters, 0);
        init
    }

    /// The adapter to make a driver for next, or `None` when the pass is
    /// over.
    pub fn pending(&self) -> (request: Option<InitRequest>)
        ensures
            request == self.spec_pending(),
    {
        match self.pass {
            InitPass::Virtio => Some(InitRequest::Virtio { adapter: self.index }),
            InitPass::Legacy => Some(InitRequest::Legacy { adapter: self.index }),
            InitPass::Done => None,
        }
    }

    /// Whether the pass is over.
    pub fn is_done(&self) -> (done: bool)
        ensures
            done == (self.pass == InitPass::Done),
    {
        self.pass == InitPass::Done
    }

    /// Takes the pass on once the virtio network device that was pending
    /// has its driver, or has none. A driver is registered, and the legacy
    /// pass is then not made. Outside the virtio pass nothing happens.
    pub fn virtio_done(&mut self, adapters: &Vec<PciAdapter>, driver: Option<N>)
        requires
            old(self).wf(adapters@),
        ensures
            old(self).pass != InitPass::Virtio ==> *final(self) == *old(self),
            old(self).pass == InitPass::Virtio ==> {
                &&& final(self).nic_available == (old(self).nic_available || driver is Some)
                &&& final(self).drivers@ == match driver {
                    Some(driver) => old(self).drivers@.push(PciDriver::VirtioNet(driver)),
                    None => old(self).drivers@,
                }
                &&& (final(self).pass, final(self).index as int) == spec_resume(
                    adapters@,
                    InitPass::Virtio,
                    old(self).index + 1,
                    final(self).nic_available,
                )
            },
            final(self).wf(adapters@),
    {
        if self.pass != InitPass::Virtio {
            return ;
        }
        assert(self.index < adapters.len());
        let from: usize = self.index + 1;
        match driver {
            Some(driver) => {
                self.nic_available = true;
                register_driver(&mut self.drivers, PciDriver::VirtioNet(driver));
            },
            None => {},
        }
        self.seek(adapters, from);
    }

    /// Takes the pass on once the RTL8139 that was pending has its
    /// driver, or has none. A driver is registered. Outside the legacy
    /// pass nothing happens.
    pub fn legacy_done(&mut self, adapters: &Vec<PciAdapter>, driver: Option<R>)
        requires
            old(self).wf(adapters@),
        ensures
            old(self).pass != InitPass::Legacy ==> *final(self) == *old(self),
            old(self).pass == InitPass::Legacy ==> {
                &&& final(self).nic_available == old(self).nic_available
                &&& final(self).drivers@ == match driver {
                    Some(driver) => old(self).drivers@.push(PciDriver::RTL8139Net(driver)),
                    None => old(self).drivers@,
                }
                &&& (final(self).pass, final(self).index as int) == spec_resume(
                    adapters@,
                    InitPass::Legacy,
                    old(self).index + 1,
                    final(self).nic_available,
                )
            },
            final(self).wf(adapters@),
    {
        if self.pass != InitPass::Legacy {
            return ;
        }
        assert(self.index < adapters.len());
        let from: usize = self.index + 1;
        match driver {
            Some(driver) => {
                register_driver(&mut self.drivers, PciDriver::RTL8139Net(driver));
            },
            None => {},
        }
        self.seek(adapters, from);
    }

    /// The drivers made so far; all of them once the pass is over.
    pub fn finish(self) -> (drivers: Vec<PciDriver<F, N, R>>)
        ensures
            drivers == self.drivers,
    {
        self.drivers
    }
}

/// The places below `upto` of which `wanted` holds, in rising order.
pub open spec fn spec_places(upto: int, wanted: spec_fn(int) -> bool) -> Seq<int>
    decreases upto,
{
    if upto <= 0 {
        Seq::empty()
    } else if wanted(upto - 1) {
        spec_places(upto - 1, wanted).push(upto - 1)
    } else {
        spec_places(upto - 1, wanted)
    }
}

/// Places of which `wanted` does not hold add nothing.
pub proof fn lemma_places_skip(from: int, upto: int, wanted: spec_fn(int) -> bool)
    requires
        0 <= from <= upto,
        forall|j: int| from <= j < upto ==> !#[trigger] wanted(j),
    ensures
        spec_places(upto, wanted) == spec_places(from, wanted),
    decreases upto - from,
{
    if from < upto {
        assert(!wanted(upto - 1));
        lemma_places_skip(from, upto - 1, wanted);
    }
}

/// Whether a virtio network driver can be made for an adapter: it is a
/// virtio network device, its capabilities can be had and mapped, and the
/// handshake with the device behind it succeeds.
pub open spec fn spec_virtio_driven(
    registers: Map<u32, ConfigRegister>,
    adapter: AdapterRecord,
    nic: NetDeviceState,
) -> bool {
    &&& spec_is_virtio_net(adapter.vendor_id, adapter.device_id)
    &&& spec_regions(registers, adapter) is Ok
    &&& DriverState::spec_succeeds(nic)
}

/// The device behind an adapter after the pass over the adapters: a
/// virtio network device whose capabilities can be had went through the
/// handshake, any other is untouched.
pub open spec fn spec_nic_after(
    registers: Map<u32, ConfigRegister>,
    adapter: AdapterRecord,
    nic: NetDeviceState,
) -> NetDeviceState {
    if spec_is_virtio_net(adapter.vendor_id, adapter.device_id) && spec_regions(
        registers,
        adapter,
    ) is Ok {
        DriverState::spec_outcome(nic)
    } else {
        nic
    }
}

/// Whether `drv` is the live virtio network driver of an adapter.
pub open spec fn spec_virtio_entry<F, R>(
    drv: PciDriver<F, VirtioNetDriver, R>,
    registers: Map<u32, ConfigRegister>,
    adapter: AdapterRecord,
    nic: NetDeviceState,
) -> bool {
    &&& drv is VirtioNet
    &&& drv->VirtioNet_0.phase == HandshakePhase::Live
    &&& Ok::<crate::capability::VirtioRegions, crate::error::PciError>(
        drv->VirtioNet_0.regions,
    ) == spec_regions(registers, adapter)
    &&& drv->VirtioNet_0.device_cfg == nic.config
    &&& drv->VirtioNet_0.spec_rx_buffers() == SetupState::spec_all_rx_buffers(
        DriverState::spec_settled(nic),
    )
    &&& drv->VirtioNet_0.spec_tx_buffers() == SetupState::spec_all_tx_buffers(
        DriverState::spec_settled(nic),
        VIRTIO_NET_MTU,
    )
}

/// The places of the adapters that get a virtio network driver.
pub open spec fn spec_virtio_places(
    registers: Map<u32, ConfigRegister>,
    adapters: Seq<PciAdapter>,
    nics: Seq<VirtioNetDevice>,
    upto: int,
) -> Seq<int> {
    spec_places(
        upto,
        |i: int|
            0 <= i < adapters.len() && i < nics.len() && spec_virtio_driven(
                registers,
                adapters[i]@,
                nics[i]@,
            ),
    )
}

/// The places of the adapters that get an RTL8139 driver, where the
/// legacy pass is made.
pub open spec fn spec_legacy_places<R>(
    adapters: Seq<PciAdapter>,
    legacy: Seq<Option<R>>,
    upto: int,
) -> Seq<int> {
    spec_places(
        upto,
        |i: int|
            0 <= i < adapters.len() && i < legacy.len() && spec_is_rtl8139(
                adapters[i].vendor_id,
                adapters[i].device_id,
            ) && legacy[i] is Some,
    )
}

/// Makes the drivers of the network devices among `adapters`. `nics[i]`
/// models the virtio device behind `adapters[i]`, and `legacy[i]` holds
/// the RTL8139 driver that can be had for `adapters[i]`, if any.
///
/// Every virtio network device whose capabilities can be had goes through
/// the handshake, and each that comes to life gets its driver, in the
/// order of the adapters. Only where no virtio network device comes to
/// life, every RTL8139 that has a driver gets it registered, and that
/// driver is taken out of `legacy`.
pub fn init_drivers<F, R>(
    space: &ConfigSpace,
    adapters: &Vec<PciAdapter>,
    nics: &mut Vec<VirtioNetDevice>,
    legacy: &mut Vec<Option<R>>,
) -> (drivers: Vec<PciDriver<F, VirtioNetDriver, R>>)
    requires
        old(nics).len() == adapters.len(),
        old(legacy).len() == adapters.len(),
        forall|i: int| 0 <= i < old(nics).len() ==> (#[trigger] old(nics)[i])@.wf(),
    ensures
        final(nics).len() == adapters.len(),
        final(legacy).len() == adapters.len(),
        forall|i: int|
            0 <= i < adapters.len() ==> (#[trigger] final(nics)[i])@ == spec_nic_after(
                space@,
                adapters[i]@,
                old(nics)[i]@,
            ),
        ({
            let virtio = spec_virtio_places(space@, adapters@, old(nics)@, adapters.len() as int);
            let others = spec_legacy_places(adapters@, old(legacy)@, adapters.len() as int);
            if virtio.len() > 0 {
                &&& drivers.len() == virtio.len()
                &&& forall|k: int|
                    0 <= k < virtio.len() ==> spec_virtio_entry(
                        #[trigger] drivers[k],
                        space@,
                        adapters[virtio[k]]@,
                        old(nics)[virtio[k]]@,
                    )
                &&& final(legacy)@ == old(legacy)@
            } else {
                &&& drivers.len() == others.len()
                &&& forall|k: int|
                    0 <= k < others.len() ==> #[trigger] drivers[k] == PciDriver::<F, VirtioNetDriver, R>::RTL8139Net(old(legacy)[others[k]].unwrap())
                &&& forall|i: int|
                    0 <= i < adapters.len() ==> #[trigger] final(legacy)[i] == if spec_is_rtl8139(
                        adapters[i].vendor_id,
                        adapters[i].device_id,
                    ) {
                        None
                    } else {
                        old(legacy)[i]
                    }
            }
        }),
{
    let ghost registers = space@;
    let ghost before = nics@;
    let ghost offered = legacy@;
    let ghost count = adapters.len() as int;
    let ghost driven = |i: int|
        0 <= i < adapters@.len() && i < before.len() && spec_virtio_driven(
            registers,
            adapters@[i]@,
            before[i]@,
        );
    let ghost realtek = |i: int|
        0 <= i < adapters@.len() && i < offered.len() && spec_is_rtl8139(
            adapters@[i].vendor_id,
            adapters@[i].device_id,
        ) && offered[i] is Some;
    let mut init: DriverInit<F, VirtioNetDriver, R> = DriverInit::new(adapters);
    proof {
        lemma_seek(adapters@, 0, InitPass::Virtio);
        lemma_seek(adapters@, 0, InitPass::Legacy);
        lemma_places_skip(0, spec_seek(adapters@, 0, InitPass::Virtio), driven);
        if init.pass != InitPass::Virtio {
            lemma_places_skip(0, spec_seek(adapters@, 0, InitPass::Legacy), realtek);
        }
    }
    while !init.is_done()
        invariant
            init.wf(adapters@),
            registers == space@,
            count == adapters.len(),
            nics.len() == count,
            legacy.len() == count,
            before.len() == count,
            offered.len() == count,
            driven == (|i: int|
                0 <= i < adapters@.len() && i < before.len() && spec_virtio_driven(
                    registers,
                    adapters@[i]@,
                    before[i]@,
                )),
            realtek == (|i: int|
                0 <= i < adapters@.len() && i < offered.len() && spec_is_rtl8139(
                    adapters@[i].vendor_id,
                    adapters@[i].device_id,
                ) && offered[i] is Some),
            init.pass == InitPass::Done ==> init.index == count,
            init.index <= count,
            forall|i: int| 0 <= i < count ==> (#[trigger] nics[i])@.wf(),
            forall|i: int| 0 <= i < count ==> (#[trigger] before[i])@.wf(),
            // the virtio pass
            init.pass == InitPass::Virtio ==> {
                &&& init.nic_available == (spec_places(init.index as int, driven).len() > 0)
                &&& init.drivers.len() == spec_places(init.index as int, driven).len()
                &&& forall|k: int|
                    0 <= k < init.drivers.len() ==> spec_virtio_entry(
                        #[trigger] init.drivers[k],
                        registers,
                        adapters[spec_places(init.index as int, driven)[k]]@,
                        before[spec_places(init.index as int, driven)[k]]@,
                    )
                &&& forall|i: int|
                    0 <= i < init.index ==> (#[trigger] nics[i])@ == spec_nic_after(
                        registers,
                        adapters[i]@,
                        before[i]@,
                    )
                &&& forall|i: int| init.index <= i < count ==> (#[trigger] nics[i])@ == before[i]@
                &&& legacy@ == offered
            },
            init.pass != InitPass::Virtio ==> forall|i: int|
                0 <= i < count ==> (#[trigger] nics[i])@ == spec_nic_after(
                    registers,
                    adapters[i]@,
                    before[i]@,
                ),
            // the legacy pass
            init.pass == InitPass::Legacy ==> {
                &&& spec_places(count, driven).len() == 0
                &&& init.drivers.len() == spec_places(init.index as int, realtek).len()
                &&& forall|k: int|
                    0 <= k < init.drivers.len() ==> #[trigger] init.drivers[k] == PciDriver::<F, VirtioNetDriver, R>::RTL8139Net(offered[spec_places(init.index as int, realtek)[k]].unwrap())
                &&& forall|i: int|
                    0 <= i < init.index ==> #[trigger] legacy[i] == if spec_is_rtl8139(
                        adapters[i].vendor_id,
                        adapters[i].device_id,
                    ) {
                        None
                    } else {
                        offered[i]
                    }
                &&& forall|i: int| init.index <= i < count ==> #[trigger] legacy[i] == offered[i]
            },
            // the end
            init.pass == InitPass::Done ==> {
                if spec_places(count, driven).len() > 0 {
                    &&& init.drivers.len() == spec_places(count, driven).len()
                    &&& forall|k: int|
                        0 <= k < init.drivers.len() ==> spec_virtio_entry(
                            #[trigger] init.drivers[k],
                            registers,
                            adapters[spec_places(count, driven)[k]]@,
                            before[spec_places(count, driven)[k]]@,
                        )
                    &&& legacy@ == offered
                } else {
                    &&& init.drivers.len() == spec_places(count, realtek).len()
                    &&& forall|k: int|
                        0 <= k < init.drivers.len() ==> #[trigger] init.drivers[k] == PciDriver::<F, VirtioNetDriver, R>::RTL8139Net(offered[spec_places(count, realtek)[k]].unwrap())
                    &&& forall|i: int|
                        0 <= i < count ==> #[trigger] legacy[i] == if spec_is_rtl8139(
                            adapters[i].vendor_id,
                            adapters[i].device_id,
                        ) {
                            None
                        } else {
                            offered[i]
                        }
                }
            },
        decreases
                match init.pass {
                    InitPass::Virtio => 2 * count + 1 - init.index,
                    InitPass::Legacy => count - init.index,
                    InitPass::Done => 0,
                },
    {
        let index: usize = init.index;
        let ghost drivers_before = init.drivers@;
        let ghost pass = init.pass;
        proof {
            lemma_seek(adapters@, index + 1, init.pass);
            lemma_seek(adapters@, 0, InitPass::Legacy);
        }
        match init.pending() {
            Some(InitRequest::Virtio { adapter }) => {
                let ghost places = spec_places(index as int, driven);
                assert(nics[index as int]@ == before[index as int]@);
                let driver = create_virtionet_driver(space, &adapters[adapter], &mut nics[adapter]);
                let ghost made = driver;
                init.virtio_done(adapters, driver);
                proof {
                    let next = spec_seek(adapters@, index + 1, InitPass::Virtio);
                    let through = spec_places(index + 1, driven);
                    assert(driven(index as int) == (made is Some));
                    assert(through == if made is Some {
                        places.push(index as int)
                    } else {
                        places
                    });
                    lemma_places_skip(index + 1, next, driven);
                    assert forall|k: int| 0 <= k < init.drivers.len() implies spec_virtio_entry(
                        #[trigger] init.drivers[k],
                        registers,
                        adapters[through[k]]@,
                        before[through[k]]@,
                    ) by {
                        if k < drivers_before.len() {
                            assert(init.drivers[k] == drivers_before[k]);
                        }
                    }
                    assert forall|i: int| 0 <= i < next implies (#[trigger] nics[i])@
                        == spec_nic_after(registers, adapters[i]@, before[i]@) by {
                        if i > index {
                            assert(!spec_matches(adapters@[i]@, InitPass::Virtio));
                        }
                    }
                    if init.pass != InitPass::Virtio {
                        assert(next == count);
                        if init.pass == InitPass::Legacy {
                            lemma_places_skip(
                                0,
                                spec_seek(adapters@, 0, InitPass::Legacy),
                                realtek,
                            );
                        } else if !init.nic_available {
                            lemma_places_skip(0, count, realtek);
                        }
                    }
                }
            },
            Some(InitRequest::Legacy { adapter }) => {
                let ghost places = spec_places(index as int, realtek);
                let driver: Option<R> = legacy[adapter].take();
                let ghost made = driver;
                init.legacy_done(adapters, driver);
                proof {
                    let next = spec_seek(adapters@, index + 1, InitPass::Legacy);
                    let through = spec_places(index + 1, realtek);
                    assert(realtek(index as int) == (made is Some));
                    assert(through == if made is Some {
                        places.push(index as int)
                    } else {
                        places
                    });
                    lemma_places_skip(index + 1, next, realtek);
                    assert forall|k: int|
                        0 <= k < init.drivers.len() implies #[trigger] init.drivers[k]
                        == PciDriver::<F, VirtioNetDriver, R>::RTL8139Net(offered[through[k]].unwrap()) by {
                        if k < drivers_before.len() {
                            assert(init.drivers[k] == drivers_before[k]);
                        }
                    }
                    assert forall|i: int| 0 <= i < next implies #[trigger] legacy[i]
                        == if spec_is_rtl8139(adapters[i].vendor_id, adapters[i].device_id) {
                        None
                    } else {
                        offered[i]
                    } by {
                        if i > index {
                            assert(!spec_matches(adapters@[i]@, InitPass::Legacy));
                        }
                    }
                }
            },
            None => {},
        }
    }
    init.finish()
}

} // verus!
