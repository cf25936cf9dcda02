//! The virtio network driver: the handshake that brings a device to
//! life, and the bookkeeping of the buffers that packets travel in.

use crate::adapter::PciAdapter;
use crate::capability::{
    locate_capabilities, map_capabilities, spec_locate, spec_map_capabilities, VirtioRegions,
};
use crate::config::ConfigSpace;
use crate::features::{
    negotiate, spec_features_accepted, spec_required_features, FeatureNegotiation,
    NegotiationPhase, VIRTIO_NET_S_LINK_UP,
};
use crate::fence::memory_fence;
use crate::net_device::{
    virtio_net_config, NetAccess, NetDeviceState, VirtioNetDevice, VIRTIO_NET_RX_QUEUE,
    VIRTIO_NET_TX_QUEUE, VIRTIO_STATUS_ACKNOWLEDGE, VIRTIO_STATUS_DRIVER,
    VIRTIO_STATUS_DRIVER_OK, VIRTIO_STATUS_FEATURES_OK,
};
use crate::queues::{
    setup_queues, QueueSetup, RxBuffer, SetupPhase, SetupState, TxBuffer, VIRTIO_NET_HDR_SIZE,
    VIRTIO_NET_MTU,
};
use crate::virtq::{UsedElement, VirtqState};
use vstd::prelude::*;

verus! {

/// Use `csum_start` and `csum_offset`.
pub const VIRTIO_NET_HDR_F_NEEDS_CSUM: u8 = 1;

/// The checksum is valid.
pub const VIRTIO_NET_HDR_F_DATA_VALID: u8 = 2;

/// Reports the number of coalesced TCP segments.
pub const VIRTIO_NET_HDR_F_RSC_INFO: u8 = 4;

/// Not a GSO frame.
pub const VIRTIO_NET_HDR_GSO_NONE: u8 = 0;

/// GSO frame, IPv4 TCP.
pub const VIRTIO_NET_HDR_GSO_TCPV4: u8 = 1;

/// GSO frame, IPv4 UDP.
pub const VIRTIO_NET_HDR_GSO_UDP: u8 = 3;

/// GSO frame, IPv6 TCP.
pub const VIRTIO_NET_HDR_GSO_TCPV6: u8 = 4;

/// TCP has ECN set.
pub const VIRTIO_NET_HDR_GSO_ECN: u8 = 0x80;

/// The header of a packet as older devices have it.
#[allow(non_camel_case_types)]
#[derive(Clone, Copy, Debug, PartialEq, Eq, Structural)]
pub struct virtio_net_hdr_legacy {
    pub flags: u8,
    pub gso_type: u8,
    /// Ethernet, IP and TCP or UDP headers.
    pub hdr_len: u16,
    /// Bytes to append to `hdr_len` per frame.
    pub gso_size: u16,
    /// Position to start checksumming from.
    pub csum_start: u16,
    /// Offset after that to place the checksum.
    pub csum_offset: u16,
    /// Number of merged receive buffers.
    pub num_buffers: u16,
}

impl virtio_net_hdr_legacy {
    /// The header of a packet that asks for no offload.
    pub open spec fn spec_plain() -> virtio_net_hdr_legacy {
        virtio_net_hdr_legacy {
            flags: 0,
            gso_type: VIRTIO_NET_HDR_GSO_NONE,
            hdr_len: 0,
            gso_size: 0,
            csum_start: 0,
            csum_offset: 0,
            num_buffers: 0,
        }
    }

    /// Makes this the header of a packet of any length that asks for no
    /// checksum and no segmentation offload.
    pub fn init(&mut self, _len: usize)
        ensures
            *final(self) == virtio_net_hdr_legacy::spec_plain(),
    {
        self.flags = 0;
        self.gso_type = VIRTIO_NET_HDR_GSO_NONE;
        self.hdr_len = 0;
        self.gso_size = 0;
        self.csum_start = 0;
        self.csum_offset = 0;
        self.num_buffers = 0;
    }
}

/// The header that precedes every packet in its buffer.
#[allow(non_camel_case_types)]
#[derive(Clone, Copy, Debug, PartialEq, Eq, Structural)]
pub struct virtio_net_hdr {
    pub flags: u8,
    pub gso_type: u8,
    /// Ethernet, IP and TCP or UDP headers.
    pub hdr_len: u16,
    /// Bytes to append to `hdr_len` per frame.
    pub gso_size: u16,
    /// Position to start checksumming from.
    pub csum_start: u16,
    /// Offset after that to place the checksum.
    pub csum_offset: u16,
}

impl virtio_net_hdr {
    /// The header of a packet that asks for no offload.
    pub open spec fn spec_plain() -> virtio_net_hdr {
        virtio_net_hdr {
            flags: 0,
            gso_type: VIRTIO_NET_HDR_GSO_NONE,
            hdr_len: 0,
            gso_size: 0,
            csum_start: 0,
            csum_offset: 0,
        }
    }

    /// A header with every field zero.
    pub fn new() -> (header: virtio_net_hdr)
        ensures
            header == virtio_net_hdr::spec_plain(),
    {
        virtio_net_hdr {
            flags: 0,
            gso_type: VIRTIO_NET_HDR_GSO_NONE,
            hdr_len: 0,
            gso_size: 0,
            csum_start: 0,
            csum_offset: 0,
        }
    }

    /// Makes this the header of a packet of any length that asks for no
    /// checksum and no segmentation offload.
    pub fn init(&mut self, _len: usize)
        ensures
            *final(self) == virtio_net_hdr::spec_plain(),
    {
        self.flags = 0;
        self.gso_type = VIRTIO_NET_HDR_GSO_NONE;
        self.hdr_len = 0;
        self.gso_size = 0;
        self.csum_start = 0;
        self.csum_offset = 0;
    }
}

/// The transmit buffers with the one in slot `index` in use, or `None`
/// where there is no such buffer or it is in use already.
pub open spec fn spec_claim(buffers: Seq<TxBuffer>, index: int) -> Option<Seq<TxBuffer>> {
    if 0 <= index < buffers.len() && !buffers[index].in_use {
        Some(buffers.update(index, TxBuffer { in_use: true, ..buffers[index] }))
    } else {
        None
    }
}

/// The transmit buffers with the one in slot `index` free. A slot that
/// does not exist is ignored.
pub open spec fn spec_complete(buffers: Seq<TxBuffer>, index: int) -> Seq<TxBuffer> {
    if 0 <= index < buffers.len() {
        buffers.update(index, TxBuffer { in_use: false, ..buffers[index] })
    } else {
        buffers
    }
}

/// The transmit buffers after the device is done with `completed`, one
/// after the other.
pub open spec fn spec_reclaim(buffers: Seq<TxBuffer>, completed: Seq<u32>) -> Seq<TxBuffer>
    decreases completed.len(),
{
    if completed.len() == 0 {
        buffers
    } else {
        spec_reclaim(
            spec_complete(buffers, completed[0] as int),
            completed.subrange(1, completed.len() as int),
        )
    }
}

/// Whether one of the transmit buffers is free.
pub open spec fn spec_has_free(buffers: Seq<TxBuffer>) -> bool {
    exists|i: int| 0 <= i < buffers.len() && !(#[trigger] buffers[i]).in_use
}

/// The slots of the buffers that wait in a queue, oldest first.
pub open spec fn spec_used_ids(used: Seq<UsedElement>) -> Seq<u32> {
    Seq::new(used.len(), |i: int| used[i].id)
}

/// A transmit buffer is in use from the moment it is handed out until the
/// device is done with it: once it is handed out it cannot be handed out
/// again, handing out or completing another buffer does not change that,
/// and its completion makes it free to be handed out once more.
pub proof fn lemma_tx_buffer_lifecycle(buffers: Seq<TxBuffer>, index: int, other: int)
    requires
        spec_claim(buffers, index) is Some,
        other != index,
    ensures
        ({
            let claimed = spec_claim(buffers, index).unwrap();
            &&& !buffers[index].in_use
            &&& claimed[index].in_use
            &&& spec_claim(claimed, index) is None
            &&& spec_complete(claimed, other)[index].in_use
            &&& match spec_claim(claimed, other) {
                Some(both) => both[index].in_use && spec_claim(both, index) is None,
                None => true,
            }
            &&& !spec_complete(claimed, index)[index].in_use
            &&& spec_claim(spec_complete(claimed, index), index) is Some
            &&& spec_complete(claimed, index) == buffers
        }),
{
    let claimed = spec_claim(buffers, index).unwrap();
    assert(spec_complete(claimed, index) =~= buffers);
}

/// Whether slot `index` is among the completed ones.
pub open spec fn spec_is_completed(completed: Seq<u32>, index: int) -> bool {
    exists|k: int| 0 <= k < completed.len() && #[trigger] completed[k] == index
}

/// After a reclaim, the buffers in the completed slots are free, and
/// nothing else has changed.
pub proof fn lemma_reclaim(buffers: Seq<TxBuffer>, completed: Seq<u32>)
    ensures
        spec_reclaim(buffers, completed).len() == buffers.len(),
        forall|i: int|
            0 <= i < buffers.len() ==> #[trigger] spec_reclaim(buffers, completed)[i] == (TxBuffer {
                in_use: buffers[i].in_use && !spec_is_completed(completed, i),
                ..buffers[i]
            }),
    decreases completed.len(),
{
    if completed.len() > 0 {
        let first = spec_complete(buffers, completed[0] as int);
        let rest = completed.subrange(1, completed.len() as int);
        lemma_reclaim(first, rest);
        assert forall|i: int| 0 <= i < buffers.len() implies #[trigger] spec_reclaim(
            buffers,
            completed,
        )[i] == (TxBuffer {
            in_use: buffers[i].in_use && !spec_is_completed(completed, i),
            ..buffers[i]
        }) by {
            if spec_is_completed(rest, i) {
                let k = choose|k: int| 0 <= k < rest.len() && #[trigger] rest[k] == i;
                assert(completed[k + 1] == i);
            }
            if spec_is_completed(completed, i) {
                let k = choose|k: int| 0 <= k < completed.len() && #[trigger] completed[k] == i;
                if k > 0 {
                    assert(rest[k - 1] == i);
                }
            }
        }
    }
}

/// What the handshake waits to do next.
#[derive(Clone, Copy, Debug, PartialEq, Eq, Structural)]
pub enum HandshakePhase {
    /// Reset the device.
    Reset,
    /// Tell the device that it has been noticed.
    Acknowledge,
    /// Tell the device that a driver is present.
    Driver,
    /// Negotiate features.
    Features,
    /// Tell the device that the features are settled.
    FeaturesOk,
    /// Read the status back, to see whether the device agrees.
    Verify,
    /// Set the queues up.
    Queues,
    /// Tell the device that the driver is ready.
    DriverOk,
    /// The device is live.
    Live,
    /// The device cannot be driven.
    Failed,
}

/// The state of a driver as a value.
pub ghost struct DriverState {
    pub phase: HandshakePhase,
    pub negotiation: FeatureNegotiation,
    pub queues: SetupState,
    pub device_cfg: virtio_net_config,
    pub regions: VirtioRegions,
}

impl DriverState {
    /// A driver that has done nothing yet.
    pub open spec fn spec_start(device_cfg: virtio_net_config, regions: VirtioRegions) -> DriverState {
        DriverState {
            phase: HandshakePhase::Reset,
            negotiation: FeatureNegotiation::spec_start(),
            queues: SetupState::spec_start(VIRTIO_NET_MTU),
            device_cfg,
            regions,
        }
    }

    /// The access that the handshake needs next, or `None` when it has
    /// ended.
    pub open spec fn spec_pending(self) -> Option<NetAccess> {
        match self.phase {
            HandshakePhase::Reset => Some(NetAccess::WriteStatus { status: 0 }),
            HandshakePhase::Acknowledge => Some(
                NetAccess::SetStatus { bits: VIRTIO_STATUS_ACKNOWLEDGE },
            ),
            HandshakePhase::Driver => Some(NetAccess::SetStatus { bits: VIRTIO_STATUS_DRIVER }),
            HandshakePhase::Features => self.negotiation.spec_pending(),
            HandshakePhase::FeaturesOk => Some(
                NetAccess::SetStatus { bits: VIRTIO_STATUS_FEATURES_OK },
            ),
            HandshakePhase::Verify => Some(NetAccess::ReadStatus),
            HandshakePhase::Queues => self.queues.spec_pending(),
            HandshakePhase::DriverOk => Some(NetAccess::SetStatus { bits: VIRTIO_STATUS_DRIVER_OK }),
            HandshakePhase::Live => None,
            HandshakePhase::Failed => None,
        }
    }

    /// The driver after the pending access was performed and answered
    /// `reply`. The handshake fails where the device lacks a required
    /// feature, and the features-accepted bit is then never written;
    /// where the device takes that bit back; and where a queue cannot be
    /// had.
    pub open spec fn spec_next(self, reply: u64) -> DriverState {
        match self.phase {
            HandshakePhase::Reset => DriverState { phase: HandshakePhase::Acknowledge, ..self },
            HandshakePhase::Acknowledge => DriverState { phase: HandshakePhase::Driver, ..self },
            HandshakePhase::Driver => DriverState { phase: HandshakePhase::Features, ..self },
            HandshakePhase::Features => {
                let negotiation = self.negotiation.spec_next(reply);
                DriverState {
                    phase: if negotiation.phase == NegotiationPhase::Accepted {
                        HandshakePhase::FeaturesOk
                    } else if negotiation.phase == NegotiationPhase::Rejected {
                        HandshakePhase::Failed
                    } else {
                        HandshakePhase::Features
                    },
                    negotiation,
                    ..self
                }
            },
            HandshakePhase::FeaturesOk => DriverState { phase: HandshakePhase::Verify, ..self },
            HandshakePhase::Verify => DriverState {
                phase: if reply & (VIRTIO_STATUS_FEATURES_OK as u64) == 0 {
                    HandshakePhase::Failed
                } else {
                    HandshakePhase::Queues
                },
                ..self
            },
            HandshakePhase::Queues => {
                let queues = self.queues.spec_next(reply);
                DriverState {
                    phase: if queues.phase == SetupPhase::Ready {
                        HandshakePhase::DriverOk
                    } else if queues.phase == SetupPhase::Failed {
                        HandshakePhase::Failed
                    } else {
                        HandshakePhase::Queues
                    },
                    queues,
                    ..self
                }
            },
            HandshakePhase::DriverOk => DriverState { phase: HandshakePhase::Live, ..self },
            HandshakePhase::Live => self,
            HandshakePhase::Failed => self,
        }
    }

    /// Whether the handshake has ended.
    pub open spec fn spec_ended(self) -> bool {
        self.phase == HandshakePhase::Live || self.phase == HandshakePhase::Failed
    }

    /// A bound on the number of accesses that the handshake still needs,
    /// for a driver in step with a device.
    pub open spec fn spec_remaining(self) -> nat {
        match self.phase {
            HandshakePhase::Reset => 0x4_0010,
            HandshakePhase::Acknowledge => 0x4_000F,
            HandshakePhase::Driver => 0x4_000E,
            HandshakePhase::Features => 0x4_0007 + self.negotiation.spec_remaining(),
            HandshakePhase::FeaturesOk => 0x4_0006,
            HandshakePhase::Verify => 0x4_0005,
            HandshakePhase::Queues => 1 + self.queues.spec_remaining(),
            HandshakePhase::DriverOk => 1,
            HandshakePhase::Live => 0,
            HandshakePhase::Failed => 0,
        }
    }

    /// The device when feature negotiation begins: reset, noticed, and
    /// told of its driver.
    pub open spec fn spec_known(initial: NetDeviceState) -> NetDeviceState {
        NetDeviceState {
            device_status: VIRTIO_STATUS_ACKNOWLEDGE | VIRTIO_STATUS_DRIVER,
            ..initial.spec_reset()
        }
    }

    /// The device when the setup of the queues begins: with the required
    /// features accepted and the features-accepted bit set.
    pub open spec fn spec_settled(initial: NetDeviceState) -> NetDeviceState {
        NetDeviceState {
            device_status: VIRTIO_STATUS_ACKNOWLEDGE | VIRTIO_STATUS_DRIVER
                | VIRTIO_STATUS_FEATURES_OK,
            ..FeatureNegotiation::spec_outcome(Self::spec_known(initial))
        }
    }

    /// Whether the handshake with a device brings it to life: the device
    /// offers every required feature, keeps the features-accepted bit,
    /// and has two queues with at least one slot.
    pub open spec fn spec_succeeds(initial: NetDeviceState) -> bool {
        &&& spec_features_accepted(initial.device_features)
        &&& !initial.refuses_features
        &&& initial.queue_count >= 2
        &&& initial.queue_size > 0
    }

    /// The device once the handshake has ended, given what it was before.
    pub open spec fn spec_outcome(initial: NetDeviceState) -> NetDeviceState {
        if !spec_features_accepted(initial.device_features) || initial.refuses_features {
            FeatureNegotiation::spec_outcome(Self::spec_known(initial))
        } else if !Self::spec_succeeds(initial) {
            SetupState::spec_outcome(Self::spec_settled(initial), VIRTIO_NET_MTU)
        } else {
            NetDeviceState {
                device_status: VIRTIO_STATUS_ACKNOWLEDGE | VIRTIO_STATUS_DRIVER
                    | VIRTIO_STATUS_FEATURES_OK | VIRTIO_STATUS_DRIVER_OK,
                ..SetupState::spec_outcome(Self::spec_settled(initial), VIRTIO_NET_MTU)
            }
        }
    }

    /// What holds between the steps of a handshake with a device that was
    /// `initial` when it began.
    pub open spec fn inv(self, device: NetDeviceState, initial: NetDeviceState) -> bool {
        let accepted = spec_features_accepted(initial.device_features);
        let known = Self::spec_known(initial);
        let negotiated = FeatureNegotiation::spec_outcome(known);
        let settled = Self::spec_settled(initial);
        let fresh = self.negotiation == FeatureNegotiation::spec_start() && self.queues
            == SetupState::spec_start(VIRTIO_NET_MTU);
        &&& self.queues.mtu == VIRTIO_NET_MTU
        &&& match self.phase {
            HandshakePhase::Reset | HandshakePhase::Acknowledge | HandshakePhase::Driver => fresh,
            HandshakePhase::Features => self.queues == SetupState::spec_start(VIRTIO_NET_MTU),
            _ => true,
        }
        &&& match self.phase {
            HandshakePhase::Reset => device == initial,
            HandshakePhase::Acknowledge => device == initial.spec_reset(),
            HandshakePhase::Driver => device == (NetDeviceState {
                device_status: VIRTIO_STATUS_ACKNOWLEDGE,
                ..initial.spec_reset()
            }),
            HandshakePhase::Features => {
                &&& self.negotiation.inv(device, known)
                &&& !self.negotiation.spec_ended()
            },
            HandshakePhase::FeaturesOk => {
                &&& device == negotiated
                &&& accepted
                &&& self.queues == SetupState::spec_start(VIRTIO_NET_MTU)
            },
            HandshakePhase::Verify => {
                &&& accepted
                &&& device == if initial.refuses_features {
                    negotiated
                } else {
                    settled
                }
                &&& self.queues == SetupState::spec_start(VIRTIO_NET_MTU)
            },
            HandshakePhase::Queues => {
                &&& accepted
                &&& !initial.refuses_features
                &&& self.queues.inv(device, settled)
                &&& !self.queues.spec_ended()
            },
            HandshakePhase::DriverOk => {
                &&& Self::spec_succeeds(initial)
                &&& device == SetupState::spec_outcome(settled, VIRTIO_NET_MTU)
                &&& self.queues.phase == SetupPhase::Ready
                &&& self.queues.rx_buffers == SetupState::spec_all_rx_buffers(settled)
                &&& self.queues.tx_buffers == SetupState::spec_all_tx_buffers(
                    settled,
                    VIRTIO_NET_MTU,
                )
            },
            HandshakePhase::Live => {
                &&& Self::spec_succeeds(initial)
                &&& device == Self::spec_outcome(initial)
                &&& self.queues.phase == SetupPhase::Ready
                &&& self.queues.rx_buffers == SetupState::spec_all_rx_buffers(settled)
                &&& self.queues.tx_buffers == SetupState::spec_all_tx_buffers(
                    settled,
                    VIRTIO_NET_MTU,
                )
            },
            HandshakePhase::Failed => {
                &&& !Self::spec_succeeds(initial)
                &&& device == Self::spec_outcome(initial)
                &&& self.queues.rx_buffers.len() == 0
                &&& self.queues.tx_buffers.len() == 0
            },
        }
    }

    /// The status bits combine as their values say.
    pub proof fn lemma_status_bits()
        ensures
            0u8 | VIRTIO_STATUS_ACKNOWLEDGE == 1,
            1u8 | VIRTIO_STATUS_DRIVER == 3,
            VIRTIO_STATUS_ACKNOWLEDGE | VIRTIO_STATUS_DRIVER == 3,
            3u8 | VIRTIO_STATUS_FEATURES_OK == 11,
            VIRTIO_STATUS_ACKNOWLEDGE | VIRTIO_STATUS_DRIVER | VIRTIO_STATUS_FEATURES_OK == 11,
            11u8 | VIRTIO_STATUS_DRIVER_OK == 15,
            VIRTIO_STATUS_ACKNOWLEDGE | VIRTIO_STATUS_DRIVER | VIRTIO_STATUS_FEATURES_OK
                | VIRTIO_STATUS_DRIVER_OK == 15,
            1u8 & !VIRTIO_STATUS_FEATURES_OK == 1,
            3u8 & !VIRTIO_STATUS_FEATURES_OK == 3,
            11u8 & !VIRTIO_STATUS_FEATURES_OK == 3,
            3u8 & VIRTIO_STATUS_FEATURES_OK == 0,
            11u8 & VIRTIO_STATUS_FEATURES_OK == 8,
            15u8 & VIRTIO_STATUS_FEATURES_OK == 8,
            (3u8 as u64) & (VIRTIO_STATUS_FEATURES_OK as u64) == 0,
            (11u8 as u64) & (VIRTIO_STATUS_FEATURES_OK as u64) == 8,
    {
        assert(0u8 | 1u8 == 1 && 1u8 | 2u8 == 3 && 3u8 | 8u8 == 11 && 11u8 | 4u8 == 15 && 1u8
            & !8u8 == 1 && 3u8 & !8u8 == 3 && 11u8 & !8u8 == 3 && 3u8 & 8u8 == 0 && 11u8 & 8u8 == 8
            && 15u8 & 8u8 == 8 && (3u8 as u64) & (8u8 as u64) == 0 && (11u8 as u64) & (8u8 as u64)
            == 8) by (bit_vector);
        assert(1u8 | 2u8 | 8u8 == 11 && 1u8 | 2u8 | 8u8 | 4u8 == 15) by (bit_vector);
    }

    /// A device that offers every required feature agrees to them: the
    /// driver accepts nothing that the device does not offer.
    pub proof fn lemma_accepted_subset(device_features: u64)
        requires
            spec_features_accepted(device_features),
        ensures
            (0u64 | ((spec_required_features() & 0xFFFF_FFFF) as u32 as u64)) & !device_features
                == 0,
    {
        crate::features::lemma_required_features();
        assert((0u64 | ((0x0001_05A2u64 & 0xFFFF_FFFF) as u32 as u64)) & !device_features == 0)
            by (bit_vector)
            requires
                device_features & 0x0001_05A2u64 == 0x0001_05A2u64,
        ;
    }

    /// A driver that has done nothing is in step with any device.
    pub proof fn lemma_start(
        device: NetDeviceState,
        device_cfg: virtio_net_config,
        regions: VirtioRegions,
    )
        ensures
            DriverState::spec_start(device_cfg, regions).inv(device, device),
    {
    }

    /// Performing the pending access on the modelled device and advancing
    /// the handshake with the answer keeps the two in step, and brings the
    /// handshake nearer to its end.
    pub proof fn lemma_step(self, device: NetDeviceState, initial: NetDeviceState)
        requires
            self.inv(device, initial),
            !self.spec_ended(),
        ensures
            ({
                let access = self.spec_pending().unwrap();
                let next = self.spec_next(device.spec_reply(access));
                &&& self.spec_pending() is Some
                &&& next.inv(device.spec_after(access), initial)
                &&& next.spec_remaining() < self.spec_remaining()
                &&& next.device_cfg == self.device_cfg
                &&& next.regions == self.regions
            }),
    {
        Self::lemma_status_bits();
        let known = Self::spec_known(initial);
        let settled = Self::spec_settled(initial);
        match self.phase {
            HandshakePhase::Features => {
                self.negotiation.lemma_step(device, known);
                let access = self.spec_pending().unwrap();
                let next = self.negotiation.spec_next(device.spec_reply(access));
                if next.spec_ended() {
                    next.lemma_ended(device.spec_after(access), known);
                }
            },
            HandshakePhase::FeaturesOk => {
                Self::lemma_accepted_subset(initial.device_features);
            },
            HandshakePhase::Queues => {
                self.queues.lemma_step(device, settled);
                let access = self.spec_pending().unwrap();
                let next = self.queues.spec_next(device.spec_reply(access));
                if next.spec_ended() {
                    next.lemma_ended(device.spec_after(access), settled);
                }
            },
            HandshakePhase::DriverOk => {
                Self::lemma_accepted_subset(initial.device_features);
            },
            _ => {},
        }
    }
}

/// The driver of a virtio network device. Its handshake performs no
/// access itself: `pending` names the access it needs, and `advance` takes
/// it on once that access is done. Once the device is live the driver
/// keeps the books on its buffers.
#[derive(Debug)]
pub struct VirtioNetDriver {
    pub phase: HandshakePhase,
    pub negotiation: FeatureNegotiation,
    pub queues: QueueSetup,
    /// The device's configuration as it was read when the driver was made.
    pub device_cfg: virtio_net_config,
    /// Where the device's register blocks lie in virtual memory.
    pub regions: VirtioRegions,
}

impl View for VirtioNetDriver {
    type V = DriverState;

    open spec fn view(&self) -> DriverState {
        DriverState {
            phase: self.phase,
            negotiation: self.negotiation,
            queues: self.queues@,
            device_cfg: self.device_cfg,
            regions: self.regions,
        }
    }
}

impl VirtioNetDriver {
    /// A driver for a device with the configuration `device_cfg`, whose
    /// register blocks lie at `regions`, before its handshake.
    pub fn new(device_cfg: virtio_net_config, regions: VirtioRegions) -> (driver: VirtioNetDriver)
        ensures
            driver@ == DriverState::spec_start(device_cfg, regions),
    {
        VirtioNetDriver {
            phase: HandshakePhase::Reset,
            negotiation: FeatureNegotiation::new(),
            queues: QueueSetup::new(VIRTIO_NET_MTU),
            device_cfg,
            regions,
        }
    }

    /// Whether the device reported its link as up when the driver was
    /// made.
    pub fn link_is_up(&self) -> (up: bool)
        ensures
            up == (self.device_cfg.status & VIRTIO_NET_S_LINK_UP == VIRTIO_NET_S_LINK_UP),
    {
        self.device_cfg.status & VIRTIO_NET_S_LINK_UP == VIRTIO_NET_S_LINK_UP
    }

    /// The access to perform next, or `None` when the handshake has ended.
    pub fn pending(&self) -> (access: Option<NetAccess>)
        ensures
            access == self@.spec_pending(),
    {
        match self.phase {
            HandshakePhase::Reset => Some(NetAccess::WriteStatus { status: 0 }),
            HandshakePhase::Acknowledge => Some(
                NetAccess::SetStatus { bits: VIRTIO_STATUS_ACKNOWLEDGE },
            ),
            HandshakePhase::Driver => Some(NetAccess::SetStatus { bits: VIRTIO_STATUS_DRIVER }),
            HandshakePhase::Features => self.negotiation.pending(),
            HandshakePhase::FeaturesOk => Some(
                NetAccess::SetStatus { bits: VIRTIO_STATUS_FEATURES_OK },
            ),
            HandshakePhase::Verify => Some(NetAccess::ReadStatus),
            HandshakePhase::Queues => self.queues.pending(),
            HandshakePhase::DriverOk => Some(NetAccess::SetStatus { bits: VIRTIO_STATUS_DRIVER_OK }),
            HandshakePhase::Live => None,
            HandshakePhase::Failed => None,
        }
    }

    /// Takes the handshake on after the pending access was performed.
    /// `reply` is the answer; where the access has none it is ignored.
    pub fn advance(&mut self, reply: u64)
        ensures
            final(self)@ == old(self)@.spec_next(reply),
    {
        match self.phase {
            HandshakePhase::Reset => {
                self.phase = HandshakePhase::Acknowledge;
            },
            HandshakePhase::Acknowledge => {
                self.phase = HandshakePhase::Driver;
            },
            HandshakePhase::Driver => {
                self.phase = HandshakePhase::Features;
            },
            HandshakePhase::Features => {
                self.negotiation.advance(reply);
                if self.negotiation.is_accepted() {
                    self.phase = HandshakePhase::FeaturesOk;
                } else if self.negotiation.has_ended() {
                    self.phase = HandshakePhase::Failed;
                }
            },
            HandshakePhase::FeaturesOk => {
                self.phase = HandshakePhase::Verify;
            },
            HandshakePhase::Verify => {
                if reply & (VIRTIO_STATUS_FEATURES_OK as u64) == 0 {
                    self.phase = HandshakePhase::Failed;
                } else {
                    self.phase = HandshakePhase::Queues;
                }
            },
            HandshakePhase::Queues => {
                self.queues.advance(reply);
                if self.queues.is_ready() {
                    self.phase = HandshakePhase::DriverOk;
                } else if self.queues.has_ended() {
                    self.phase = HandshakePhase::Failed;
                }
            },
            HandshakePhase::DriverOk => {
                self.phase = HandshakePhase::Live;
            },
            HandshakePhase::Live => {},
            HandshakePhase::Failed => {},
        }
    }

    /// Whether the handshake has ended, one way or the other.
    pub fn has_ended(&self) -> (ended: bool)
        ensures
            ended == self@.spec_ended(),
    {
        self.phase == HandshakePhase::Live || self.phase == HandshakePhase::Failed
    }

    /// Whether the device is live.
    pub fn is_live(&self) -> (live: bool)
        ensures
            live == (self.phase == HandshakePhase::Live),
    {
        self.phase == HandshakePhase::Live
    }

    /// The transmit buffers.
    pub open spec fn spec_tx_buffers(&self) -> Seq<TxBuffer> {
        self.queues.tx_buffers@
    }

    /// The receive buffers.
    pub open spec fn spec_rx_buffers(&self) -> Seq<RxBuffer> {
        self.queues.rx_buffers@
    }

    /// Performs the handshake with the modelled device, from its reset to
    /// the point where it is live. The handshake succeeds if and only if
    /// the device offers every required feature, keeps the
    /// features-accepted bit, and has its two queues. Where the device
    /// lacks a required feature, that bit is never set.
    pub fn init(&mut self, device: &mut VirtioNetDevice)
        requires
            old(device)@.wf(),
        ensures
            final(self)@.spec_ended(),
            (final(self).phase == HandshakePhase::Live) == DriverState::spec_succeeds(
                old(device)@,
            ),
            final(device)@ == DriverState::spec_outcome(old(device)@),
            !spec_features_accepted(old(device)@.device_features) ==> final(device)@.device_status & VIRTIO_STATUS_FEATURES_OK == 0,
            final(self).phase == HandshakePhase::Live ==> {
                &&& final(self).spec_rx_buffers() == SetupState::spec_all_rx_buffers(
                    DriverState::spec_settled(old(device)@),
                )
                &&& final(self).spec_tx_buffers() == SetupState::spec_all_tx_buffers(
                    DriverState::spec_settled(old(device)@),
                    VIRTIO_NET_MTU,
                )
                &&& final(device)@.device_status == 15
            },
            final(self).phase == HandshakePhase::Failed ==> final(self).spec_rx_buffers().len()
                == 0 && final(self).spec_tx_buffers().len() == 0,
            final(self).device_cfg == old(self).device_cfg,
            final(self).regions == old(self).regions,
            final(device)@.wf(),
    {
        let ghost initial = device@;
        self.phase = HandshakePhase::Reset;
        self.negotiation = FeatureNegotiation::new();
        self.queues = QueueSetup::new(VIRTIO_NET_MTU);
        proof {
            DriverState::lemma_start(initial, self.device_cfg, self.regions);
        }
        while !self.has_ended()
            invariant
                self@.inv(device@, initial),
                self.device_cfg == old(self).device_cfg,
                self.regions == old(self).regions,
                device@.wf(),
            decreases self@.spec_remaining(),
        {
            proof {
                self@.lemma_step(device@, initial);
            }
            let access: NetAccess = self.pending().unwrap();
            let reply: u64 = device.access(access);
            self.advance(reply);
        }
        proof {
            DriverState::lemma_status_bits();
        }
    }

    /// Negotiates features with the modelled device. The device is
    /// accepted if and only if it offers every required feature; only then
    /// are the required features set among the driver's.
    pub fn negotiate_features(&mut self, device: &mut VirtioNetDevice)
        requires
            old(device)@.wf(),
        ensures
            (final(self).negotiation.phase == NegotiationPhase::Accepted)
                == spec_features_accepted(old(device)@.device_features),
            final(self).negotiation.spec_ended(),
            final(self).negotiation.spec_device_features() == old(device)@.device_features,
            final(device)@ == FeatureNegotiation::spec_outcome(old(device)@),
            final(self).phase == old(self).phase,
            final(self).queues == old(self).queues,
            final(self).device_cfg == old(self).device_cfg,
            final(self).regions == old(self).regions,
            final(device)@.wf(),
    {
        self.negotiation = negotiate(device);
    }

    /// Sets up the two queues of the modelled device: the receive queue
    /// with one buffer of 65562 bytes for each slot, which the device
    /// writes, and the transmit queue with one buffer of the largest
    /// payload and its header for each slot, which the device reads.
    pub fn init_vqs(&mut self, device: &mut VirtioNetDevice)
        requires
            old(device)@.wf(),
        ensures
            final(self).queues@.spec_ended(),
            (final(self).queues.phase == SetupPhase::Ready) == SetupState::spec_succeeds(
                old(device)@,
            ),
            final(device)@ == SetupState::spec_outcome(old(device)@, old(self).get_mtu_spec()),
            final(self).queues.phase == SetupPhase::Ready ==> final(self).spec_rx_buffers()
                == SetupState::spec_all_rx_buffers(old(device)@) && final(self).spec_tx_buffers()
                == SetupState::spec_all_tx_buffers(old(device)@, old(self).get_mtu_spec()),
            final(self).queues.phase == SetupPhase::Failed ==> final(self).spec_rx_buffers().len() == 0 && final(self).spec_tx_buffers().len() == 0,
            final(self).phase == old(self).phase,
            final(self).negotiation == old(self).negotiation,
            final(self).device_cfg == old(self).device_cfg,
            final(self).regions == old(self).regions,
            final(device)@.wf(),
    {
        let mtu: u16 = self.get_mtu();
        self.queues = setup_queues(device, mtu);
    }

    /// The largest payload of a packet.
    pub open spec fn get_mtu_spec(&self) -> u16 {
        VIRTIO_NET_MTU
    }

    /// The largest payload of a packet: 1500 bytes, whatever the device
    /// announces.
    pub fn get_mtu(&self) -> (mtu: u16)
        ensures
            mtu == self.get_mtu_spec(),
            mtu == 1500,
    {
        VIRTIO_NET_MTU
    }

    /// The MAC address of the device.
    pub fn get_mac_address(&self) -> (mac: [u8; 6])
        ensures
            mac == self.device_cfg.mac,
    {
        self.device_cfg.mac
    }

    /// Whether one of the transmit buffers is free.
    pub fn has_free_tx_buffer(&self) -> (free: bool)
        ensures
            free == spec_has_free(self.spec_tx_buffers()),
    {
        let mut i: usize = 0;
        while i < self.queues.tx_buffers.len()
            invariant
                i <= self.queues.tx_buffers.len(),
                forall|k: int| 0 <= k < i ==> (#[trigger] self.queues.tx_buffers@[k]).in_use,
            decreases self.queues.tx_buffers.len() - i,
        {
            if !self.queues.tx_buffers[i].in_use {
                return true;
            }
            i = i + 1;
        }
        false
    }

    /// Frees the transmit buffers in the slots `completed`, which the
    /// device is done with, and orders what follows behind the device's
    /// completions.
    pub fn reclaim(&mut self, completed: &Vec<u32>)
        ensures
            final(self).spec_tx_buffers() == spec_reclaim(old(self).spec_tx_buffers(), completed@),
            final(self)@ == (DriverState {
                queues: SetupState {
                    tx_buffers: final(self).spec_tx_buffers(),
                    ..old(self)@.queues
                },
                ..old(self)@
            }),
    {
        let mut i: usize = 0;
        proof {
            assert(completed@.subrange(0, completed@.len() as int) =~= completed@);
        }
        while i < completed.len()
            invariant
                i <= completed.len(),
                spec_reclaim(
                    self.spec_tx_buffers(),
                    completed@.subrange(i as int, completed@.len() as int),
                ) == spec_reclaim(old(self).spec_tx_buffers(), completed@),
                self@ == (DriverState {
                    queues: SetupState { tx_buffers: self.spec_tx_buffers(), ..old(self)@.queues },
                    ..old(self)@
                }),
            decreases completed.len() - i,
        {
            let index: usize = completed[i] as usize;
            let ghost rest = completed@.subrange(i as int, completed@.len() as int);
            proof {
                assert(rest[0] == completed@[i as int]);
                assert(rest.subrange(1, rest.len() as int) =~= completed@.subrange(
                    i + 1,
                    completed@.len() as int,
                ));
            }
            if index < self.queues.tx_buffers.len() {
                let mut buffer: TxBuffer = self.queues.tx_buffers[index];
                buffer.in_use = false;
                self.queues.tx_buffers.set(index, buffer);
            }
            i = i + 1;
        }
        memory_fence();
    }

    /// Hands out the transmit buffer in slot `index` for a packet of `len`
    /// bytes: marks it in use and returns the address of its payload,
    /// behind the header, with the slot. Fails, and changes nothing, where
    /// there is no such buffer or it is in use already.
    pub fn claim_tx_buffer(&mut self, index: u32, len: usize) -> (granted: Result<(u64, usize), ()>)
        ensures
            match granted {
                Ok((payload, slot)) => {
                    &&& slot == index
                    &&& spec_claim(old(self).spec_tx_buffers(), index as int) == Some(
                        final(self).spec_tx_buffers(),
                    )
                    &&& payload == old(self).spec_tx_buffers()[index as int].addr
                        + VIRTIO_NET_HDR_SIZE
                },
                Err(_) => {
                    &&& final(self).spec_tx_buffers() == old(self).spec_tx_buffers()
                    &&& {
                        ||| spec_claim(old(self).spec_tx_buffers(), index as int) is None
                        ||| old(self).spec_tx_buffers()[index as int].addr + VIRTIO_NET_HDR_SIZE
                            > u64::MAX
                    }
                },
            },
            final(self)@ == (DriverState {
                queues: SetupState {
                    tx_buffers: final(self).spec_tx_buffers(),
                    ..old(self)@.queues
                },
                ..old(self)@
            }),
    {
        let slot: usize = index as usize;
        if slot >= self.queues.tx_buffers.len() {
            return Err(());
        }
        let mut buffer: TxBuffer = self.queues.tx_buffers[slot];
        if buffer.in_use || buffer.addr > u64::MAX - VIRTIO_NET_HDR_SIZE as u64 {
            return Err(());
        }
        buffer.in_use = true;
        self.queues.tx_buffers.set(slot, buffer);
        Ok((buffer.addr + VIRTIO_NET_HDR_SIZE as u64, slot))
    }

    /// The header to place at the start of a transmit buffer that was
    /// handed out for a packet of `len` bytes: it asks for no offload.
    pub fn tx_header(len: usize) -> (header: virtio_net_hdr)
        ensures
            header == virtio_net_hdr::spec_plain(),
    {
        let mut header = virtio_net_hdr::new();
        header.init(len);
        header
    }

    /// The number of bytes to submit for a packet of `len` bytes: the
    /// packet and its header. `None` where no length can say it.
    pub fn tx_length(len: usize) -> (length: Option<usize>)
        ensures
            match length {
                Some(length) => length == len + VIRTIO_NET_HDR_SIZE,
                None => len + VIRTIO_NET_HDR_SIZE > usize::MAX,
            },
    {
        if len > usize::MAX - VIRTIO_NET_HDR_SIZE {
            None
        } else {
            Some(len + VIRTIO_NET_HDR_SIZE)
        }
    }

    /// Where the packet lies that the device has written to the receive
    /// buffer in slot `index` with `len` bytes: behind the header, with
    /// that length. Fails where there is no such buffer.
    pub fn rx_payload(&self, index: u32, len: u32) -> (packet: Result<(u64, usize), ()>)
        ensures
            match packet {
                Ok((payload, length)) => {
                    &&& index < self.spec_rx_buffers().len()
                    &&& payload == self.spec_rx_buffers()[index as int].addr + VIRTIO_NET_HDR_SIZE
                    &&& length == len
                },
                Err(_) => index >= self.spec_rx_buffers().len() || self.spec_rx_buffers()[index as int].addr
                    + VIRTIO_NET_HDR_SIZE > u64::MAX,
            },
    {
        let slot: usize = index as usize;
        if slot >= self.queues.rx_buffers.len() {
            return Err(());
        }
        let buffer: RxBuffer = self.queues.rx_buffers[slot];
        if buffer.addr > u64::MAX - VIRTIO_NET_HDR_SIZE as u64 {
            return Err(());
        }
        Ok((buffer.addr + VIRTIO_NET_HDR_SIZE as u64, len as usize))
    }

    /// Whether an interrupt status says that the queues were updated: its
    /// bit 0 does.
    pub fn queues_updated(isr_status: u32) -> (updated: bool)
        ensures
            updated == (isr_status & 1 == 1),
    {
        isr_status & 1 == 1
    }

    /// Takes from the transmit queue of the modelled device every buffer
    /// that the device is done with, and frees each of them.
    pub fn check_used_elements(&mut self, device: &mut VirtioNetDevice)
        requires
            old(device)@.wf(),
            old(device)@.queues.len() > VIRTIO_NET_TX_QUEUE,
        ensures
            final(self).spec_tx_buffers() == spec_reclaim(
                old(self).spec_tx_buffers(),
                spec_used_ids(old(device)@.queues[VIRTIO_NET_TX_QUEUE as int].used),
            ),
            final(self)@ == (DriverState {
                queues: SetupState {
                    tx_buffers: final(self).spec_tx_buffers(),
                    ..old(self)@.queues
                },
                ..old(self)@
            }),
            final(device)@ == old(device)@.spec_with_queue(
                VIRTIO_NET_TX_QUEUE as int,
                VirtqState {
                    used: Seq::empty(),
                    ..old(device)@.queues[VIRTIO_NET_TX_QUEUE as int]
                },
            ),
            final(device)@.wf(),
    {
        let ghost before = device@;
        let ghost queue = before.queues[VIRTIO_NET_TX_QUEUE as int];
        let ghost ids = spec_used_ids(queue.used);
        let mut completed: Vec<u32> = Vec::new();
        proof {
            assert(device@.queues =~= before.queues.update(VIRTIO_NET_TX_QUEUE as int, queue));
            assert(completed@ + ids =~= ids);
        }
        loop
            invariant
                device@.wf(),
                before.queues.len() > VIRTIO_NET_TX_QUEUE,
                queue == before.queues[VIRTIO_NET_TX_QUEUE as int],
                ids == spec_used_ids(queue.used),
                device@ == before.spec_with_queue(
                    VIRTIO_NET_TX_QUEUE as int,
                    VirtqState {
                        used: device@.queues[VIRTIO_NET_TX_QUEUE as int].used,
                        ..queue
                    },
                ),
                completed@ + spec_used_ids(device@.queues[VIRTIO_NET_TX_QUEUE as int].used) == ids,
            ensures
                device@.queues[VIRTIO_NET_TX_QUEUE as int].used.len() == 0,
            decreases device@.queues[VIRTIO_NET_TX_QUEUE as int].used.len(),
        {
            let ghost waiting = device@.queues[VIRTIO_NET_TX_QUEUE as int].used;
            match device.check_used_elements(VIRTIO_NET_TX_QUEUE) {
                Some(index) => {
                    let ghost earlier = completed@;
                    completed.push(index);
                    proof {
                        let left = device@.queues[VIRTIO_NET_TX_QUEUE as int].used;
                        assert(left == waiting.subrange(1, waiting.len() as int));
                        assert(earlier.push(index) + spec_used_ids(left) =~= earlier
                            + spec_used_ids(waiting));
                        assert(device@.queues =~= before.queues.update(
                            VIRTIO_NET_TX_QUEUE as int,
                            VirtqState { used: left, ..queue },
                        ));
                    }
                },
                None => {
                    break ;
                },
            }
        }
        proof {
            assert(device@.queues[VIRTIO_NET_TX_QUEUE as int].used =~= Seq::empty());
            assert(completed@ + Seq::<u32>::empty() =~= completed@);
            assert(spec_used_ids(Seq::<UsedElement>::empty()) =~= Seq::<u32>::empty());
        }
        self.reclaim(&completed);
    }

    /// Hands out a transmit buffer for a packet of `len` bytes on the
    /// modelled device. Where no buffer is known to be free, those that
    /// the device is done with are reclaimed first. The buffer is the one
    /// in the slot that the transmit queue uses next; it is marked in use,
    /// a header that asks for no offload is written to its start, and the
    /// address of its payload is returned with the slot. Fails where that
    /// buffer is in use.
    pub fn get_tx_buffer(&mut self, device: &mut VirtioNetDevice, len: usize) -> (granted: Result<
        (u64, usize),
        (),
    >)
        requires
            old(device)@.wf(),
            old(device)@.queues.len() > VIRTIO_NET_TX_QUEUE,
        ensures
            ({
                let queue = old(device)@.queues[VIRTIO_NET_TX_QUEUE as int];
                let reclaims = !spec_has_free(old(self).spec_tx_buffers());
                let buffers = if reclaims {
                    spec_reclaim(old(self).spec_tx_buffers(), spec_used_ids(queue.used))
                } else {
                    old(self).spec_tx_buffers()
                };
                let reclaimed = if reclaims {
                    old(device)@.spec_with_queue(
                        VIRTIO_NET_TX_QUEUE as int,
                        VirtqState { used: Seq::empty(), ..queue },
                    )
                } else {
                    old(device)@
                };
                match granted {
                    Ok((payload, slot)) => {
                        &&& queue.spec_available() == Some(slot as u32)
                        &&& spec_claim(buffers, slot as int) == Some(final(self).spec_tx_buffers())
                        &&& payload == buffers[slot as int].addr + VIRTIO_NET_HDR_SIZE
                        &&& final(device)@ == (NetDeviceState {
                            headers: reclaimed.headers.insert(
                                buffers[slot as int].addr,
                                virtio_net_hdr::spec_plain(),
                            ),
                            ..reclaimed
                        })
                    },
                    Err(_) => {
                        &&& final(self).spec_tx_buffers() == buffers
                        &&& final(device)@ == reclaimed
                        &&& match queue.spec_available() {
                            Some(slot) => spec_claim(buffers, slot as int) is None
                                || buffers[slot as int].addr + VIRTIO_NET_HDR_SIZE > u64::MAX,
                            None => true,
                        }
                    },
                }
            }),
            final(self)@ == (DriverState {
                queues: SetupState {
                    tx_buffers: final(self).spec_tx_buffers(),
                    ..old(self)@.queues
                },
                ..old(self)@
            }),
            final(device)@.wf(),
    {
        if !self.has_free_tx_buffer() {
            self.check_used_elements(device);
        }
        assert(device@.queues[VIRTIO_NET_TX_QUEUE as int].wf());
        let index: u32 = match device.queues[VIRTIO_NET_TX_QUEUE as usize].get_available_buffer() {
            Ok(index) => index,
            Err(_) => {
                return Err(());
            },
        };
        match self.claim_tx_buffer(index, len) {
            Ok((payload, slot)) => {
                device.write_header(payload - VIRTIO_NET_HDR_SIZE as u64, Self::tx_header(len));
                Ok((payload, slot))
            },
            Err(_) => Err(()),
        }
    }

    /// Submits the packet of `len` bytes in the transmit buffer in slot
    /// `index` to the modelled device, without waiting for it. Fails where
    /// the slot holds no buffer, the device holds the buffer already, or
    /// no length can say the packet and its header.
    pub fn send_tx_buffer(&mut self, device: &mut VirtioNetDevice, index: usize, len: usize) -> (sent:
        Result<(), ()>)
        requires
            old(device)@.wf(),
            old(device)@.queues.len() > VIRTIO_NET_TX_QUEUE,
        ensures
            ({
                let queue = old(device)@.queues[VIRTIO_NET_TX_QUEUE as int];
                let possible = queue.spec_can_send(index) && len + VIRTIO_NET_HDR_SIZE
                    <= usize::MAX;
                &&& sent is Ok <==> possible
                &&& final(device)@ == if possible {
                    old(device)@.spec_with_queue(
                        VIRTIO_NET_TX_QUEUE as int,
                        queue.spec_send(index),
                    )
                } else {
                    old(device)@
                }
            }),
            *final(self) == *old(self),
            final(device)@.wf(),
    {
        match Self::tx_length(len) {
            Some(length) => device.send_non_blocking(VIRTIO_NET_TX_QUEUE, index, length),
            None => Err(()),
        }
    }

    /// Whether a packet that the modelled device has received waits.
    pub fn has_packet(&self, device: &VirtioNetDevice) -> (waiting: bool)
        requires
            device@.queues.len() > VIRTIO_NET_RX_QUEUE,
        ensures
            waiting == (device@.queues[VIRTIO_NET_RX_QUEUE as int].used.len() > 0),
    {
        device.queues[VIRTIO_NET_RX_QUEUE as usize].has_packet()
    }

    /// Where the oldest packet lies that the modelled device has received:
    /// the address of its payload, behind the header, and its length. The
    /// packet goes on waiting until `rx_buffer_consumed`. Fails where none
    /// waits.
    pub fn receive_rx_buffer(&self, device: &VirtioNetDevice) -> (packet: Result<(u64, usize), ()>)
        requires
            device@.queues.len() > VIRTIO_NET_RX_QUEUE,
        ensures
            ({
                let used = device@.queues[VIRTIO_NET_RX_QUEUE as int].used;
                match packet {
                    Ok((payload, length)) => {
                        &&& used.len() > 0
                        &&& used[0].id < self.spec_rx_buffers().len()
                        &&& payload == self.spec_rx_buffers()[used[0].id as int].addr
                            + VIRTIO_NET_HDR_SIZE
                        &&& length == used[0].len
                    },
                    Err(_) => used.len() == 0 || used[0].id >= self.spec_rx_buffers().len()
                        || self.spec_rx_buffers()[used[0].id as int].addr + VIRTIO_NET_HDR_SIZE
                        > u64::MAX,
                }
            }),
    {
        match device.queues[VIRTIO_NET_RX_QUEUE as usize].get_used_buffer() {
            Ok((index, len)) => self.rx_payload(index, len),
            Err(_) => Err(()),
        }
    }

    /// Gives the buffer of the oldest packet received back to the
    /// modelled device.
    pub fn rx_buffer_consumed(&mut self, device: &mut VirtioNetDevice)
        requires
            old(device)@.wf(),
            old(device)@.queues.len() > VIRTIO_NET_RX_QUEUE,
        ensures
            final(device)@ == old(device)@.spec_with_queue(
                VIRTIO_NET_RX_QUEUE as int,
                old(device)@.queues[VIRTIO_NET_RX_QUEUE as int].spec_buffer_consumed(),
            ),
            *final(self) == *old(self),
            final(device)@.wf(),
    {
        device.buffer_consumed(VIRTIO_NET_RX_QUEUE);
    }

    /// Sets whether the modelled device is to refrain from interrupts for
    /// received packets.
    pub fn set_polling_mode(&mut self, device: &mut VirtioNetDevice, value: bool)
        requires
            old(device)@.wf(),
            old(device)@.queues.len() > VIRTIO_NET_RX_QUEUE,
        ensures
            final(device)@ == old(device)@.spec_with_queue(
                VIRTIO_NET_RX_QUEUE as int,
                VirtqState { polling: value, ..old(device)@.queues[VIRTIO_NET_RX_QUEUE as int] },
            ),
            *final(self) == *old(self),
            final(device)@.wf(),
    {
        device.set_polling_mode(VIRTIO_NET_RX_QUEUE, value);
    }

    /// Reads the interrupt status of the modelled device, which clears it,
    /// and returns whether the queues were updated.
    pub fn handle_interrupt(&mut self, device: &mut VirtioNetDevice) -> (updated: bool)
        ensures
            updated == (old(device)@.isr_status & 1 == 1),
            final(device)@ == (NetDeviceState { isr_status: 0, ..old(device)@ }),
            *final(self) == *old(self),
    {
        let isr_status: u32 = device.read_isr();
        Self::queues_updated(isr_status)
    }
}

/// The register blocks of the virtio device behind an adapter on given
/// registers, or why they cannot be had.
pub open spec fn spec_regions(
    registers: Map<u32, crate::config::ConfigRegister>,
    adapter: crate::adapter::AdapterRecord,
) -> Result<VirtioRegions, crate::error::PciError> {
    match spec_locate(registers, adapter.bus, adapter.device, adapter.device_id) {
        Ok(capabilities) => spec_map_capabilities(
            adapter.base_addresses,
            capabilities,
            adapter.device_id,
        ),
        Err(error) => Err(error),
    }
}

/// Makes the driver of the virtio network device behind an adapter of the
/// modelled configuration space: finds the device's four capabilities,
/// decides where they come to lie, and performs the handshake with the
/// modelled device. Returns the driver if and only if all of that
/// succeeds. A device whose capabilities cannot be had is not touched.
pub fn create_virtionet_driver(
    space: &ConfigSpace,
    adapter: &PciAdapter,
    device: &mut VirtioNetDevice,
) -> (driver: Option<VirtioNetDriver>)
    requires
        old(device)@.wf(),
    ensures
        driver is Some <==> spec_regions(space@, adapter@) is Ok && DriverState::spec_succeeds(
            old(device)@,
        ),
        final(device)@ == if spec_regions(space@, adapter@) is Ok {
            DriverState::spec_outcome(old(device)@)
        } else {
            old(device)@
        },
        match driver {
            Some(driver) => {
                &&& driver.phase == HandshakePhase::Live
                &&& Ok::<VirtioRegions, crate::error::PciError>(driver.regions) == spec_regions(
                    space@,
                    adapter@,
                )
                &&& driver.device_cfg == old(device)@.config
                &&& driver.spec_rx_buffers() == SetupState::spec_all_rx_buffers(
                    DriverState::spec_settled(old(device)@),
                )
                &&& driver.spec_tx_buffers() == SetupState::spec_all_tx_buffers(
                    DriverState::spec_settled(old(device)@),
                    VIRTIO_NET_MTU,
                )
            },
            None => true,
        },
        final(device)@.wf(),
{
    let capabilities = match locate_capabilities(
        space,
        adapter.bus,
        adapter.device,
        adapter.device_id,
    ) {
        Ok(capabilities) => capabilities,
        Err(_) => {
            return None;
        },
    };
    let regions = match map_capabilities(adapter, capabilities) {
        Ok(regions) => regions,
        Err(_) => {
            return None;
        },
    };
    let mut driver = VirtioNetDriver::new(device.config, regions);
    driver.init(device);
    if driver.is_live() {
        Some(driver)
    } else {
        None
    }
}

} // verus!
