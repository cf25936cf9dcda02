//! Feature negotiation: the features that the network driver cannot do
//! without, and the protocol that reads what the device offers and
//! accepts them.

use crate::net_device::{spec_feature_word, NetAccess, NetDeviceState, VirtioNetDevice};
use vstd::prelude::*;

verus! {

pub const VIRTIO_NET_F_CSUM: u64 = 0;

pub const VIRTIO_NET_F_GUEST_CSUM: u64 = 1;

pub const VIRTIO_NET_F_CTRL_GUEST_OFFLOADS: u64 = 2;

pub const VIRTIO_NET_F_MTU: u64 = 3;

pub const VIRTIO_NET_F_MAC: u64 = 5;

pub const VIRTIO_NET_F_GUEST_TSO4: u64 = 7;

pub const VIRTIO_NET_F_GUEST_TSO6: u64 = 8;

pub const VIRTIO_NET_F_GUEST_ECN: u64 = 9;

pub const VIRTIO_NET_F_GUEST_UFO: u64 = 10;

pub const VIRTIO_NET_F_HOST_TSO4: u64 = 11;

pub const VIRTIO_NET_F_HOST_TSO6: u64 = 12;

pub const VIRTIO_NET_F_HOST_ECN: u64 = 13;

pub const VIRTIO_NET_F_HOST_UFO: u64 = 14;

pub const VIRTIO_NET_F_MRG_RXBUF: u64 = 15;

pub const VIRTIO_NET_F_STATUS: u64 = 16;

pub const VIRTIO_NET_F_CTRL_VQ: u64 = 17;

pub const VIRTIO_NET_F_CTRL_RX: u64 = 18;

pub const VIRTIO_NET_F_CTRL_VLAN: u64 = 19;

pub const VIRTIO_NET_F_CTRL_RX_EXTRA: u64 = 20;

pub const VIRTIO_NET_F_GUEST_ANNOUNCE: u64 = 21;

pub const VIRTIO_NET_F_MQ: u64 = 22;

pub const VIRTIO_NET_F_CTRL_MAC_ADDR: u64 = 23;

pub const VIRTIO_NET_F_RSC_EXT: u64 = 61;

/// The link is up.
pub const VIRTIO_NET_S_LINK_UP: u16 = 1;

/// The device asks for an announcement.
pub const VIRTIO_NET_S_ANNOUNCE: u16 = 2;

/// The features that the driver requires of a device: a MAC address, the
/// link status, and the guest offloads for UFO, TSO4, TSO6 and checksums.
pub open spec fn spec_required_features() -> u64 {
    (1u64 << VIRTIO_NET_F_MAC) | (1u64 << VIRTIO_NET_F_STATUS) | (1u64 << VIRTIO_NET_F_GUEST_UFO)
        | (1u64 << VIRTIO_NET_F_GUEST_TSO4) | (1u64 << VIRTIO_NET_F_GUEST_TSO6) | (1u64
        << VIRTIO_NET_F_GUEST_CSUM)
}

/// The required features all lie in the low word of the mask.
pub proof fn lemma_required_features()
    ensures
        spec_required_features() == 0x0001_05A2,
{
    assert((1u64 << 5u64) | (1u64 << 16u64) | (1u64 << 10u64) | (1u64 << 7u64) | (1u64 << 8u64) | (
    1u64 << 1u64) == 0x0001_05A2u64) by (bit_vector);
}

/// The features that the driver requires of a device.
pub fn required_features() -> (required: u64)
    ensures
        required == spec_required_features(),
{
    proof {
        lemma_required_features();
    }
    0x0001_05A2
}

/// Whether a device that offers `device_features` is accepted: it is
/// where it offers every required feature.
pub open spec fn spec_features_accepted(device_features: u64) -> bool {
    device_features & spec_required_features() == spec_required_features()
}

/// Decides whether a device that offers `device_features` is accepted.
pub fn features_accepted(device_features: u64) -> (accepted: bool)
    ensures
        accepted == spec_features_accepted(device_features),
{
    let required: u64 = required_features();
    device_features & required == required
}

/// The mask that two feature words make up.
pub open spec fn spec_feature_mask(low: u32, high: u32) -> u64 {
    (low as u64) | ((high as u64) << 32)
}

/// The two words of a feature mask make the mask up again.
pub proof fn lemma_feature_words(features: u64)
    ensures
        spec_feature_mask(spec_feature_word(features, 0), spec_feature_word(features, 1))
            == features,
{
    assert((((features & 0xFFFF_FFFF) as u32) as u64) | ((((features >> 32) & 0xFFFF_FFFF) as u32)
        as u64) << 32 == features) by (bit_vector);
}

/// The low word of an answer.
pub fn low_word(reply: u64) -> (word: u32)
    ensures
        word == reply & 0xFFFF_FFFF,
{
    assert(reply & 0xFFFF_FFFF <= 0xFFFF_FFFF) by (bit_vector);
    (reply & 0xFFFF_FFFF) as u32
}

/// What feature negotiation waits to do next.
#[derive(Clone, Copy, Debug, PartialEq, Eq, Structural)]
pub enum NegotiationPhase {
    /// Choose the low word of the device's features.
    SelectLow,
    /// Read it.
    ReadLow,
    /// Choose the high word of the device's features.
    SelectHigh,
    /// Read it.
    ReadHigh,
    /// Choose the low word of the driver's features.
    SelectDriver,
    /// Set the required features in it.
    SetDriver,
    /// The device offers what is required, and the driver has accepted it.
    Accepted,
    /// The device lacks a required feature. Nothing was written.
    Rejected,
}

/// Feature negotiation with a device. It performs no access itself:
/// `pending` names the access it needs, and `advance` takes it on once
/// that access is done.
#[derive(Clone, Copy, Debug, PartialEq, Eq, Structural)]
pub struct FeatureNegotiation {
    pub phase: NegotiationPhase,
    pub low: u32,
    pub high: u32,
}

impl FeatureNegotiation {
    /// A negotiation that has read nothing yet.
    pub open spec fn spec_start() -> FeatureNegotiation {
        FeatureNegotiation { phase: NegotiationPhase::SelectLow, low: 0, high: 0 }
    }

    /// The features that the device was found to offer.
    pub open spec fn spec_device_features(self) -> u64 {
        spec_feature_mask(self.low, self.high)
    }

    /// The access that the negotiation needs next, or `None` when it has
    /// ended.
    pub open spec fn spec_pending(self) -> Option<NetAccess> {
        match self.phase {
            NegotiationPhase::SelectLow => Some(NetAccess::SelectDeviceFeatures { word: 0 }),
            NegotiationPhase::ReadLow => Some(NetAccess::ReadDeviceFeatures),
            NegotiationPhase::SelectHigh => Some(NetAccess::SelectDeviceFeatures { word: 1 }),
            NegotiationPhase::ReadHigh => Some(NetAccess::ReadDeviceFeatures),
            NegotiationPhase::SelectDriver => Some(NetAccess::SelectDriverFeatures { word: 0 }),
            NegotiationPhase::SetDriver => Some(
                NetAccess::SetDriverFeatures {
                    bits: (spec_required_features() & 0xFFFF_FFFF) as u32,
                },
            ),
            NegotiationPhase::Accepted => None,
            NegotiationPhase::Rejected => None,
        }
    }

    /// The negotiation after the pending access was performed and
    /// answered `reply`. Once both words are read, the device is accepted
    /// if and only if it offers every required feature.
    pub open spec fn spec_next(self, reply: u64) -> FeatureNegotiation {
        match self.phase {
            NegotiationPhase::SelectLow => FeatureNegotiation {
                phase: NegotiationPhase::ReadLow,
                ..self
            },
            NegotiationPhase::ReadLow => FeatureNegotiation {
                phase: NegotiationPhase::SelectHigh,
                low: (reply & 0xFFFF_FFFF) as u32,
                ..self
            },
            NegotiationPhase::SelectHigh => FeatureNegotiation {
                phase: NegotiationPhase::ReadHigh,
                ..self
            },
            NegotiationPhase::ReadHigh => {
                let high = (reply & 0xFFFF_FFFF) as u32;
                FeatureNegotiation {
                    phase: if spec_features_accepted(spec_feature_mask(self.low, high)) {
                        NegotiationPhase::SelectDriver
                    } else {
                        NegotiationPhase::Rejected
                    },
                    high,
                    ..self
                }
            },
            NegotiationPhase::SelectDriver => FeatureNegotiation {
                phase: NegotiationPhase::SetDriver,
                ..self
            },
            NegotiationPhase::SetDriver => FeatureNegotiation {
                phase: NegotiationPhase::Accepted,
                ..self
            },
            NegotiationPhase::Accepted => self,
            NegotiationPhase::Rejected => self,
        }
    }

    /// Whether the negotiation has ended.
    pub open spec fn spec_ended(self) -> bool {
        self.phase == NegotiationPhase::Accepted || self.phase == NegotiationPhase::Rejected
    }

    /// A bound on the number of accesses that the negotiation still needs.
    pub open spec fn spec_remaining(self) -> nat {
        match self.phase {
            NegotiationPhase::SelectLow => 6,
            NegotiationPhase::ReadLow => 5,
            NegotiationPhase::SelectHigh => 4,
            NegotiationPhase::ReadHigh => 3,
            NegotiationPhase::SelectDriver => 2,
            NegotiationPhase::SetDriver => 1,
            NegotiationPhase::Accepted => 0,
            NegotiationPhase::Rejected => 0,
        }
    }

    /// The device once the negotiation has ended, given what it was
    /// before: the required features are set among the driver's where the
    /// device was accepted, and nothing but the select registers has
    /// changed where it was not.
    pub open spec fn spec_outcome(initial: NetDeviceState) -> NetDeviceState {
        if spec_features_accepted(initial.device_features) {
            NetDeviceState {
                device_feature_select: 1,
                driver_feature_select: 0,
                driver_features: initial.driver_features | ((spec_required_features()
                    & 0xFFFF_FFFF) as u32 as u64),
                ..initial
            }
        } else {
            NetDeviceState { device_feature_select: 1, ..initial }
        }
    }

    /// What holds between the steps of a negotiation with a device that
    /// was `initial` when it began.
    pub open spec fn inv(self, device: NetDeviceState, initial: NetDeviceState) -> bool {
        let low = spec_feature_word(initial.device_features, 0);
        let high = spec_feature_word(initial.device_features, 1);
        let accepted = spec_features_accepted(initial.device_features);
        match self.phase {
            NegotiationPhase::SelectLow => device == initial,
            NegotiationPhase::ReadLow => device == (NetDeviceState {
                device_feature_select: 0,
                ..initial
            }),
            NegotiationPhase::SelectHigh => {
                &&& device == (NetDeviceState { device_feature_select: 0, ..initial })
                &&& self.low == low
            },
            NegotiationPhase::ReadHigh => {
                &&& device == (NetDeviceState { device_feature_select: 1, ..initial })
                &&& self.low == low
            },
            NegotiationPhase::SelectDriver => {
                &&& device == (NetDeviceState { device_feature_select: 1, ..initial })
                &&& self.low == low
                &&& self.high == high
                &&& accepted
            },
            NegotiationPhase::SetDriver => {
                &&& device == (NetDeviceState {
                    device_feature_select: 1,
                    driver_feature_select: 0,
                    ..initial
                })
                &&& self.low == low
                &&& self.high == high
                &&& accepted
            },
            NegotiationPhase::Accepted => {
                &&& device == Self::spec_outcome(initial)
                &&& self.low == low
                &&& self.high == high
                &&& accepted
            },
            NegotiationPhase::Rejected => {
                &&& device == Self::spec_outcome(initial)
                &&& self.low == low
                &&& self.high == high
                &&& !accepted
            },
        }
    }

    /// Performing the pending access on the modelled device and advancing
    /// the negotiation with the answer keeps the two in step, and brings
    /// the negotiation nearer to its end.
    pub proof fn lemma_step(self, device: NetDeviceState, initial: NetDeviceState)
        requires
            self.inv(device, initial),
            !self.spec_ended(),
        ensures
            ({
                let access = self.spec_pending().unwrap();
                let next = self.spec_next(device.spec_reply(access));
                &&& self.spec_pending() is Some
                &&& next.inv(device.spec_after(access), initial)
                &&& next.spec_remaining() < self.spec_remaining()
            }),
    {
        lemma_feature_words(initial.device_features);
        let low = spec_feature_word(initial.device_features, 0);
        let high = spec_feature_word(initial.device_features, 1);
        assert((low as u64) & 0xFFFF_FFFF == low) by (bit_vector);
        assert((high as u64) & 0xFFFF_FFFF == high) by (bit_vector);
    }

    /// A negotiation that has ended in step with the device accepted it if
    /// and only if the device offers every required feature, and found
    /// the features that the device offers.
    pub proof fn lemma_ended(self, device: NetDeviceState, initial: NetDeviceState)
        requires
            self.inv(device, initial),
            self.spec_ended(),
        ensures
            (self.phase == NegotiationPhase::Accepted) == spec_features_accepted(
                initial.device_features,
            ),
            self.spec_device_features() == initial.device_features,
            device == Self::spec_outcome(initial),
    {
        lemma_feature_words(initial.device_features);
    }

    /// A negotiation that has read nothing yet.
    pub fn new() -> (negotiation: FeatureNegotiation)
        ensures
            negotiation == FeatureNegotiation::spec_start(),
    {
        FeatureNegotiation { phase: NegotiationPhase::SelectLow, low: 0, high: 0 }
    }

    /// The access to perform next, or `None` when the negotiation has
    /// ended.
    pub fn pending(&self) -> (access: Option<NetAccess>)
        ensures
            access == self.spec_pending(),
    {
        match self.phase {
            NegotiationPhase::SelectLow => Some(NetAccess::SelectDeviceFeatures { word: 0 }),
            NegotiationPhase::ReadLow => Some(NetAccess::ReadDeviceFeatures),
            NegotiationPhase::SelectHigh => Some(NetAccess::SelectDeviceFeatures { word: 1 }),
            NegotiationPhase::ReadHigh => Some(NetAccess::ReadDeviceFeatures),
            NegotiationPhase::SelectDriver => Some(NetAccess::SelectDriverFeatures { word: 0 }),
            NegotiationPhase::SetDriver => Some(
                NetAccess::SetDriverFeatures { bits: low_word(required_features()) },
            ),
            NegotiationPhase::Accepted => None,
            NegotiationPhase::Rejected => None,
        }
    }

    /// Takes the negotiation on after the pending access was performed.
    /// `reply` is the value read; after a write it is ignored.
    pub fn advance(&mut self, reply: u64)
        ensures
            *final(self) == old(self).spec_next(reply),
    {
        match self.phase {
            NegotiationPhase::SelectLow => {
                self.phase = NegotiationPhase::ReadLow;
            },
            NegotiationPhase::ReadLow => {
                self.low = low_word(reply);
                self.phase = NegotiationPhase::SelectHigh;
            },
            NegotiationPhase::SelectHigh => {
                self.phase = NegotiationPhase::ReadHigh;
            },
            NegotiationPhase::ReadHigh => {
                self.high = low_word(reply);
                if features_accepted(self.device_features()) {
                    self.phase = NegotiationPhase::SelectDriver;
                } else {
                    self.phase = NegotiationPhase::Rejected;
                }
            },
            NegotiationPhase::SelectDriver => {
                self.phase = NegotiationPhase::SetDriver;
            },
            NegotiationPhase::SetDriver => {
                self.phase = NegotiationPhase::Accepted;
            },
            NegotiationPhase::Accepted => {},
            NegotiationPhase::Rejected => {},
        }
    }

    /// Whether the negotiation has ended, one way or the other.
    pub fn has_ended(&self) -> (ended: bool)
        ensures
            ended == self.spec_ended(),
    {
        self.phase == NegotiationPhase::Accepted || self.phase == NegotiationPhase::Rejected
    }

    /// Whether the device was accepted.
    pub fn is_accepted(&self) -> (accepted: bool)
        ensures
            accepted == (self.phase == NegotiationPhase::Accepted),
    {
        self.phase == NegotiationPhase::Accepted
    }

    /// The features that the device was found to offer, from the words
    /// read so far.
    pub fn device_features(&self) -> (features: u64)
        ensures
            features == self.spec_device_features(),
    {
        (self.low as u64) | ((self.high as u64) << 32)
    }
}

/// Negotiates features with the modelled device. Returns whether the
/// device was accepted: it is if and only if it offers every required
/// feature. Only then are the required features set among the driver's.
pub fn negotiate(device: &mut VirtioNetDevice) -> (negotiation: FeatureNegotiation)
    requires
        old(device)@.wf(),
    ensures
        negotiation.spec_ended(),
        (negotiation.phase == NegotiationPhase::Accepted) == spec_features_accepted(
            old(device)@.device_features,
        ),
        negotiation.spec_device_features() == old(device)@.device_features,
        final(device)@ == FeatureNegotiation::spec_outcome(old(device)@),
        final(device)@.wf(),
{
    let ghost initial = device@;
    let mut negotiation = FeatureNegotiation::new();
    while !negotiation.has_ended()
        invariant
            negotiation.inv(device@, initial),
            device@.wf(),
        decreases negotiation.spec_remaining(),
    {
        proof {
            negotiation.lemma_step(device@, initial);
        }
        let access: NetAccess = negotiation.pending().unwrap();
        let reply: u64 = device.access(access);
        negotiation.advance(reply);
    }
    proof {
        negotiation.lemma_ended(device@, initial);
    }
    negotiation
}

} // verus!
