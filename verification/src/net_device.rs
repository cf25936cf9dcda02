//! A virtio network device as a driver sees it: the registers of its
//! common configuration, its queues, and the memory that buffers are
//! taken from. The accesses name what a driver asks of the device; the
//! model answers them as a device does.

use crate::virtio_net::virtio_net_hdr;
use crate::virtq::{Virtq, VirtqState};
use std::collections::HashMap;
use vstd::prelude::*;

verus! {

/// The device has been noticed.
pub const VIRTIO_STATUS_ACKNOWLEDGE: u8 = 1;

/// A driver for the device is present.
pub const VIRTIO_STATUS_DRIVER: u8 = 2;

/// The driver is set up and the device is live.
pub const VIRTIO_STATUS_DRIVER_OK: u8 = 4;

/// The driver has accepted its features.
pub const VIRTIO_STATUS_FEATURES_OK: u8 = 8;

/// The index of the receive queue.
pub const VIRTIO_NET_RX_QUEUE: u16 = 0;

/// The index of the transmit queue.
pub const VIRTIO_NET_TX_QUEUE: u16 = 1;

/// The configuration that is specific to a network device.
#[allow(non_camel_case_types)]
#[derive(Clone, Copy, Debug)]
pub struct virtio_net_config {
    pub mac: [u8; 6],
    pub status: u16,
    pub max_virtqueue_pairs: u16,
    pub mtu: u16,
}

/// One access of a driver to its device, its queues or its memory.
#[derive(Clone, Copy, Debug, PartialEq, Eq, Structural)]
pub enum NetAccess {
    /// Write the device status register.
    WriteStatus { status: u8 },
    /// Set bits in the device status register.
    SetStatus { bits: u8 },
    /// Read the device status register.
    ReadStatus,
    /// Choose the word of the device's features to read.
    SelectDeviceFeatures { word: u32 },
    /// Read the chosen word of the device's features.
    ReadDeviceFeatures,
    /// Choose the word of the driver's features to write.
    SelectDriverFeatures { word: u32 },
    /// Set bits in the chosen word of the driver's features.
    SetDriverFeatures { bits: u32 },
    /// Create the queue with this index. The answer is zero where the
    /// queue cannot be had.
    CreateQueue { index: u16 },
    /// Read the number of slots of the queues.
    ReadQueueSize,
    /// Take memory for a buffer. The answer is its address.
    Allocate { size: usize },
    /// Register a buffer in a slot of a queue.
    AddBuffer { queue: u16, slot: usize, address: u64, length: usize, flags: u16 },
}

/// The word of a 64-bit feature mask that a select register chooses: 0
/// the low word, 1 the high one, and nothing beyond.
pub open spec fn spec_feature_word(features: u64, select: u32) -> u32 {
    if select == 0 {
        (features & 0xFFFF_FFFF) as u32
    } else if select == 1 {
        ((features >> 32) & 0xFFFF_FFFF) as u32
    } else {
        0
    }
}

/// A 64-bit feature mask with `bits` set in the word that a select
/// register chooses.
pub open spec fn spec_with_feature_bits(features: u64, select: u32, bits: u32) -> u64 {
    if select == 0 {
        features | (bits as u64)
    } else if select == 1 {
        features | ((bits as u64) << 32)
    } else {
        features
    }
}

/// The address behind an allocation of `size` bytes at `next`.
pub open spec fn spec_bump(next: u64, size: usize) -> u64 {
    if next + size <= u64::MAX {
        (next + size) as u64
    } else {
        u64::MAX
    }
}

/// The device as a value.
pub ghost struct NetDeviceState {
    pub device_features: u64,
    pub refuses_features: bool,
    pub device_feature_select: u32,
    pub driver_features: u64,
    pub driver_feature_select: u32,
    pub device_status: u8,
    pub queue_count: u16,
    pub queue_size: u16,
    pub queues: Seq<VirtqState>,
    pub next_address: u64,
    pub isr_status: u32,
    pub config: virtio_net_config,
    pub headers: Map<u64, virtio_net_hdr>,
}

impl NetDeviceState {
    /// Every queue is well formed.
    pub open spec fn wf(self) -> bool {
        &&& self.queues.len() <= 0xFFFF
        &&& forall|k: int| 0 <= k < self.queues.len() ==> (#[trigger] self.queues[k]).wf()
    }

    /// The status that the device keeps of one written to it: it takes
    /// the features-accepted bit out where it does not agree to the
    /// driver's features.
    pub open spec fn spec_kept_status(self, status: u8) -> u8 {
        if self.refuses_features || self.driver_features & !self.device_features != 0 {
            status & !VIRTIO_STATUS_FEATURES_OK
        } else {
            status
        }
    }

    /// Whether the device can create the queue `index`: the queues are
    /// created in the order of their indices.
    pub open spec fn spec_can_create(self, index: u16) -> bool {
        index == self.queues.len() && index < self.queue_count && self.queue_size > 0
    }

    /// The device after a reset.
    pub open spec fn spec_reset(self) -> NetDeviceState {
        NetDeviceState {
            device_feature_select: 0,
            driver_features: 0,
            driver_feature_select: 0,
            device_status: 0,
            queues: Seq::empty(),
            isr_status: 0,
            ..self
        }
    }

    /// The device after one access.
    pub open spec fn spec_after(self, access: NetAccess) -> NetDeviceState {
        match access {
            NetAccess::WriteStatus { status } => {
                if status == 0 {
                    self.spec_reset()
                } else {
                    NetDeviceState { device_status: self.spec_kept_status(status), ..self }
                }
            },
            NetAccess::SetStatus { bits } => NetDeviceState {
                device_status: self.spec_kept_status(self.device_status | bits),
                ..self
            },
            NetAccess::ReadStatus => self,
            NetAccess::SelectDeviceFeatures { word } => NetDeviceState {
                device_feature_select: word,
                ..self
            },
            NetAccess::ReadDeviceFeatures => self,
            NetAccess::SelectDriverFeatures { word } => NetDeviceState {
                driver_feature_select: word,
                ..self
            },
            NetAccess::SetDriverFeatures { bits } => NetDeviceState {
                driver_features: spec_with_feature_bits(
                    self.driver_features,
                    self.driver_feature_select,
                    bits,
                ),
                ..self
            },
            NetAccess::CreateQueue { index } => {
                if self.spec_can_create(index) {
                    NetDeviceState {
                        queues: self.queues.push(VirtqState::spec_new(self.queue_size)),
                        ..self
                    }
                } else {
                    self
                }
            },
            NetAccess::ReadQueueSize => self,
            NetAccess::Allocate { size } => NetDeviceState {
                next_address: spec_bump(self.next_address, size),
                ..self
            },
            NetAccess::AddBuffer { queue, slot, address, length, flags } => {
                if queue < self.queues.len() {
                    NetDeviceState {
                        queues: self.queues.update(
                            queue as int,
                            self.queues[queue as int].spec_add_buffer(slot, address, length, flags),
                        ),
                        ..self
                    }
                } else {
                    self
                }
            },
        }
    }

    /// What one access returns: the value read, the address of the memory
    /// taken, one for a queue created, and else zero.
    pub open spec fn spec_reply(self, access: NetAccess) -> u64 {
        match access {
            NetAccess::ReadStatus => self.device_status as u64,
            NetAccess::ReadDeviceFeatures => spec_feature_word(
                self.device_features,
                self.device_feature_select,
            ) as u64,
            NetAccess::CreateQueue { index } => if self.spec_can_create(index) {
                1
            } else {
                0
            },
            NetAccess::ReadQueueSize => self.queue_size as u64,
            NetAccess::Allocate { size } => self.next_address,
            _ => 0,
        }
    }

    /// The device with `queue` in place of its queue `index`.
    pub open spec fn spec_with_queue(self, index: int, queue: VirtqState) -> NetDeviceState {
        NetDeviceState { queues: self.queues.update(index, queue), ..self }
    }

    /// An access leaves a well-formed device well formed.
    pub proof fn lemma_after_wf(self, access: NetAccess)
        requires
            self.wf(),
        ensures
            self.spec_after(access).wf(),
    {
        let after = self.spec_after(access);
        assert forall|k: int| 0 <= k < after.queues.len() implies (#[trigger] after.queues[k]).wf() by {
            if k < self.queues.len() {
                assert(self.queues[k].wf());
            }
        }
    }
}

/// A model of a virtio network device with its queues and the memory that
/// buffers are taken from. It is the device against which the driver is
/// verified, and it stands in for the device where there is none.
#[derive(Debug)]
pub struct VirtioNetDevice {
    pub device_features: u64,
    pub refuses_features: bool,
    pub device_feature_select: u32,
    pub driver_features: u64,
    pub driver_feature_select: u32,
    pub device_status: u8,
    pub queue_count: u16,
    pub queue_size: u16,
    pub queues: Vec<Virtq>,
    pub next_address: u64,
    pub isr_status: u32,
    pub config: virtio_net_config,
    /// The packet headers that the driver has written to memory, by the
    /// address of their buffer.
    pub headers: HashMap<u64, virtio_net_hdr>,
}

/// The values of a list of queues.
pub open spec fn spec_queue_states(queues: Seq<Virtq>) -> Seq<VirtqState> {
    Seq::new(queues.len(), |i: int| queues[i]@)
}

impl View for VirtioNetDevice {
    type V = NetDeviceState;

    open spec fn view(&self) -> NetDeviceState {
        NetDeviceState {
            device_features: self.device_features,
            refuses_features: self.refuses_features,
            device_feature_select: self.device_feature_select,
            driver_features: self.driver_features,
            driver_feature_select: self.driver_feature_select,
            device_status: self.device_status,
            queue_count: self.queue_count,
            queue_size: self.queue_size,
            queues: spec_queue_states(self.queues@),
            next_address: self.next_address,
            isr_status: self.isr_status,
            config: self.config,
            headers: self.headers@,
        }
    }
}

impl VirtioNetDevice {
    /// A device that offers `device_features` and `queue_count` queues of
    /// `queue_size` slots, in the state after a reset. Buffers are taken
    /// from memory at `heap` upwards.
    pub fn new(
        device_features: u64,
        queue_count: u16,
        queue_size: u16,
        config: virtio_net_config,
        heap: u64,
    ) -> (device: VirtioNetDevice)
        ensures
            device@ == (NetDeviceState {
                device_features,
                refuses_features: false,
                device_feature_select: 0,
                driver_features: 0,
                driver_feature_select: 0,
                device_status: 0,
                queue_count,
                queue_size,
                queues: Seq::empty(),
                next_address: heap,
                isr_status: 0,
                config,
                headers: Map::empty(),
            }),
            device@.wf(),
    {
        let device = VirtioNetDevice {
            device_features,
            refuses_features: false,
            device_feature_select: 0,
            driver_features: 0,
            driver_feature_select: 0,
            device_status: 0,
            queue_count,
            queue_size,
            queues: Vec::new(),
            next_address: heap,
            isr_status: 0,
            config,
            headers: HashMap::new(),
        };
        assert(device@.queues =~= Seq::empty());
        device
    }

    fn kept_status(&self, status: u8) -> (kept: u8)
        ensures
            kept == self@.spec_kept_status(status),
    {
        if self.refuses_features || self.driver_features & !self.device_features != 0 {
            status & !VIRTIO_STATUS_FEATURES_OK
        } else {
            status
        }
    }

    fn feature_word(features: u64, select: u32) -> (word: u32)
        ensures
            word == spec_feature_word(features, select),
    {
        if select == 0 {
            assert(features & 0xFFFF_FFFF <= 0xFFFF_FFFF) by (bit_vector);
            (features & 0xFFFF_FFFF) as u32
        } else if select == 1 {
            assert((features >> 32) & 0xFFFF_FFFF <= 0xFFFF_FFFF) by (bit_vector);
            ((features >> 32) & 0xFFFF_FFFF) as u32
        } else {
            0
        }
    }

    fn can_create(&self, index: u16) -> (possible: bool)
        ensures
            possible == self@.spec_can_create(index),
    {
        index as usize == self.queues.len() && index < self.queue_count && self.queue_size > 0
    }

    /// Performs one access and returns the answer.
    pub fn access(&mut self, access: NetAccess) -> (reply: u64)
        requires
            old(self)@.wf(),
        ensures
            final(self)@ == old(self)@.spec_after(access),
            reply == old(self)@.spec_reply(access),
            final(self)@.wf(),
    {
        proof {
            old(self)@.lemma_after_wf(access);
        }
        match access {
            NetAccess::WriteStatus { status } => {
                if status == 0 {
                    self.device_feature_select = 0;
                    self.driver_features = 0;
                    self.driver_feature_select = 0;
                    self.device_status = 0;
                    self.queues = Vec::new();
                    self.isr_status = 0;
                    assert(self@.queues =~= Seq::empty());
                } else {
                    self.device_status = self.kept_status(status);
                }
                0
            },
            NetAccess::SetStatus { bits } => {
                self.device_status = self.kept_status(self.device_status | bits);
                0
            },
            NetAccess::ReadStatus => self.device_status as u64,
            NetAccess::SelectDeviceFeatures { word } => {
                self.device_feature_select = word;
                0
            },
            NetAccess::ReadDeviceFeatures => Self::feature_word(
                self.device_features,
                self.device_feature_select,
            ) as u64,
            NetAccess::SelectDriverFeatures { word } => {
                self.driver_feature_select = word;
                0
            },
            NetAccess::SetDriverFeatures { bits } => {
                if self.driver_feature_select == 0 {
                    self.driver_features = self.driver_features | (bits as u64);
                } else if self.driver_feature_select == 1 {
                    self.driver_features = self.driver_features | ((bits as u64) << 32);
                }
                0
            },
            NetAccess::CreateQueue { index } => {
                if self.can_create(index) {
                    self.queues.push(Virtq::new(self.queue_size));
                    assert(self@.queues =~= old(self)@.queues.push(
                        VirtqState::spec_new(self.queue_size),
                    ));
                    1
                } else {
                    0
                }
            },
            NetAccess::ReadQueueSize => self.queue_size as u64,
            NetAccess::Allocate { size } => {
                let address: u64 = self.next_address;
                if size as u64 <= u64::MAX - address {
                    self.next_address = address + size as u64;
                } else {
                    self.next_address = u64::MAX;
                }
                address
            },
            NetAccess::AddBuffer { queue, slot, address, length, flags } => {
                if (queue as usize) < self.queues.len() {
                    assert(old(self)@.queues[queue as int].wf());
                    self.queues[queue as usize].add_buffer(slot, address, length, flags);
                    assert(self@.queues =~= old(self)@.queues.update(
                        queue as int,
                        old(self)@.queues[queue as int].spec_add_buffer(
                            slot,
                            address,
                            length,
                            flags,
                        ),
                    ));
                }
                0
            },
        }
    }

    /// Submits `len` bytes of the buffer in slot `index` of a queue.
    pub fn send_non_blocking(&mut self, queue: u16, index: usize, len: usize) -> (sent: Result<
        (),
        (),
    >)
        requires
            old(self)@.wf(),
            queue < old(self)@.queues.len(),
        ensures
            sent is Ok <==> old(self)@.queues[queue as int].spec_can_send(index),
            final(self)@ == if old(self)@.queues[queue as int].spec_can_send(index) {
                old(self)@.spec_with_queue(
                    queue as int,
                    old(self)@.queues[queue as int].spec_send(index),
                )
            } else {
                old(self)@
            },
            final(self)@.wf(),
    {
        assert(old(self)@.queues[queue as int].wf());
        let sent = self.queues[queue as usize].send_non_blocking(index, len);
        proof {
            if sent is Ok {
                assert(self@.queues =~= old(self)@.queues.update(
                    queue as int,
                    old(self)@.queues[queue as int].spec_send(index),
                ));
            } else {
                assert(self@.queues =~= old(self)@.queues);
            }
            assert forall|k: int| 0 <= k < self@.queues.len() implies (#[trigger] self@.queues[k]).wf() by {
                if k != queue {
                    assert(old(self)@.queues[k].wf());
                }
            }
        }
        sent
    }

    /// Takes the oldest buffer that the device has handed back in a queue,
    /// if there is one, and returns its slot.
    pub fn check_used_elements(&mut self, queue: u16) -> (index: Option<u32>)
        requires
            old(self)@.wf(),
            queue < old(self)@.queues.len(),
        ensures
            match index {
                Some(index) => {
                    &&& old(self)@.queues[queue as int].used.len() > 0
                    &&& index == old(self)@.queues[queue as int].used[0].id
                    &&& final(self)@ == old(self)@.spec_with_queue(
                        queue as int,
                        old(self)@.queues[queue as int].spec_take_used(),
                    )
                },
                None => {
                    &&& old(self)@.queues[queue as int].used.len() == 0
                    &&& final(self)@ == old(self)@
                },
            },
            final(self)@.wf(),
    {
        assert(old(self)@.queues[queue as int].wf());
        let index = self.queues[queue as usize].check_used_elements();
        proof {
            if index is Some {
                assert(self@.queues =~= old(self)@.queues.update(
                    queue as int,
                    old(self)@.queues[queue as int].spec_take_used(),
                ));
            } else {
                assert(self@.queues =~= old(self)@.queues);
            }
            assert forall|k: int| 0 <= k < self@.queues.len() implies (#[trigger] self@.queues[k]).wf() by {
                if k != queue {
                    assert(old(self)@.queues[k].wf());
                }
            }
        }
        index
    }

    /// Gives the oldest buffer that the device has handed back in a queue
    /// to the device again.
    pub fn buffer_consumed(&mut self, queue: u16)
        requires
            old(self)@.wf(),
            queue < old(self)@.queues.len(),
        ensures
            final(self)@ == old(self)@.spec_with_queue(
                queue as int,
                old(self)@.queues[queue as int].spec_buffer_consumed(),
            ),
            final(self)@.wf(),
    {
        assert(old(self)@.queues[queue as int].wf());
        self.queues[queue as usize].buffer_consumed();
        proof {
            assert(self@.queues =~= old(self)@.queues.update(
                queue as int,
                old(self)@.queues[queue as int].spec_buffer_consumed(),
            ));
            assert forall|k: int| 0 <= k < self@.queues.len() implies (#[trigger] self@.queues[k]).wf() by {
                if k != queue {
                    assert(old(self)@.queues[k].wf());
                }
            }
        }
    }

    /// Sets whether the device is to refrain from interrupts for a queue.
    pub fn set_polling_mode(&mut self, queue: u16, value: bool)
        requires
            old(self)@.wf(),
            queue < old(self)@.queues.len(),
        ensures
            final(self)@ == old(self)@.spec_with_queue(
                queue as int,
                VirtqState { polling: value, ..old(self)@.queues[queue as int] },
            ),
            final(self)@.wf(),
    {
        assert(old(self)@.queues[queue as int].wf());
        self.queues[queue as usize].set_polling_mode(value);
        proof {
            assert(self@.queues =~= old(self)@.queues.update(
                queue as int,
                VirtqState { polling: value, ..old(self)@.queues[queue as int] },
            ));
            assert forall|k: int| 0 <= k < self@.queues.len() implies (#[trigger] self@.queues[k]).wf() by {
                if k != queue {
                    assert(old(self)@.queues[k].wf());
                } else {
                    assert forall|j: int| 0 <= j < self@.queues[k].used.len() implies (
                    #[trigger] self@.queues[k].used[j]).id < self@.queues[k].size() by {
                        assert(old(self)@.queues[k].used[j].id < old(self)@.queues[k].size());
                    }
                }
            }
        }
    }

    /// The device hands back the buffer in slot `id` of a queue with `len`
    /// bytes: a packet received, or a packet sent. Returns whether it
    /// could: it must hold the buffer.
    pub fn device_uses(&mut self, queue: u16, id: u32, len: u32) -> (done: bool)
        requires
            old(self)@.wf(),
            queue < old(self)@.queues.len(),
        ensures
            done == old(self)@.queues[queue as int].spec_device_holds(id),
            final(self)@ == if done {
                old(self)@.spec_with_queue(
                    queue as int,
                    old(self)@.queues[queue as int].spec_device_uses(id, len),
                )
            } else {
                old(self)@
            },
            final(self)@.wf(),
    {
        assert(old(self)@.queues[queue as int].wf());
        let done = self.queues[queue as usize].device_uses(id, len);
        proof {
            if done {
                assert(self@.queues =~= old(self)@.queues.update(
                    queue as int,
                    old(self)@.queues[queue as int].spec_device_uses(id, len),
                ));
            } else {
                assert(self@.queues =~= old(self)@.queues);
            }
            assert forall|k: int| 0 <= k < self@.queues.len() implies (#[trigger] self@.queues[k]).wf() by {
                if k != queue {
                    assert(old(self)@.queues[k].wf());
                }
            }
        }
        done
    }

    /// Writes the header of a packet to the start of the buffer at
    /// `address`.
    pub fn write_header(&mut self, address: u64, header: virtio_net_hdr)
        ensures
            final(self)@ == (NetDeviceState {
                headers: old(self)@.headers.insert(address, header),
                ..old(self)@
            }),
    {
        self.headers.insert(address, header);
    }

    /// The device raises an interrupt with these status bits.
    pub fn raise_interrupt(&mut self, status: u32)
        ensures
            final(self)@ == (NetDeviceState { isr_status: status, ..old(self)@ }),
    {
        self.isr_status = status;
    }

    /// Reads the interrupt status, which clears it.
    pub fn read_isr(&mut self) -> (status: u32)
        ensures
            status == old(self)@.isr_status,
            final(self)@ == (NetDeviceState { isr_status: 0, ..old(self)@ }),
    {
        let status: u32 = self.isr_status;
        self.isr_status = 0;
        status
    }
}

} // verus!
