//! The buffers of the network driver and the protocol that sets its two
//! queues up: the receive queue with buffers that the device writes, the
//! transmit queue with buffers that it reads.

use crate::net_device::{
    spec_bump, NetAccess, NetDeviceState, VirtioNetDevice, VIRTIO_NET_RX_QUEUE,
    VIRTIO_NET_TX_QUEUE,
};
use crate::virtq::{QueueBuffer, VirtqState, VIRTQ_DESC_F_DEFAULT, VIRTQ_DESC_F_WRITE};
use vstd::prelude::*;

verus! {

/// The size of a page: buffers take whole pages.
pub const BASE_PAGE_SIZE: usize = 4096;

/// The size of the header that precedes every packet in its buffer.
pub const VIRTIO_NET_HDR_SIZE: usize = 10;

/// The size of a receive buffer: the largest packet with room for its
/// header.
pub const VIRTIO_NET_RX_BUFFER_SIZE: usize = 65562;

/// The largest payload of a transmit buffer.
pub const VIRTIO_NET_MTU: u16 = 1500;

/// The least multiple of the page size that is not below `len`.
pub open spec fn spec_align_up(len: int) -> int {
    ((len + BASE_PAGE_SIZE - 1) / BASE_PAGE_SIZE as int) * BASE_PAGE_SIZE
}

/// Rounds `len` up to whole pages.
pub fn align_up(len: usize) -> (aligned: usize)
    requires
        len + BASE_PAGE_SIZE - 1 <= usize::MAX,
    ensures
        aligned == spec_align_up(len as int),
        aligned % BASE_PAGE_SIZE == 0,
        len <= aligned < len + BASE_PAGE_SIZE,
{
    ((len + (BASE_PAGE_SIZE - 1)) / BASE_PAGE_SIZE) * BASE_PAGE_SIZE
}

/// A buffer that the device writes received packets to.
#[derive(Clone, Copy, Debug, PartialEq, Eq, Structural)]
pub struct RxBuffer {
    pub addr: u64,
    pub len: usize,
}

impl RxBuffer {
    /// The memory to take for a buffer of `len` bytes: whole pages.
    pub fn allocation_size(len: usize) -> (size: usize)
        requires
            len + BASE_PAGE_SIZE - 1 <= usize::MAX,
        ensures
            size == spec_align_up(len as int),
    {
        align_up(len)
    }

    /// A buffer of `len` bytes in the memory taken for it at `addr`.
    pub fn new(addr: u64, len: usize) -> (buffer: RxBuffer)
        requires
            len + BASE_PAGE_SIZE - 1 <= usize::MAX,
        ensures
            buffer == (RxBuffer { addr, len: spec_align_up(len as int) as usize }),
    {
        RxBuffer { addr, len: align_up(len) }
    }
}

/// A buffer that the device reads packets to transmit from. It is in use
/// from the moment it is handed out until the device is done with it.
#[derive(Clone, Copy, Debug, PartialEq, Eq, Structural)]
pub struct TxBuffer {
    pub addr: u64,
    pub len: usize,
    pub in_use: bool,
}

impl TxBuffer {
    /// The memory to take for a buffer with a payload of `len` bytes: the
    /// payload and its header, in whole pages.
    pub fn allocation_size(len: usize) -> (size: usize)
        requires
            len + VIRTIO_NET_HDR_SIZE + BASE_PAGE_SIZE - 1 <= usize::MAX,
        ensures
            size == spec_align_up(len + VIRTIO_NET_HDR_SIZE),
    {
        align_up(len + VIRTIO_NET_HDR_SIZE)
    }

    /// A free buffer with a payload of `len` bytes in the memory taken
    /// for it at `addr`.
    pub fn new(addr: u64, len: usize) -> (buffer: TxBuffer)
        requires
            len + VIRTIO_NET_HDR_SIZE + BASE_PAGE_SIZE - 1 <= usize::MAX,
        ensures
            buffer == (TxBuffer {
                addr,
                len: spec_align_up(len + VIRTIO_NET_HDR_SIZE) as usize,
                in_use: false,
            }),
    {
        TxBuffer { addr, len: align_up(len + VIRTIO_NET_HDR_SIZE), in_use: false }
    }
}

/// The memory taken for a receive buffer.
pub open spec fn spec_rx_allocation() -> usize {
    spec_align_up(VIRTIO_NET_RX_BUFFER_SIZE as int) as usize
}

/// The length of a transmit buffer as the queue knows it: the payload and
/// its header.
pub open spec fn spec_tx_length(mtu: u16) -> usize {
    (mtu + VIRTIO_NET_HDR_SIZE) as usize
}

/// The memory taken for a transmit buffer.
pub open spec fn spec_tx_allocation(mtu: u16) -> usize {
    spec_align_up(mtu + VIRTIO_NET_HDR_SIZE) as usize
}

/// The address behind `count` allocations of `size` bytes from `next` on.
pub open spec fn spec_bump_by(next: u64, size: usize, count: nat) -> u64
    decreases count,
{
    if count == 0 {
        next
    } else {
        spec_bump(spec_bump_by(next, size, (count - 1) as nat), size)
    }
}

/// The first `count` receive buffers taken from memory at `heap`.
pub open spec fn spec_rx_buffers(heap: u64, count: nat) -> Seq<RxBuffer> {
    Seq::new(
        count,
        |i: int|
            RxBuffer {
                addr: spec_bump_by(heap, spec_rx_allocation(), i as nat),
                len: spec_rx_allocation(),
            },
    )
}

/// The first `count` transmit buffers taken from memory at `heap`.
pub open spec fn spec_tx_buffers(heap: u64, mtu: u16, count: nat) -> Seq<TxBuffer> {
    Seq::new(
        count,
        |i: int|
            TxBuffer {
                addr: spec_bump_by(heap, spec_tx_allocation(mtu), i as nat),
                len: spec_tx_allocation(mtu),
                in_use: false,
            },
    )
}

/// A receive queue of `size` slots whose first slots hold `buffers`: the
/// device may write each of them.
pub open spec fn spec_rx_queue(buffers: Seq<RxBuffer>, size: u16) -> VirtqState {
    VirtqState {
        buffers: Seq::new(
            size as nat,
            |i: int|
                if i < buffers.len() {
                    Some(
                        QueueBuffer {
                            address: buffers[i].addr,
                            length: VIRTIO_NET_RX_BUFFER_SIZE,
                            flags: VIRTQ_DESC_F_WRITE,
                        },
                    )
                } else {
                    None
                },
        ),
        with_device: Seq::new(size as nat, |i: int| i < buffers.len()),
        used: Seq::empty(),
        next: 0,
        polling: false,
    }
}

/// A transmit queue of `size` slots whose first slots hold `buffers`:
/// none is submitted yet.
pub open spec fn spec_tx_queue(buffers: Seq<TxBuffer>, mtu: u16, size: u16) -> VirtqState {
    VirtqState {
        buffers: Seq::new(
            size as nat,
            |i: int|
                if i < buffers.len() {
                    Some(
                        QueueBuffer {
                            address: buffers[i].addr,
                            length: spec_tx_length(mtu),
                            flags: VIRTQ_DESC_F_DEFAULT,
                        },
                    )
                } else {
                    None
                },
        ),
        with_device: Seq::new(size as nat, |i: int| false),
        used: Seq::empty(),
        next: 0,
        polling: false,
    }
}

/// What the setup of the queues waits to do next.
#[derive(Clone, Copy, Debug, PartialEq, Eq, Structural)]
pub enum SetupPhase {
    /// Create the receive queue.
    CreateReceive,
    /// Create the transmit queue.
    CreateTransmit,
    /// Read the number of slots.
    QueueSize,
    /// Take memory for the next receive buffer.
    AllocateReceive,
    /// Register it with the receive queue.
    AddReceive,
    /// Take memory for the next transmit buffer.
    AllocateTransmit,
    /// Register it with the transmit queue.
    AddTransmit,
    /// Both queues hold their buffers.
    Ready,
    /// A queue could not be had.
    Failed,
}

/// The state of a setup as a value.
pub ghost struct SetupState {
    pub phase: SetupPhase,
    pub mtu: u16,
    pub queue_size: u16,
    pub address: u64,
    pub rx_buffers: Seq<RxBuffer>,
    pub tx_buffers: Seq<TxBuffer>,
}

impl SetupState {
    /// A setup that has done nothing yet.
    pub open spec fn spec_start(mtu: u16) -> SetupState {
        SetupState {
            phase: SetupPhase::CreateReceive,
            mtu,
            queue_size: 0,
            address: 0,
            rx_buffers: Seq::empty(),
            tx_buffers: Seq::empty(),
        }
    }

    /// The access that the setup needs next, or `None` when it has ended.
    pub open spec fn spec_pending(self) -> Option<NetAccess> {
        match self.phase {
            SetupPhase::CreateReceive => Some(NetAccess::CreateQueue { index: VIRTIO_NET_RX_QUEUE }),
            SetupPhase::CreateTransmit => Some(
                NetAccess::CreateQueue { index: VIRTIO_NET_TX_QUEUE },
            ),
            SetupPhase::QueueSize => Some(NetAccess::ReadQueueSize),
            SetupPhase::AllocateReceive => Some(NetAccess::Allocate { size: spec_rx_allocation() }),
            SetupPhase::AddReceive => Some(
                NetAccess::AddBuffer {
                    queue: VIRTIO_NET_RX_QUEUE,
                    slot: self.rx_buffers.len() as usize,
                    address: self.address,
                    length: VIRTIO_NET_RX_BUFFER_SIZE,
                    flags: VIRTQ_DESC_F_WRITE,
                },
            ),
            SetupPhase::AllocateTransmit => Some(
                NetAccess::Allocate { size: spec_tx_allocation(self.mtu) },
            ),
            SetupPhase::AddTransmit => Some(
                NetAccess::AddBuffer {
                    queue: VIRTIO_NET_TX_QUEUE,
                    slot: self.tx_buffers.len() as usize,
                    address: self.address,
                    length: spec_tx_length(self.mtu),
                    flags: VIRTQ_DESC_F_DEFAULT,
                },
            ),
            SetupPhase::Ready => None,
            SetupPhase::Failed => None,
        }
    }

    /// The setup after the pending access was performed and answered
    /// `reply`. Each queue gets as many buffers as it has slots.
    pub open spec fn spec_next(self, reply: u64) -> SetupState {
        match self.phase {
            SetupPhase::CreateReceive => SetupState {
                phase: if reply == 0 {
                    SetupPhase::Failed
                } else {
                    SetupPhase::CreateTransmit
                },
                ..self
            },
            SetupPhase::CreateTransmit => SetupState {
                phase: if reply == 0 {
                    SetupPhase::Failed
                } else {
                    SetupPhase::QueueSize
                },
                ..self
            },
            SetupPhase::QueueSize => {
                let queue_size = (reply & 0xFFFF) as u16;
                SetupState {
                    phase: if queue_size == 0 {
                        SetupPhase::Ready
                    } else {
                        SetupPhase::AllocateReceive
                    },
                    queue_size,
                    ..self
                }
            },
            SetupPhase::AllocateReceive => SetupState {
                phase: SetupPhase::AddReceive,
                address: reply,
                ..self
            },
            SetupPhase::AddReceive => SetupState {
                phase: if self.rx_buffers.len() + 1 >= self.queue_size {
                    SetupPhase::AllocateTransmit
                } else {
                    SetupPhase::AllocateReceive
                },
                rx_buffers: self.rx_buffers.push(
                    RxBuffer { addr: self.address, len: spec_rx_allocation() },
                ),
                ..self
            },
            SetupPhase::AllocateTransmit => SetupState {
                phase: SetupPhase::AddTransmit,
                address: reply,
                ..self
            },
            SetupPhase::AddTransmit => SetupState {
                phase: if self.tx_buffers.len() + 1 >= self.queue_size {
                    SetupPhase::Ready
                } else {
                    SetupPhase::AllocateTransmit
                },
                tx_buffers: self.tx_buffers.push(
                    TxBuffer {
                        addr: self.address,
                        len: spec_tx_allocation(self.mtu),
                        in_use: false,
                    },
                ),
                ..self
            },
            SetupPhase::Ready => self,
            SetupPhase::Failed => self,
        }
    }

    /// Whether the setup has ended.
    pub open spec fn spec_ended(self) -> bool {
        self.phase == SetupPhase::Ready || self.phase == SetupPhase::Failed
    }

    /// A bound on the number of accesses that the setup still needs, for a
    /// setup in step with a device.
    pub open spec fn spec_remaining(self) -> nat {
        let size = self.queue_size as int;
        let receive = size - self.rx_buffers.len();
        let transmit = size - self.tx_buffers.len();
        match self.phase {
            SetupPhase::CreateReceive => 0x4_0003,
            SetupPhase::CreateTransmit => 0x4_0002,
            SetupPhase::QueueSize => 0x4_0001,
            SetupPhase::AllocateReceive => (2 * size + 2 * receive) as nat,
            SetupPhase::AddReceive => (2 * size + 2 * receive - 1) as nat,
            SetupPhase::AllocateTransmit => (2 * transmit) as nat,
            SetupPhase::AddTransmit => (2 * transmit - 1) as nat,
            SetupPhase::Ready => 0,
            SetupPhase::Failed => 0,
        }
    }

    /// Whether the setup succeeds on a device: the device has no queue
    /// yet and can create two.
    pub open spec fn spec_succeeds(initial: NetDeviceState) -> bool {
        initial.queues.len() == 0 && initial.queue_count >= 2 && initial.queue_size > 0
    }

    /// The memory from which the transmit buffers are taken: what follows
    /// the receive buffers.
    pub open spec fn spec_tx_heap(initial: NetDeviceState) -> u64 {
        spec_bump_by(initial.next_address, spec_rx_allocation(), initial.queue_size as nat)
    }

    /// The receive buffers of a setup that succeeded.
    pub open spec fn spec_all_rx_buffers(initial: NetDeviceState) -> Seq<RxBuffer> {
        spec_rx_buffers(initial.next_address, initial.queue_size as nat)
    }

    /// The transmit buffers of a setup that succeeded.
    pub open spec fn spec_all_tx_buffers(initial: NetDeviceState, mtu: u16) -> Seq<TxBuffer> {
        spec_tx_buffers(Self::spec_tx_heap(initial), mtu, initial.queue_size as nat)
    }

    /// The device once the setup has ended, given what it was before:
    /// with both queues and all their buffers where the setup succeeded,
    /// and else with the queue that could be created, if any.
    pub open spec fn spec_outcome(initial: NetDeviceState, mtu: u16) -> NetDeviceState {
        if Self::spec_succeeds(initial) {
            NetDeviceState {
                queues: seq![
                    spec_rx_queue(Self::spec_all_rx_buffers(initial), initial.queue_size),
                    spec_tx_queue(
                        Self::spec_all_tx_buffers(initial, mtu),
                        mtu,
                        initial.queue_size,
                    ),
                ],
                next_address: spec_bump_by(
                    Self::spec_tx_heap(initial),
                    spec_tx_allocation(mtu),
                    initial.queue_size as nat,
                ),
                ..initial
            }
        } else if initial.spec_can_create(VIRTIO_NET_RX_QUEUE) {
            NetDeviceState {
                queues: initial.queues.push(VirtqState::spec_new(initial.queue_size)),
                ..initial
            }
        } else {
            initial
        }
    }

    /// What holds between the steps of a setup on a device that was
    /// `initial` when it began.
    pub open spec fn inv(self, device: NetDeviceState, initial: NetDeviceState) -> bool {
        let size = initial.queue_size;
        let heap = initial.next_address;
        let tx_heap = Self::spec_tx_heap(initial);
        let received = self.rx_buffers.len();
        let sent = self.tx_buffers.len();
        let filling = {
            &&& Self::spec_succeeds(initial)
            &&& self.queue_size == size
            &&& self.rx_buffers == spec_rx_buffers(heap, received)
            &&& self.tx_buffers == spec_tx_buffers(tx_heap, self.mtu, sent)
            &&& received <= size
            &&& sent <= size
            &&& device.queues == seq![
                spec_rx_queue(self.rx_buffers, size),
                spec_tx_queue(self.tx_buffers, self.mtu, size),
            ]
            &&& device == (NetDeviceState {
                queues: device.queues,
                next_address: device.next_address,
                ..initial
            })
        };
        match self.phase {
            SetupPhase::CreateReceive => {
                &&& device == initial
                &&& self.rx_buffers.len() == 0
                &&& self.tx_buffers.len() == 0
            },
            SetupPhase::CreateTransmit => {
                &&& initial.spec_can_create(VIRTIO_NET_RX_QUEUE)
                &&& device == (NetDeviceState {
                    queues: initial.queues.push(VirtqState::spec_new(size)),
                    ..initial
                })
                &&& self.rx_buffers.len() == 0
                &&& self.tx_buffers.len() == 0
            },
            SetupPhase::QueueSize => {
                &&& Self::spec_succeeds(initial)
                &&& device == (NetDeviceState {
                    queues: seq![VirtqState::spec_new(size), VirtqState::spec_new(size)],
                    ..initial
                })
                &&& self.rx_buffers.len() == 0
                &&& self.tx_buffers.len() == 0
            },
            SetupPhase::AllocateReceive => {
                &&& filling
                &&& received < size
                &&& sent == 0
                &&& device.next_address == spec_bump_by(heap, spec_rx_allocation(), received)
            },
            SetupPhase::AddReceive => {
                &&& filling
                &&& received < size
                &&& sent == 0
                &&& self.address == spec_bump_by(heap, spec_rx_allocation(), received)
                &&& device.next_address == spec_bump_by(heap, spec_rx_allocation(), received + 1)
            },
            SetupPhase::AllocateTransmit => {
                &&& filling
                &&& received == size
                &&& sent < size
                &&& device.next_address == spec_bump_by(
                    tx_heap,
                    spec_tx_allocation(self.mtu),
                    sent,
                )
            },
            SetupPhase::AddTransmit => {
                &&& filling
                &&& received == size
                &&& sent < size
                &&& self.address == spec_bump_by(tx_heap, spec_tx_allocation(self.mtu), sent)
                &&& device.next_address == spec_bump_by(
                    tx_heap,
                    spec_tx_allocation(self.mtu),
                    sent + 1,
                )
            },
            SetupPhase::Ready => {
                &&& filling
                &&& received == size
                &&& sent == size
                &&& device == Self::spec_outcome(initial, self.mtu)
            },
            SetupPhase::Failed => {
                &&& !Self::spec_succeeds(initial)
                &&& device == Self::spec_outcome(initial, self.mtu)
                &&& self.rx_buffers.len() == 0
                &&& self.tx_buffers.len() == 0
            },
        }
    }

    /// A setup that has done nothing is in step with any device.
    pub proof fn lemma_start(device: NetDeviceState, mtu: u16)
        ensures
            SetupState::spec_start(mtu).inv(device, device),
    {
    }

    /// Performing the pending access on the modelled device and advancing
    /// the setup with the answer keeps the two in step, and brings the
    /// setup nearer to its end.
    pub proof fn lemma_step(self, device: NetDeviceState, initial: NetDeviceState)
        requires
            self.inv(device, initial),
            !self.spec_ended(),
        ensures
            ({
                let access = self.spec_pending().unwrap();
                let next = self.spec_next(device.spec_reply(access));
                &&& self.spec_pending() is Some
                &&& next.inv(device.spec_after(access), initial)
                &&& next.spec_remaining() < self.spec_remaining()
                &&& next.mtu == self.mtu
            }),
    {
        let size = initial.queue_size;
        let heap = initial.next_address;
        let tx_heap = Self::spec_tx_heap(initial);
        let access = self.spec_pending().unwrap();
        let reply = device.spec_reply(access);
        let next = self.spec_next(reply);
        let after = device.spec_after(access);
        let empty_rx = Seq::<RxBuffer>::empty();
        let empty_tx = Seq::<TxBuffer>::empty();
        match self.phase {
            SetupPhase::CreateReceive => {
                if initial.spec_can_create(VIRTIO_NET_RX_QUEUE) {
                } else {
                }
            },
            SetupPhase::CreateTransmit => {
                if device.spec_can_create(VIRTIO_NET_TX_QUEUE) {
                    assert(after.queues =~= seq![
                        VirtqState::spec_new(size),
                        VirtqState::spec_new(size),
                    ]);
                }
            },
            SetupPhase::QueueSize => {
                assert((size as u64) & 0xFFFF == size) by (bit_vector);
                assert(self.rx_buffers =~= empty_rx);
                assert(self.tx_buffers =~= empty_tx);
                assert(next.rx_buffers =~= spec_rx_buffers(heap, 0));
                assert(next.tx_buffers =~= spec_tx_buffers(tx_heap, self.mtu, 0));
                let fresh = VirtqState::spec_new(size);
                assert(spec_rx_queue(empty_rx, size).buffers =~= fresh.buffers);
                assert(spec_rx_queue(empty_rx, size).with_device =~= fresh.with_device);
                assert(spec_tx_queue(empty_tx, self.mtu, size).buffers =~= fresh.buffers);
                assert(spec_tx_queue(empty_tx, self.mtu, size).with_device =~= fresh.with_device);
            },
            SetupPhase::AllocateReceive => {},
            SetupPhase::AddReceive => {
                let added = self.rx_buffers.push(
                    RxBuffer { addr: self.address, len: spec_rx_allocation() },
                );
                assert(added =~= spec_rx_buffers(heap, added.len()));
                assert(device.queues[0].spec_add_buffer(
                    self.rx_buffers.len() as usize,
                    self.address,
                    VIRTIO_NET_RX_BUFFER_SIZE,
                    VIRTQ_DESC_F_WRITE,
                ) =~= spec_rx_queue(added, size)) by {
                    assert(VIRTQ_DESC_F_WRITE & VIRTQ_DESC_F_WRITE != 0) by (bit_vector);
                    let updated = device.queues[0].spec_add_buffer(
                        self.rx_buffers.len() as usize,
                        self.address,
                        VIRTIO_NET_RX_BUFFER_SIZE,
                        VIRTQ_DESC_F_WRITE,
                    );
                    assert(updated.buffers =~= spec_rx_queue(added, size).buffers);
                    assert(updated.with_device =~= spec_rx_queue(added, size).with_device);
                }
                assert(after.queues =~= seq![
                    spec_rx_queue(added, size),
                    spec_tx_queue(self.tx_buffers, self.mtu, size),
                ]);
                if added.len() >= size {
                    assert(self.tx_buffers =~= empty_tx);
                }
            },
            SetupPhase::AllocateTransmit => {},
            SetupPhase::AddTransmit => {
                let added = self.tx_buffers.push(
                    TxBuffer {
                        addr: self.address,
                        len: spec_tx_allocation(self.mtu),
                        in_use: false,
                    },
                );
                assert(added =~= spec_tx_buffers(tx_heap, self.mtu, added.len()));
                assert(device.queues[1].spec_add_buffer(
                    self.tx_buffers.len() as usize,
                    self.address,
                    spec_tx_length(self.mtu),
                    VIRTQ_DESC_F_DEFAULT,
                ) =~= spec_tx_queue(added, self.mtu, size)) by {
                    assert(VIRTQ_DESC_F_DEFAULT & VIRTQ_DESC_F_WRITE == 0) by (bit_vector);
                    let updated = device.queues[1].spec_add_buffer(
                        self.tx_buffers.len() as usize,
                        self.address,
                        spec_tx_length(self.mtu),
                        VIRTQ_DESC_F_DEFAULT,
                    );
                    assert(updated.buffers =~= spec_tx_queue(added, self.mtu, size).buffers);
                    assert(updated.with_device =~= spec_tx_queue(
                        added,
                        self.mtu,
                        size,
                    ).with_device);
                }
                assert(after.queues =~= seq![
                    spec_rx_queue(self.rx_buffers, size),
                    spec_tx_queue(added, self.mtu, size),
                ]);
            },
            _ => {},
        }
    }

    /// A setup that has ended in step with the device is ready if and
    /// only if the device could create both queues; its buffers are then
    /// those taken from the device's memory in turn, and the device holds
    /// them in its queues.
    pub proof fn lemma_ended(self, device: NetDeviceState, initial: NetDeviceState)
        requires
            self.inv(device, initial),
            self.spec_ended(),
        ensures
            (self.phase == SetupPhase::Ready) == Self::spec_succeeds(initial),
            device == Self::spec_outcome(initial, self.mtu),
            self.phase == SetupPhase::Ready ==> self.rx_buffers == Self::spec_all_rx_buffers(
                initial,
            ) && self.tx_buffers == Self::spec_all_tx_buffers(initial, self.mtu),
            self.phase == SetupPhase::Failed ==> self.rx_buffers.len() == 0
                && self.tx_buffers.len() == 0,
    {
    }
}

/// The setup of the two queues of a network device. It performs no access
/// itself: `pending` names the access it needs, and `advance` takes it on
/// once that access is done.
#[derive(Debug)]
pub struct QueueSetup {
    pub phase: SetupPhase,
    pub mtu: u16,
    pub queue_size: u16,
    pub address: u64,
    pub rx_buffers: Vec<RxBuffer>,
    pub tx_buffers: Vec<TxBuffer>,
}

impl View for QueueSetup {
    type V = SetupState;

    open spec fn view(&self) -> SetupState {
        SetupState {
            phase: self.phase,
            mtu: self.mtu,
            queue_size: self.queue_size,
            address: self.address,
            rx_buffers: self.rx_buffers@,
            tx_buffers: self.tx_buffers@,
        }
    }
}

impl QueueSetup {
    /// A setup that has done nothing yet, for transmit buffers with a
    /// payload of `mtu` bytes.
    pub fn new(mtu: u16) -> (setup: QueueSetup)
        ensures
            setup@ == SetupState::spec_start(mtu),
    {
        QueueSetup {
            phase: SetupPhase::CreateReceive,
            mtu,
            queue_size: 0,
            address: 0,
            rx_buffers: Vec::new(),
            tx_buffers: Vec::new(),
        }
    }

    /// The access to perform next, or `None` when the setup has ended.
    pub fn pending(&self) -> (access: Option<NetAccess>)
        ensures
            access == self@.spec_pending(),
    {
        match self.phase {
            SetupPhase::CreateReceive => Some(NetAccess::CreateQueue { index: VIRTIO_NET_RX_QUEUE }),
            SetupPhase::CreateTransmit => Some(
                NetAccess::CreateQueue { index: VIRTIO_NET_TX_QUEUE },
            ),
            SetupPhase::QueueSize => Some(NetAccess::ReadQueueSize),
            SetupPhase::AllocateReceive => Some(
                NetAccess::Allocate { size: RxBuffer::allocation_size(VIRTIO_NET_RX_BUFFER_SIZE) },
            ),
            SetupPhase::AddReceive => Some(
                NetAccess::AddBuffer {
                    queue: VIRTIO_NET_RX_QUEUE,
                    slot: self.rx_buffers.len(),
                    address: self.address,
                    length: VIRTIO_NET_RX_BUFFER_SIZE,
                    flags: VIRTQ_DESC_F_WRITE,
                },
            ),
            SetupPhase::AllocateTransmit => Some(
                NetAccess::Allocate { size: TxBuffer::allocation_size(self.mtu as usize) },
            ),
            SetupPhase::AddTransmit => Some(
                NetAccess::AddBuffer {
                    queue: VIRTIO_NET_TX_QUEUE,
                    slot: self.tx_buffers.len(),
                    address: self.address,
                    length: self.mtu as usize + VIRTIO_NET_HDR_SIZE,
                    flags: VIRTQ_DESC_F_DEFAULT,
                },
            ),
            SetupPhase::Ready => None,
            SetupPhase::Failed => None,
        }
    }

    /// Takes the setup on after the pending access was performed. `reply`
    /// is the answer; where the access has none it is ignored.
    pub fn advance(&mut self, reply: u64)
        ensures
            final(self)@ == old(self)@.spec_next(reply),
    {
        match self.phase {
            SetupPhase::CreateReceive => {
                if reply == 0 {
                    self.phase = SetupPhase::Failed;
                } else {
                    self.phase = SetupPhase::CreateTransmit;
                }
            },
            SetupPhase::CreateTransmit => {
                if reply == 0 {
                    self.phase = SetupPhase::Failed;
                } else {
                    self.phase = SetupPhase::QueueSize;
                }
            },
            SetupPhase::QueueSize => {
                assert(reply & 0xFFFF <= 0xFFFF) by (bit_vector);
                self.queue_size = (reply & 0xFFFF) as u16;
                if self.queue_size == 0 {
                    self.phase = SetupPhase::Ready;
                } else {
                    self.phase = SetupPhase::AllocateReceive;
                }
            },
            SetupPhase::AllocateReceive => {
                self.address = reply;
                self.phase = SetupPhase::AddReceive;
            },
            SetupPhase::AddReceive => {
                if self.rx_buffers.len() >= self.queue_size as usize
                    || self.rx_buffers.len() + 1 >= self.queue_size as usize {
                    self.phase = SetupPhase::AllocateTransmit;
                } else {
                    self.phase = SetupPhase::AllocateReceive;
                }
                self.rx_buffers.push(RxBuffer::new(self.address, VIRTIO_NET_RX_BUFFER_SIZE));
            },
            SetupPhase::AllocateTransmit => {
                self.address = reply;
                self.phase = SetupPhase::AddTransmit;
            },
            SetupPhase::AddTransmit => {
                if self.tx_buffers.len() >= self.queue_size as usize
                    || self.tx_buffers.len() + 1 >= self.queue_size as usize {
                    self.phase = SetupPhase::Ready;
                } else {
                    self.phase = SetupPhase::AllocateTransmit;
                }
                self.tx_buffers.push(TxBuffer::new(self.address, self.mtu as usize));
            },
            SetupPhase::Ready => {},
            SetupPhase::Failed => {},
        }
    }

    /// Whether the setup has ended, one way or the other.
    pub fn has_ended(&self) -> (ended: bool)
        ensures
            ended == self@.spec_ended(),
    {
        self.phase == SetupPhase::Ready || self.phase == SetupPhase::Failed
    }

    /// Whether both queues hold their buffers.
    pub fn is_ready(&self) -> (ready: bool)
        ensures
            ready == (self.phase == SetupPhase::Ready),
    {
        self.phase == SetupPhase::Ready
    }
}

/// Sets up the two queues of the modelled device.
pub fn setup_queues(device: &mut VirtioNetDevice, mtu: u16) -> (setup: QueueSetup)
    requires
        old(device)@.wf(),
    ensures
        setup@.spec_ended(),
        setup.mtu == mtu,
        (setup.phase == SetupPhase::Ready) == SetupState::spec_succeeds(old(device)@),
        final(device)@ == SetupState::spec_outcome(old(device)@, mtu),
        setup.phase == SetupPhase::Ready ==> setup.rx_buffers@
            == SetupState::spec_all_rx_buffers(old(device)@) && setup.tx_buffers@
            == SetupState::spec_all_tx_buffers(old(device)@, mtu),
        setup.phase == SetupPhase::Failed ==> setup.rx_buffers@.len() == 0
            && setup.tx_buffers@.len() == 0,
        final(device)@.wf(),
{
    let ghost initial = device@;
    let mut setup = QueueSetup::new(mtu);
    proof {
        SetupState::lemma_start(initial, mtu);
    }
    while !setup.has_ended()
        invariant
            setup@.inv(device@, initial),
            setup.mtu == mtu,
            device@.wf(),
        decreases setup@.spec_remaining(),
    {
        proof {
            setup@.lemma_step(device@, initial);
        }
        let access: NetAccess = setup.pending().unwrap();
        let reply: u64 = device.access(access);
        setup.advance(reply);
    }
    proof {
        setup@.lemma_ended(device@, initial);
    }
    setup
}

} // verus!
