//! One queue of the virtqueue transport, as a driver sees it: which
//! buffer stands in which slot, which buffers the device holds, and which
//! it has handed back. The ring in shared memory that carries this is the
//! transport's own; what is here is the behaviour that a driver relies on.

use vstd::prelude::*;

verus! {

/// A buffer that the device only reads.
pub const VIRTQ_DESC_F_DEFAULT: u16 = 0;

/// A buffer that continues in the next descriptor.
pub const VIRTQ_DESC_F_NEXT: u16 = 1;

/// A buffer that the device writes.
pub const VIRTQ_DESC_F_WRITE: u16 = 2;

/// A buffer registered in a slot of a queue.
#[derive(Clone, Copy, Debug, PartialEq, Eq, Structural)]
pub struct QueueBuffer {
    pub address: u64,
    pub length: usize,
    pub flags: u16,
}

/// A buffer that the device has handed back, with the number of bytes it
/// holds or held.
#[derive(Clone, Copy, Debug, PartialEq, Eq, Structural)]
pub struct UsedElement {
    pub id: u32,
    pub len: u32,
}

/// A queue as a value.
pub ghost struct VirtqState {
    pub buffers: Seq<Option<QueueBuffer>>,
    pub with_device: Seq<bool>,
    pub used: Seq<UsedElement>,
    pub next: u16,
    pub polling: bool,
}

impl VirtqState {
    /// The number of slots.
    pub open spec fn size(self) -> nat {
        self.buffers.len()
    }

    /// Every slot has its flag, and every buffer handed back is one of the
    /// queue's.
    pub open spec fn wf(self) -> bool {
        &&& self.buffers.len() <= 0xFFFF
        &&& self.with_device.len() == self.buffers.len()
        &&& forall|k: int| 0 <= k < self.used.len() ==> (#[trigger] self.used[k]).id < self.size()
    }

    /// A queue of `size` empty slots.
    pub open spec fn spec_new(size: u16) -> VirtqState {
        VirtqState {
            buffers: Seq::new(size as nat, |i: int| None),
            with_device: Seq::new(size as nat, |i: int| false),
            used: Seq::empty(),
            next: 0,
            polling: false,
        }
    }

    /// The queue after a buffer is registered in `slot`. A buffer that the
    /// device writes is at the device's disposal at once. A slot that the
    /// queue does not have is ignored.
    pub open spec fn spec_add_buffer(
        self,
        slot: usize,
        address: u64,
        length: usize,
        flags: u16,
    ) -> VirtqState {
        if slot < self.size() {
            VirtqState {
                buffers: self.buffers.update(
                    slot as int,
                    Some(QueueBuffer { address, length, flags }),
                ),
                with_device: self.with_device.update(
                    slot as int,
                    flags & VIRTQ_DESC_F_WRITE != 0,
                ),
                ..self
            }
        } else {
            self
        }
    }

    /// The slot that the next submission is to use: the slots are taken in
    /// turn.
    pub open spec fn spec_available(self) -> Option<u32> {
        if self.size() == 0 {
            None
        } else {
            Some((self.next as int % self.size() as int) as u32)
        }
    }

    /// Whether the buffer in `index` can be submitted: it is registered
    /// and the device does not hold it.
    pub open spec fn spec_can_send(self, index: usize) -> bool {
        index < self.size() && self.buffers[index as int] is Some && !self.with_device[index as int]
    }

    /// The queue after the buffer in `index` is submitted.
    pub open spec fn spec_send(self, index: usize) -> VirtqState {
        VirtqState {
            with_device: self.with_device.update(index as int, true),
            next: self.next.wrapping_add(1),
            ..self
        }
    }

    /// The queue after the oldest buffer handed back is taken from it.
    pub open spec fn spec_take_used(self) -> VirtqState {
        VirtqState { used: self.used.subrange(1, self.used.len() as int), ..self }
    }

    /// The queue after the driver is done with the oldest buffer handed
    /// back: the buffer is at the device's disposal again.
    pub open spec fn spec_buffer_consumed(self) -> VirtqState {
        if self.used.len() > 0 {
            VirtqState {
                with_device: self.with_device.update(self.used[0].id as int, true),
                used: self.used.subrange(1, self.used.len() as int),
                ..self
            }
        } else {
            self
        }
    }

    /// Whether the device can hand back the buffer in `id`: it holds it.
    pub open spec fn spec_device_holds(self, id: u32) -> bool {
        id < self.size() && self.with_device[id as int]
    }

    /// The queue after the device hands back the buffer in `id`.
    pub open spec fn spec_device_uses(self, id: u32, len: u32) -> VirtqState {
        VirtqState {
            with_device: self.with_device.update(id as int, false),
            used: self.used.push(UsedElement { id, len }),
            ..self
        }
    }

    /// The queue after the device hands back `packets`, one after the
    /// other.
    pub open spec fn spec_deliver(self, packets: Seq<UsedElement>) -> VirtqState
        decreases packets.len(),
    {
        if packets.len() == 0 {
            self
        } else {
            self.spec_deliver(packets.drop_last()).spec_device_uses(
                packets.last().id,
                packets.last().len,
            )
        }
    }

    /// The queue after the driver is done with `count` buffers.
    pub open spec fn spec_consume(self, count: nat) -> VirtqState
        decreases count,
    {
        if count == 0 {
            self
        } else {
            self.spec_buffer_consumed().spec_consume((count - 1) as nat)
        }
    }

    /// Whether the device holds each buffer of `packets` and none stands
    /// twice among them.
    pub open spec fn spec_deliverable(self, packets: Seq<UsedElement>) -> bool {
        &&& forall|k: int| 0 <= k < packets.len() ==> self.spec_device_holds((#[trigger] packets[k]).id)
        &&& forall|j: int, k: int|
            0 <= j < k < packets.len() ==> (#[trigger] packets[j]).id != (#[trigger] packets[k]).id
    }

    /// After the device has handed back `packets`, they wait in the order
    /// they came, behind what waited before, and the device holds what it
    /// held but for them.
    pub proof fn lemma_deliver(self, packets: Seq<UsedElement>)
        requires
            self.wf(),
            self.spec_deliverable(packets),
        ensures
            self.spec_deliver(packets).wf(),
            self.spec_deliver(packets).used == self.used + packets,
            self.spec_deliver(packets).buffers == self.buffers,
            self.spec_deliver(packets).next == self.next,
            self.spec_deliver(packets).polling == self.polling,
            self.spec_deliver(packets).with_device.len() == self.with_device.len(),
            forall|i: int|
                0 <= i < self.with_device.len() ==> #[trigger] self.spec_deliver(
                    packets,
                ).with_device[i] == (self.with_device[i] && !exists|k: int|
                    0 <= k < packets.len() && (#[trigger] packets[k]).id == i),
        decreases packets.len(),
    {
        if packets.len() == 0 {
            assert(self.used + packets =~= self.used);
        } else {
            let front = packets.drop_last();
            let last = packets.last();
            self.lemma_deliver(front);
            let before = self.spec_deliver(front);
            let after = self.spec_deliver(packets);
            assert(after.used =~= self.used + packets);
            assert forall|i: int| 0 <= i < self.with_device.len() implies #[trigger] after.with_device[i]
                == (self.with_device[i] && !exists|k: int|
                0 <= k < packets.len() && (#[trigger] packets[k]).id == i) by {
                if i == last.id {
                    assert(packets[packets.len() - 1].id == i);
                } else {
                    if exists|k: int| 0 <= k < front.len() && (#[trigger] front[k]).id == i {
                        let k = choose|k: int| 0 <= k < front.len() && (#[trigger] front[k]).id == i;
                        assert(packets[k].id == i);
                    }
                    if exists|k: int| 0 <= k < packets.len() && (#[trigger] packets[k]).id == i {
                        let k = choose|k: int|
                            0 <= k < packets.len() && (#[trigger] packets[k]).id == i;
                        assert(front[k].id == i);
                    }
                }
            }
            assert forall|k: int| 0 <= k < after.used.len() implies (#[trigger] after.used[k]).id
                < after.size() by {
                if k < self.used.len() {
                    assert(after.used[k] == self.used[k]);
                } else {
                    assert(after.used[k] == packets[k - self.used.len()]);
                }
            }
        }
    }

    /// After the driver is done with the first `count` of the buffers that
    /// wait, the others wait on, and the device holds what it held and
    /// those.
    pub proof fn lemma_consume(self, count: nat)
        requires
            self.wf(),
            count <= self.used.len(),
        ensures
            self.spec_consume(count).wf(),
            self.spec_consume(count).used == self.used.subrange(
                count as int,
                self.used.len() as int,
            ),
            self.spec_consume(count).buffers == self.buffers,
            self.spec_consume(count).next == self.next,
            self.spec_consume(count).polling == self.polling,
            self.spec_consume(count).with_device.len() == self.with_device.len(),
            forall|i: int|
                0 <= i < self.with_device.len() ==> #[trigger] self.spec_consume(
                    count,
                ).with_device[i] == (self.with_device[i] || exists|k: int|
                    0 <= k < count && (#[trigger] self.used[k]).id == i),
        decreases count,
    {
        if count == 0 {
            assert(self.used.subrange(0, self.used.len() as int) =~= self.used);
        } else {
            let first = self.spec_buffer_consumed();
            assert(self.used[0].id < self.size());
            assert forall|k: int| 0 <= k < first.used.len() implies (#[trigger] first.used[k]).id
                < first.size() by {
                assert(first.used[k] == self.used[k + 1]);
            }
            first.lemma_consume((count - 1) as nat);
            let after = self.spec_consume(count);
            assert(after.used =~= self.used.subrange(count as int, self.used.len() as int));
            assert forall|i: int| 0 <= i < self.with_device.len() implies #[trigger] after.with_device[i]
                == (self.with_device[i] || exists|k: int|
                0 <= k < count && (#[trigger] self.used[k]).id == i) by {
                if exists|k: int| 0 <= k < count - 1 && (#[trigger] first.used[k]).id == i {
                    let k = choose|k: int| 0 <= k < count - 1 && (#[trigger] first.used[k]).id == i;
                    assert(self.used[k + 1].id == i);
                }
                if exists|k: int| 0 <= k < count && (#[trigger] self.used[k]).id == i {
                    let k = choose|k: int| 0 <= k < count && (#[trigger] self.used[k]).id == i;
                    if k > 0 {
                        assert(first.used[k - 1].id == i);
                    }
                }
            }
        }
    }

    /// After the device has handed back a number of packets and the driver
    /// is done with as many, the device holds every buffer it held before,
    /// no packet waits, and the queue is as it was.
    pub proof fn lemma_receive_then_consume(self, packets: Seq<UsedElement>)
        requires
            self.wf(),
            self.used.len() == 0,
            self.spec_deliverable(packets),
        ensures
            self.spec_deliver(packets).spec_consume(packets.len()).used.len() == 0,
            self.spec_deliver(packets).spec_consume(packets.len()) == self,
    {
        self.lemma_deliver(packets);
        let delivered = self.spec_deliver(packets);
        assert(delivered.used =~= packets);
        delivered.lemma_consume(packets.len());
        let after = delivered.spec_consume(packets.len());
        assert(after.used =~= self.used);
        assert(after.with_device =~= self.with_device) by {
            assert forall|i: int| 0 <= i < self.with_device.len() implies after.with_device[i]
                == self.with_device[i] by {
                if exists|k: int| 0 <= k < packets.len() && (#[trigger] packets[k]).id == i {
                    let k = choose|k: int|
                        0 <= k < packets.len() && (#[trigger] packets[k]).id == i;
                    assert(self.spec_device_holds(packets[k].id));
                    assert(delivered.used[k].id == i);
                }
                if exists|k: int|
                    0 <= k < packets.len() && (#[trigger] delivered.used[k]).id == i {
                    let k = choose|k: int|
                        0 <= k < packets.len() && (#[trigger] delivered.used[k]).id == i;
                    assert(packets[k].id == i);
                    assert(self.spec_device_holds(packets[k].id));
                }
            }
        }
    }
}

/// One queue of the transport.
#[derive(Debug)]
pub struct Virtq {
    pub buffers: Vec<Option<QueueBuffer>>,
    pub with_device: Vec<bool>,
    pub used: Vec<UsedElement>,
    pub next: u16,
    pub polling: bool,
}

impl View for Virtq {
    type V = VirtqState;

    open spec fn view(&self) -> VirtqState {
        VirtqState {
            buffers: self.buffers@,
            with_device: self.with_device@,
            used: self.used@,
            next: self.next,
            polling: self.polling,
        }
    }
}

impl Virtq {
    /// A queue of `size` empty slots.
    pub fn new(size: u16) -> (queue: Virtq)
        ensures
            queue@ == VirtqState::spec_new(size),
            queue@.wf(),
    {
        let mut buffers: Vec<Option<QueueBuffer>> = Vec::new();
        let mut with_device: Vec<bool> = Vec::new();
        let mut i: u16 = 0;
        while i < size
            invariant
                i <= size,
                buffers@ == Seq::new(i as nat, |k: int| None::<QueueBuffer>),
                with_device@ == Seq::new(i as nat, |k: int| false),
            decreases size - i,
        {
            buffers.push(None);
            with_device.push(false);
            i = i + 1;
            assert(buffers@ =~= Seq::new(i as nat, |k: int| None::<QueueBuffer>));
            assert(with_device@ =~= Seq::new(i as nat, |k: int| false));
        }
        Virtq { buffers, with_device, used: Vec::new(), next: 0, polling: false }
    }

    /// Registers a buffer in `slot`.
    pub fn add_buffer(&mut self, slot: usize, address: u64, length: usize, flags: u16)
        requires
            old(self)@.wf(),
        ensures
            final(self)@ == old(self)@.spec_add_buffer(slot, address, length, flags),
            final(self)@.wf(),
    {
        if slot < self.buffers.len() {
            self.buffers.set(slot, Some(QueueBuffer { address, length, flags }));
            self.with_device.set(slot, flags & VIRTQ_DESC_F_WRITE != 0);
        }
        assert forall|k: int| 0 <= k < self@.used.len() implies (#[trigger] self@.used[k]).id
            < self@.size() by {
            assert(old(self)@.used[k].id < old(self)@.size());
        }
    }

    /// The slot to use for the next submission.
    pub fn get_available_buffer(&self) -> (index: Result<u32, ()>)
        requires
            self@.wf(),
        ensures
            index.ok() == self@.spec_available(),
    {
        if self.buffers.len() == 0 {
            Err(())
        } else {
            Ok((self.next as usize % self.buffers.len()) as u32)
        }
    }

    /// Submits `len` bytes of the buffer in `index` to the device, without
    /// waiting for it. Fails where the slot holds no buffer or the device
    /// holds the buffer already.
    pub fn send_non_blocking(&mut self, index: usize, len: usize) -> (sent: Result<(), ()>)
        requires
            old(self)@.wf(),
        ensures
            sent is Ok <==> old(self)@.spec_can_send(index),
            final(self)@ == if old(self)@.spec_can_send(index) {
                old(self)@.spec_send(index)
            } else {
                old(self)@
            },
            final(self)@.wf(),
    {
        if index < self.buffers.len() && self.buffers[index].is_some() && !self.with_device[index] {
            self.with_device.set(index, true);
            self.next = self.next.wrapping_add(1);
            assert forall|k: int| 0 <= k < self@.used.len() implies (#[trigger] self@.used[k]).id
                < self@.size() by {
                assert(old(self)@.used[k].id < old(self)@.size());
            }
            Ok(())
        } else {
            Err(())
        }
    }

    /// Takes the oldest buffer that the device has handed back, if there
    /// is one, and returns its slot.
    pub fn check_used_elements(&mut self) -> (index: Option<u32>)
        requires
            old(self)@.wf(),
        ensures
            match index {
                Some(index) => old(self)@.used.len() > 0 && index == old(self)@.used[0].id
                    && final(self)@ == old(self)@.spec_take_used(),
                None => old(self)@.used.len() == 0 && final(self)@ == old(self)@,
            },
            final(self)@.wf(),
    {
        if self.used.len() > 0 {
            let element: UsedElement = self.used.remove(0);
            assert(self.used@ =~= old(self).used@.subrange(1, old(self).used@.len() as int));
            assert forall|k: int| 0 <= k < self@.used.len() implies (#[trigger] self@.used[k]).id
                < self@.size() by {
                assert(old(self)@.used[k + 1].id < old(self)@.size());
            }
            Some(element.id)
        } else {
            None
        }
    }

    /// Whether a buffer that the device has handed back waits.
    pub fn has_packet(&self) -> (waiting: bool)
        ensures
            waiting == (self@.used.len() > 0),
    {
        self.used.len() > 0
    }

    /// The slot and the length of the oldest buffer that the device has
    /// handed back. It goes on waiting.
    pub fn get_used_buffer(&self) -> (element: Result<(u32, u32), ()>)
        ensures
            match element {
                Ok((id, len)) => self@.used.len() > 0 && self@.used[0] == (UsedElement { id, len }),
                Err(_) => self@.used.len() == 0,
            },
    {
        if self.used.len() > 0 {
            let element: UsedElement = self.used[0];
            Ok((element.id, element.len))
        } else {
            Err(())
        }
    }

    /// Gives the oldest buffer that the device has handed back to the
    /// device again.
    pub fn buffer_consumed(&mut self)
        requires
            old(self)@.wf(),
        ensures
            final(self)@ == old(self)@.spec_buffer_consumed(),
            final(self)@.wf(),
    {
        if self.used.len() > 0 {
            let element: UsedElement = self.used.remove(0);
            assert(old(self)@.used[0].id < old(self)@.size());
            self.with_device.set(element.id as usize, true);
            assert(self.used@ =~= old(self).used@.subrange(1, old(self).used@.len() as int));
            assert forall|k: int| 0 <= k < self@.used.len() implies (#[trigger] self@.used[k]).id
                < self@.size() by {
                assert(old(self)@.used[k + 1].id < old(self)@.size());
            }
        }
    }

    /// Sets whether the device is to refrain from interrupts for this
    /// queue.
    pub fn set_polling_mode(&mut self, value: bool)
        ensures
            final(self)@ == (VirtqState { polling: value, ..old(self)@ }),
    {
        self.polling = value;
    }

    /// The device hands back the buffer in `id` with `len` bytes. Returns
    /// whether it could: it must hold the buffer.
    pub fn device_uses(&mut self, id: u32, len: u32) -> (done: bool)
        requires
            old(self)@.wf(),
        ensures
            done == old(self)@.spec_device_holds(id),
            final(self)@ == if done {
                old(self)@.spec_device_uses(id, len)
            } else {
                old(self)@
            },
            final(self)@.wf(),
    {
        if (id as usize) < self.with_device.len() && self.with_device[id as usize] {
            self.with_device.set(id as usize, false);
            self.used.push(UsedElement { id, len });
            assert forall|k: int| 0 <= k < self@.used.len() implies (#[trigger] self@.used[k]).id
                < self@.size() by {
                if k < old(self)@.used.len() {
                    assert(old(self)@.used[k].id < old(self)@.size());
                }
            }
            true
        } else {
            false
        }
    }
}

} // verus!
