use virtio_pci_core::virtq::{
    QueueBuffer, UsedElement, Virtq, VIRTQ_DESC_F_DEFAULT, VIRTQ_DESC_F_WRITE,
};

fn receive_queue(size: u16) -> Virtq {
    let mut queue = Virtq::new(size);
    let mut slot = 0;
    while slot < size as usize {
        queue.add_buffer(slot, 0x10_0000 + 0x1000 * slot as u64, 2048, VIRTQ_DESC_F_WRITE);
        slot += 1;
    }
    queue
}

#[test]
fn new_queue_has_empty_slots() {
    let queue = Virtq::new(4);
    assert_eq!(queue.buffers, vec![None, None, None, None]);
    assert_eq!(queue.with_device, vec![false, false, false, false]);
    assert!(queue.used.is_empty());
    assert!(!queue.has_packet());
    assert_eq!(queue.get_available_buffer(), Ok(0));
    assert_eq!(queue.get_used_buffer(), Err(()));
}

#[test]
fn queue_without_slots_has_no_available_buffer() {
    let mut queue = Virtq::new(0);
    assert_eq!(queue.get_available_buffer(), Err(()));
    assert_eq!(queue.send_non_blocking(0, 10), Err(()));
    queue.add_buffer(0, 0x1000, 16, VIRTQ_DESC_F_DEFAULT);
    assert!(queue.buffers.is_empty());
}

#[test]
fn add_buffer_gives_a_writable_buffer_to_the_device() {
    let mut queue = Virtq::new(2);
    queue.add_buffer(0, 0x2000, 65562, VIRTQ_DESC_F_WRITE);
    queue.add_buffer(1, 0x3000, 1510, VIRTQ_DESC_F_DEFAULT);
    queue.add_buffer(2, 0x4000, 1510, VIRTQ_DESC_F_DEFAULT);
    assert_eq!(
        queue.buffers,
        vec![
            Some(QueueBuffer { address: 0x2000, length: 65562, flags: VIRTQ_DESC_F_WRITE }),
            Some(QueueBuffer { address: 0x3000, length: 1510, flags: VIRTQ_DESC_F_DEFAULT }),
        ]
    );
    assert_eq!(queue.with_device, vec![true, false]);
}

#[test]
fn submissions_take_the_slots_in_turn() {
    let mut queue = Virtq::new(2);
    queue.add_buffer(0, 0x2000, 1510, VIRTQ_DESC_F_DEFAULT);
    queue.add_buffer(1, 0x3000, 1510, VIRTQ_DESC_F_DEFAULT);
    assert_eq!(queue.get_available_buffer(), Ok(0));
    assert_eq!(queue.send_non_blocking(0, 100), Ok(()));
    assert_eq!(queue.get_available_buffer(), Ok(1));
    assert_eq!(queue.send_non_blocking(0, 100), Err(()));
    assert_eq!(queue.get_available_buffer(), Ok(1));
    assert_eq!(queue.send_non_blocking(1, 100), Ok(()));
    assert_eq!(queue.get_available_buffer(), Ok(0));
    assert_eq!(queue.send_non_blocking(2, 100), Err(()));
    assert_eq!(queue.with_device, vec![true, true]);
}

#[test]
fn submission_of_an_empty_slot_fails() {
    let mut queue = Virtq::new(2);
    assert_eq!(queue.send_non_blocking(0, 100), Err(()));
    assert_eq!(queue.next, 0);
    assert_eq!(queue.with_device, vec![false, false]);
}

#[test]
fn completions_are_taken_oldest_first() {
    let mut queue = Virtq::new(3);
    let mut slot = 0;
    while slot < 3 {
        queue.add_buffer(slot, 0x1000 * slot as u64, 1510, VIRTQ_DESC_F_DEFAULT);
        assert_eq!(queue.send_non_blocking(slot, 64), Ok(()));
        slot += 1;
    }
    assert!(queue.device_uses(2, 74));
    assert!(queue.device_uses(0, 74));
    assert!(!queue.device_uses(0, 74));
    assert!(!queue.device_uses(5, 74));
    assert_eq!(queue.check_used_elements(), Some(2));
    assert_eq!(queue.check_used_elements(), Some(0));
    assert_eq!(queue.check_used_elements(), None);
    assert_eq!(queue.with_device, vec![false, true, false]);
}

#[test]
fn received_packet_waits_until_it_is_consumed() {
    let mut queue = receive_queue(2);
    assert!(queue.device_uses(1, 60));
    assert!(queue.has_packet());
    assert_eq!(queue.get_used_buffer(), Ok((1, 60)));
    assert_eq!(queue.get_used_buffer(), Ok((1, 60)));
    assert_eq!(queue.with_device, vec![true, false]);
    queue.buffer_consumed();
    assert!(!queue.has_packet());
    assert_eq!(queue.get_used_buffer(), Err(()));
    assert_eq!(queue.with_device, vec![true, true]);
    queue.buffer_consumed();
    assert_eq!(queue.with_device, vec![true, true]);
}

#[test]
fn n_packets_and_n_consumptions_restore_the_queue() {
    let mut queue = receive_queue(8);
    let before_buffers = queue.buffers.clone();
    let before_with_device = queue.with_device.clone();
    let ids = [3u32, 0, 7, 5, 1];
    for (k, id) in ids.iter().enumerate() {
        assert!(queue.device_uses(*id, 100 + k as u32));
    }
    assert_eq!(
        queue.used,
        vec![
            UsedElement { id: 3, len: 100 },
            UsedElement { id: 0, len: 101 },
            UsedElement { id: 7, len: 102 },
            UsedElement { id: 5, len: 103 },
            UsedElement { id: 1, len: 104 },
        ]
    );
    let mut consumed = 0;
    while consumed < ids.len() {
        assert!(queue.has_packet());
        assert_eq!(queue.get_used_buffer(), Ok((ids[consumed], 100 + consumed as u32)));
        queue.buffer_consumed();
        consumed += 1;
    }
    assert!(!queue.has_packet());
    assert_eq!(queue.with_device, before_with_device);
    assert_eq!(queue.buffers, before_buffers);
    assert_eq!(queue.next, 0);
}

#[test]
fn polling_mode_is_kept() {
    let mut queue = Virtq::new(1);
    assert!(!queue.polling);
    queue.set_polling_mode(true);
    assert!(queue.polling);
    queue.set_polling_mode(false);
    assert!(!queue.polling);
}
