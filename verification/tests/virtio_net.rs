use virtio_pci_core::adapter::BarMapping;
use virtio_pci_core::capability::{MappedCapability, VirtioRegions};
use virtio_pci_core::features::{
    features_accepted, negotiate, required_features, FeatureNegotiation, NegotiationPhase,
};
use virtio_pci_core::net_device::{virtio_net_config, NetAccess, VirtioNetDevice};
use virtio_pci_core::queues::{
    align_up, setup_queues, QueueSetup, RxBuffer, SetupPhase, TxBuffer,
};
use virtio_pci_core::virtio_net::{
    virtio_net_hdr, virtio_net_hdr_legacy, HandshakePhase, VirtioNetDriver,
};
use virtio_pci_core::virtq::{QueueBuffer, VIRTQ_DESC_F_DEFAULT, VIRTQ_DESC_F_WRITE};

const HEAP: u64 = 0x100_0000;
const ALL_REQUIRED: u64 = 0x0001_05A2;

fn net_config() -> virtio_net_config {
    virtio_net_config {
        mac: [0x52, 0x54, 0x00, 0x12, 0x34, 0x56],
        status: 1,
        max_virtqueue_pairs: 1,
        mtu: 9000,
    }
}

fn net_capability(address: u64) -> MappedCapability {
    MappedCapability {
        mapping: BarMapping {
            physical_address: 0x4000_0000,
            virtual_address: 0x4000_0000,
            size: 0x4000,
            writable: true,
            executable: false,
            no_cache: true,
        },
        address,
        length: 0x100,
        notify_off_multiplier: 0,
    }
}

fn net_regions() -> VirtioRegions {
    VirtioRegions {
        common_cfg: net_capability(0x4000_0000),
        device_cfg: net_capability(0x4000_2000),
        isr_cfg: net_capability(0x4000_1000),
        notify_cfg: net_capability(0x4000_3000),
    }
}

fn net_device(features: u64, queue_size: u16) -> VirtioNetDevice {
    VirtioNetDevice::new(features, 2, queue_size, net_config(), HEAP)
}

fn live_driver(queue_size: u16) -> (VirtioNetDriver, VirtioNetDevice) {
    let mut device = net_device(ALL_REQUIRED | (1 << 32), queue_size);
    let mut driver = VirtioNetDriver::new(net_config(), net_regions());
    driver.init(&mut device);
    assert!(driver.is_live());
    (driver, device)
}

#[test]
fn header_init_asks_for_no_offload() {
    let mut header = virtio_net_hdr {
        flags: 3,
        gso_type: 4,
        hdr_len: 54,
        gso_size: 1448,
        csum_start: 34,
        csum_offset: 16,
    };
    header.init(1500);
    assert_eq!(
        header,
        virtio_net_hdr {
            flags: 0,
            gso_type: 0,
            hdr_len: 0,
            gso_size: 0,
            csum_start: 0,
            csum_offset: 0
        }
    );
    assert_eq!(virtio_net_hdr::new(), header);
    assert_eq!(VirtioNetDriver::tx_header(64), header);
}

#[test]
fn legacy_header_init_asks_for_no_offload() {
    let mut header = virtio_net_hdr_legacy {
        flags: 1,
        gso_type: 1,
        hdr_len: 54,
        gso_size: 1448,
        csum_start: 34,
        csum_offset: 16,
        num_buffers: 3,
    };
    header.init(0);
    assert_eq!(
        header,
        virtio_net_hdr_legacy {
            flags: 0,
            gso_type: 0,
            hdr_len: 0,
            gso_size: 0,
            csum_start: 0,
            csum_offset: 0,
            num_buffers: 0,
        }
    );
}

#[test]
fn buffers_take_whole_pages() {
    assert_eq!(align_up(0), 0);
    assert_eq!(align_up(1), 4096);
    assert_eq!(align_up(4096), 4096);
    assert_eq!(align_up(4097), 8192);
    assert_eq!(align_up(65562), 69632);
    assert_eq!(RxBuffer::allocation_size(65562), 69632);
    assert_eq!(RxBuffer::new(0x8000, 65562), RxBuffer { addr: 0x8000, len: 69632 });
    assert_eq!(TxBuffer::allocation_size(1500), 4096);
    assert_eq!(TxBuffer::allocation_size(4086), 4096);
    assert_eq!(TxBuffer::allocation_size(4087), 8192);
    assert_eq!(
        TxBuffer::new(0x9000, 1500),
        TxBuffer { addr: 0x9000, len: 4096, in_use: false }
    );
}

#[test]
fn required_features_are_mac_status_and_guest_offloads() {
    assert_eq!(
        required_features(),
        (1 << 5) | (1 << 16) | (1 << 10) | (1 << 7) | (1 << 8) | (1 << 1)
    );
    assert_eq!(required_features(), 0x0001_05A2);
}

#[test]
fn features_are_accepted_iff_all_required_are_offered() {
    assert!(features_accepted(ALL_REQUIRED));
    assert!(features_accepted(u64::MAX));
    assert!(features_accepted(ALL_REQUIRED | (1 << 61)));
    assert!(!features_accepted(0));
    let mut bit = 0;
    while bit < 64 {
        let lacking = u64::MAX & !(1u64 << bit);
        assert_eq!(features_accepted(lacking), ALL_REQUIRED & (1u64 << bit) == 0);
        bit += 1;
    }
}

#[test]
fn negotiation_reads_both_words_and_accepts_the_required_features() {
    let mut device = net_device(0x8000_0001_0001_05A3, 4);
    let negotiation = negotiate(&mut device);
    assert_eq!(negotiation.phase, NegotiationPhase::Accepted);
    assert!(negotiation.is_accepted());
    assert_eq!(negotiation.device_features(), 0x8000_0001_0001_05A3);
    assert_eq!(device.driver_features, 0x0001_05A2);
    assert_eq!(device.driver_feature_select, 0);
    assert_eq!(device.device_feature_select, 1);
}

#[test]
fn negotiation_rejects_a_device_without_mac_and_writes_nothing() {
    let mut device = net_device(ALL_REQUIRED & !(1 << 5), 4);
    let negotiation = negotiate(&mut device);
    assert_eq!(negotiation.phase, NegotiationPhase::Rejected);
    assert!(!negotiation.is_accepted());
    assert_eq!(negotiation.device_features(), 0x0001_0582);
    assert_eq!(device.driver_features, 0);
}

#[test]
fn negotiation_names_each_access_in_turn() {
    let mut negotiation = FeatureNegotiation::new();
    assert_eq!(negotiation.pending(), Some(NetAccess::SelectDeviceFeatures { word: 0 }));
    negotiation.advance(0);
    assert_eq!(negotiation.pending(), Some(NetAccess::ReadDeviceFeatures));
    negotiation.advance(0x0001_05A2);
    assert_eq!(negotiation.pending(), Some(NetAccess::SelectDeviceFeatures { word: 1 }));
    negotiation.advance(0);
    assert_eq!(negotiation.pending(), Some(NetAccess::ReadDeviceFeatures));
    negotiation.advance(0x2000_0001);
    assert_eq!(negotiation.device_features(), 0x2000_0001_0001_05A2);
    assert_eq!(negotiation.pending(), Some(NetAccess::SelectDriverFeatures { word: 0 }));
    negotiation.advance(0);
    assert_eq!(negotiation.pending(), Some(NetAccess::SetDriverFeatures { bits: 0x0001_05A2 }));
    negotiation.advance(0);
    assert!(negotiation.has_ended());
    assert!(negotiation.is_accepted());
    assert_eq!(negotiation.pending(), None);
}

#[test]
fn queue_setup_fills_both_queues() {
    let mut device = net_device(ALL_REQUIRED, 3);
    let setup = setup_queues(&mut device, 1500);
    assert_eq!(setup.phase, SetupPhase::Ready);
    assert!(setup.is_ready());
    assert_eq!(setup.queue_size, 3);
    assert_eq!(
        setup.rx_buffers,
        vec![
            RxBuffer { addr: HEAP, len: 69632 },
            RxBuffer { addr: HEAP + 69632, len: 69632 },
            RxBuffer { addr: HEAP + 2 * 69632, len: 69632 },
        ]
    );
    let tx_heap = HEAP + 3 * 69632;
    assert_eq!(
        setup.tx_buffers,
        vec![
            TxBuffer { addr: tx_heap, len: 4096, in_use: false },
            TxBuffer { addr: tx_heap + 4096, len: 4096, in_use: false },
            TxBuffer { addr: tx_heap + 8192, len: 4096, in_use: false },
        ]
    );
    assert_eq!(device.queues.len(), 2);
    assert_eq!(
        device.queues[0].buffers[1],
        Some(QueueBuffer { address: HEAP + 69632, length: 65562, flags: VIRTQ_DESC_F_WRITE })
    );
    assert_eq!(device.queues[0].with_device, vec![true, true, true]);
    assert_eq!(
        device.queues[1].buffers[2],
        Some(QueueBuffer { address: tx_heap + 8192, length: 1510, flags: VIRTQ_DESC_F_DEFAULT })
    );
    assert_eq!(device.queues[1].with_device, vec![false, false, false]);
    assert_eq!(device.next_address, tx_heap + 3 * 4096);
}

#[test]
fn queue_setup_fails_without_a_transmit_queue() {
    let mut device = VirtioNetDevice::new(ALL_REQUIRED, 1, 4, net_config(), HEAP);
    let setup = setup_queues(&mut device, 1500);
    assert_eq!(setup.phase, SetupPhase::Failed);
    assert!(setup.rx_buffers.is_empty());
    assert!(setup.tx_buffers.is_empty());
    assert_eq!(device.queues.len(), 1);
    assert_eq!(device.next_address, HEAP);
}

#[test]
fn queue_setup_names_each_access_in_turn() {
    let mut setup = QueueSetup::new(1500);
    assert_eq!(setup.pending(), Some(NetAccess::CreateQueue { index: 0 }));
    setup.advance(1);
    assert_eq!(setup.pending(), Some(NetAccess::CreateQueue { index: 1 }));
    setup.advance(1);
    assert_eq!(setup.pending(), Some(NetAccess::ReadQueueSize));
    setup.advance(1);
    assert_eq!(setup.pending(), Some(NetAccess::Allocate { size: 69632 }));
    setup.advance(0x20_0000);
    assert_eq!(
        setup.pending(),
        Some(NetAccess::AddBuffer {
            queue: 0,
            slot: 0,
            address: 0x20_0000,
            length: 65562,
            flags: VIRTQ_DESC_F_WRITE,
        })
    );
    setup.advance(0);
    assert_eq!(setup.pending(), Some(NetAccess::Allocate { size: 4096 }));
    setup.advance(0x30_0000);
    assert_eq!(
        setup.pending(),
        Some(NetAccess::AddBuffer {
            queue: 1,
            slot: 0,
            address: 0x30_0000,
            length: 1510,
            flags: VIRTQ_DESC_F_DEFAULT,
        })
    );
    setup.advance(0);
    assert!(setup.has_ended());
    assert!(setup.is_ready());
    assert_eq!(setup.pending(), None);
    assert_eq!(setup.rx_buffers, vec![RxBuffer { addr: 0x20_0000, len: 69632 }]);
    assert_eq!(setup.tx_buffers, vec![TxBuffer { addr: 0x30_0000, len: 4096, in_use: false }]);
}

#[test]
fn queue_setup_fails_when_a_queue_cannot_be_created() {
    let mut setup = QueueSetup::new(1500);
    setup.advance(0);
    assert_eq!(setup.phase, SetupPhase::Failed);
    assert_eq!(setup.pending(), None);
}

#[test]
fn handshake_brings_a_compliant_device_to_life() {
    let mut device = net_device(ALL_REQUIRED | (1 << 3), 2);
    device.device_status = 0x40;
    device.driver_features = 0xFFFF;
    let mut driver = VirtioNetDriver::new(net_config(), net_regions());
    driver.init(&mut device);
    assert_eq!(driver.phase, HandshakePhase::Live);
    assert!(driver.is_live());
    assert!(driver.has_ended());
    assert_eq!(device.device_status, 15);
    assert_eq!(device.driver_features, 0x0001_05A2);
    assert_eq!(device.queues.len(), 2);
    assert_eq!(driver.queues.rx_buffers.len(), 2);
    assert_eq!(driver.queues.tx_buffers.len(), 2);
    assert_eq!(driver.queues.rx_buffers[0], RxBuffer { addr: HEAP, len: 69632 });
    assert_eq!(
        driver.queues.tx_buffers[1],
        TxBuffer { addr: HEAP + 2 * 69632 + 4096, len: 4096, in_use: false }
    );
    assert_eq!(driver.regions, net_regions());
}

#[test]
fn handshake_never_sets_features_ok_for_a_device_without_mac() {
    let mut device = net_device(ALL_REQUIRED & !(1 << 5), 2);
    let mut driver = VirtioNetDriver::new(net_config(), net_regions());
    driver.init(&mut device);
    assert_eq!(driver.phase, HandshakePhase::Failed);
    assert!(!driver.is_live());
    assert_eq!(device.device_status & 8, 0);
    assert_eq!(device.device_status, 3);
    assert_eq!(device.driver_features, 0);
    assert!(device.queues.is_empty());
    assert!(driver.queues.rx_buffers.is_empty());
    assert!(driver.queues.tx_buffers.is_empty());
}

#[test]
fn handshake_fails_for_each_missing_required_feature() {
    for bit in [1u64, 5, 7, 8, 10, 16] {
        let mut device = net_device(u64::MAX & !(1 << bit), 2);
        let mut driver = VirtioNetDriver::new(net_config(), net_regions());
        driver.init(&mut device);
        assert_eq!(driver.phase, HandshakePhase::Failed);
        assert_eq!(device.device_status & 8, 0);
    }
}

#[test]
fn handshake_fails_when_the_device_takes_features_ok_back() {
    let mut device = net_device(ALL_REQUIRED, 2);
    device.refuses_features = true;
    let mut driver = VirtioNetDriver::new(net_config(), net_regions());
    driver.init(&mut device);
    assert_eq!(driver.phase, HandshakePhase::Failed);
    assert_eq!(device.device_status, 3);
    assert_eq!(device.driver_features, 0x0001_05A2);
    assert!(device.queues.is_empty());
}

#[test]
fn handshake_fails_without_queues() {
    let mut device = VirtioNetDevice::new(ALL_REQUIRED, 0, 4, net_config(), HEAP);
    let mut driver = VirtioNetDriver::new(net_config(), net_regions());
    driver.init(&mut device);
    assert_eq!(driver.phase, HandshakePhase::Failed);
    assert_eq!(device.device_status, 11);
    let mut device = net_device(ALL_REQUIRED, 0);
    driver.init(&mut device);
    assert_eq!(driver.phase, HandshakePhase::Failed);
    assert_eq!(device.device_status, 11);
}

#[test]
fn handshake_names_the_status_writes_in_order() {
    let mut driver = VirtioNetDriver::new(net_config(), net_regions());
    assert_eq!(driver.pending(), Some(NetAccess::WriteStatus { status: 0 }));
    driver.advance(0);
    assert_eq!(driver.pending(), Some(NetAccess::SetStatus { bits: 1 }));
    driver.advance(0);
    assert_eq!(driver.pending(), Some(NetAccess::SetStatus { bits: 2 }));
    driver.advance(0);
    assert_eq!(driver.pending(), Some(NetAccess::SelectDeviceFeatures { word: 0 }));
    driver.advance(0);
    driver.advance(0x0001_05A2);
    driver.advance(0);
    driver.advance(0);
    driver.advance(0);
    assert_eq!(driver.pending(), Some(NetAccess::SetDriverFeatures { bits: 0x0001_05A2 }));
    driver.advance(0);
    assert_eq!(driver.pending(), Some(NetAccess::SetStatus { bits: 8 }));
    driver.advance(0);
    assert_eq!(driver.pending(), Some(NetAccess::ReadStatus));
    driver.advance(11);
    assert_eq!(driver.pending(), Some(NetAccess::CreateQueue { index: 0 }));
    driver.advance(1);
    driver.advance(1);
    driver.advance(1);
    driver.advance(0x10_0000);
    driver.advance(0);
    driver.advance(0x20_0000);
    driver.advance(0);
    assert_eq!(driver.pending(), Some(NetAccess::SetStatus { bits: 4 }));
    driver.advance(0);
    assert!(driver.is_live());
    assert_eq!(driver.pending(), None);
}

#[test]
fn handshake_stops_when_the_status_read_lacks_features_ok() {
    let mut driver = VirtioNetDriver::new(net_config(), net_regions());
    let mut steps = 0;
    while driver.pending() != Some(NetAccess::ReadStatus) {
        let reply = if driver.pending() == Some(NetAccess::ReadDeviceFeatures) {
            0xFFFF_FFFF
        } else {
            0
        };
        driver.advance(reply);
        steps += 1;
        assert!(steps < 20);
    }
    driver.advance(3);
    assert_eq!(driver.phase, HandshakePhase::Failed);
    assert_eq!(driver.pending(), None);
}

#[test]
fn handshake_after_rejection_issues_no_further_access() {
    let mut driver = VirtioNetDriver::new(net_config(), net_regions());
    let mut writes = Vec::new();
    while let Some(access) = driver.pending() {
        writes.push(access);
        driver.advance(0);
    }
    assert_eq!(driver.phase, HandshakePhase::Failed);
    assert!(!writes.contains(&NetAccess::SetStatus { bits: 8 }));
    assert!(!writes.contains(&NetAccess::SetStatus { bits: 4 }));
    assert_eq!(writes.len(), 7);
}

#[test]
fn negotiate_features_and_init_vqs_on_the_driver() {
    let mut device = net_device(ALL_REQUIRED, 1);
    let mut driver = VirtioNetDriver::new(net_config(), net_regions());
    driver.negotiate_features(&mut device);
    assert!(driver.negotiation.is_accepted());
    assert_eq!(device.driver_features, 0x0001_05A2);
    driver.init_vqs(&mut device);
    assert!(driver.queues.is_ready());
    assert_eq!(driver.queues.rx_buffers.len(), 1);
    assert_eq!(driver.queues.tx_buffers.len(), 1);
    assert_eq!(driver.phase, HandshakePhase::Reset);
}

#[test]
fn mtu_is_1500_and_mac_is_the_devices() {
    let driver = VirtioNetDriver::new(net_config(), net_regions());
    assert_eq!(driver.get_mtu(), 1500);
    assert_eq!(driver.get_mac_address(), [0x52, 0x54, 0x00, 0x12, 0x34, 0x56]);
    assert!(driver.link_is_up());
    let mut config = net_config();
    config.status = 2;
    assert!(!VirtioNetDriver::new(config, net_regions()).link_is_up());
}

#[test]
fn tx_buffer_is_in_use_from_hand_out_to_completion() {
    let (mut driver, mut device) = live_driver(2);
    let tx0 = driver.queues.tx_buffers[0].addr;
    let tx1 = driver.queues.tx_buffers[1].addr;
    assert!(driver.has_free_tx_buffer());
    assert_eq!(driver.get_tx_buffer(&mut device, 100), Ok((tx0 + 10, 0)));
    assert!(driver.queues.tx_buffers[0].in_use);
    assert!(!driver.queues.tx_buffers[1].in_use);
    assert_eq!(driver.get_tx_buffer(&mut device, 100), Err(()));
    assert_eq!(driver.send_tx_buffer(&mut device, 0, 100), Ok(()));
    assert_eq!(driver.get_tx_buffer(&mut device, 200), Ok((tx1 + 10, 1)));
    assert_eq!(driver.send_tx_buffer(&mut device, 1, 200), Ok(()));
    assert!(!driver.has_free_tx_buffer());
    assert_eq!(driver.get_tx_buffer(&mut device, 300), Err(()));
    assert!(driver.queues.tx_buffers[0].in_use);
    assert!(driver.queues.tx_buffers[1].in_use);
    assert!(device.device_uses(1, 0, 110));
    assert!(driver.queues.tx_buffers[0].in_use);
    assert_eq!(driver.get_tx_buffer(&mut device, 300), Ok((tx0 + 10, 0)));
    assert!(driver.queues.tx_buffers[0].in_use);
    assert!(driver.queues.tx_buffers[1].in_use);
    assert!(device.queues[1].used.is_empty());
}

#[test]
fn check_used_elements_frees_every_completed_buffer() {
    let (mut driver, mut device) = live_driver(4);
    let mut slot = 0;
    while slot < 4 {
        assert_eq!(driver.get_tx_buffer(&mut device, 64).map(|grant| grant.1), Ok(slot));
        assert_eq!(driver.send_tx_buffer(&mut device, slot, 64), Ok(()));
        slot += 1;
    }
    assert!(device.device_uses(1, 2, 74));
    assert!(device.device_uses(1, 0, 74));
    driver.check_used_elements(&mut device);
    let in_use: Vec<bool> = driver.queues.tx_buffers.iter().map(|b| b.in_use).collect();
    assert_eq!(in_use, vec![false, true, false, true]);
    assert!(device.queues[1].used.is_empty());
    driver.check_used_elements(&mut device);
    let in_use: Vec<bool> = driver.queues.tx_buffers.iter().map(|b| b.in_use).collect();
    assert_eq!(in_use, vec![false, true, false, true]);
}

#[test]
fn claim_and_reclaim_by_slot() {
    let (mut driver, _device) = live_driver(3);
    let tx2 = driver.queues.tx_buffers[2].addr;
    assert_eq!(driver.claim_tx_buffer(2, 60), Ok((tx2 + 10, 2)));
    assert_eq!(driver.claim_tx_buffer(2, 60), Err(()));
    assert_eq!(driver.claim_tx_buffer(3, 60), Err(()));
    driver.reclaim(&vec![7, 2]);
    assert!(!driver.queues.tx_buffers[2].in_use);
    assert_eq!(driver.claim_tx_buffer(2, 60), Ok((tx2 + 10, 2)));
}

#[test]
fn claim_fails_where_the_payload_would_lie_behind_the_last_address() {
    let (mut driver, _device) = live_driver(1);
    driver.queues.tx_buffers[0].addr = u64::MAX - 9;
    assert_eq!(driver.claim_tx_buffer(0, 60), Err(()));
    assert!(!driver.queues.tx_buffers[0].in_use);
    driver.queues.tx_buffers[0].addr = u64::MAX - 10;
    assert_eq!(driver.claim_tx_buffer(0, 60), Ok((u64::MAX, 0)));
}

#[test]
fn send_tx_buffer_submits_packet_and_header() {
    let (mut driver, mut device) = live_driver(2);
    assert_eq!(VirtioNetDriver::tx_length(100), Some(110));
    assert_eq!(VirtioNetDriver::tx_length(usize::MAX - 10), Some(usize::MAX));
    assert_eq!(VirtioNetDriver::tx_length(usize::MAX - 9), None);
    assert_eq!(driver.send_tx_buffer(&mut device, 0, usize::MAX), Err(()));
    assert_eq!(driver.send_tx_buffer(&mut device, 5, 100), Err(()));
    assert_eq!(device.queues[1].next, 0);
    assert_eq!(driver.send_tx_buffer(&mut device, 0, 100), Ok(()));
    assert_eq!(device.queues[1].next, 1);
    assert_eq!(device.queues[1].with_device, vec![true, false]);
    assert_eq!(driver.send_tx_buffer(&mut device, 0, 100), Err(()));
}

#[test]
fn received_packets_are_read_behind_the_header() {
    let (mut driver, mut device) = live_driver(4);
    assert!(!driver.has_packet(&device));
    assert_eq!(driver.receive_rx_buffer(&device), Err(()));
    assert!(device.device_uses(0, 2, 1514));
    assert!(device.device_uses(0, 0, 60));
    assert!(driver.has_packet(&device));
    let rx2 = driver.queues.rx_buffers[2].addr;
    let rx0 = driver.queues.rx_buffers[0].addr;
    assert_eq!(driver.receive_rx_buffer(&device), Ok((rx2 + 10, 1514)));
    assert_eq!(driver.receive_rx_buffer(&device), Ok((rx2 + 10, 1514)));
    driver.rx_buffer_consumed(&mut device);
    assert_eq!(driver.receive_rx_buffer(&device), Ok((rx0 + 10, 60)));
    driver.rx_buffer_consumed(&mut device);
    assert!(!driver.has_packet(&device));
    assert_eq!(device.queues[0].with_device, vec![true, true, true, true]);
    assert_eq!(driver.rx_payload(4, 60), Err(()));
    assert_eq!(driver.rx_payload(3, 60), Ok((driver.queues.rx_buffers[3].addr + 10, 60)));
}

#[test]
fn n_received_packets_and_n_consumptions_leave_none_waiting() {
    let (mut driver, mut device) = live_driver(8);
    let before = device.queues[0].with_device.clone();
    let mut id = 0;
    while id < 8 {
        assert!(device.device_uses(0, id, 64 + id));
        id += 1;
    }
    assert_eq!(device.queues[0].with_device, vec![false; 8]);
    let mut consumed = 0;
    while consumed < 8 {
        assert!(driver.has_packet(&device));
        driver.rx_buffer_consumed(&mut device);
        consumed += 1;
    }
    assert!(!driver.has_packet(&device));
    assert_eq!(device.queues[0].with_device, before);
}

#[test]
fn interrupt_status_bit_zero_signals_the_queues() {
    let (mut driver, mut device) = live_driver(1);
    assert!(!driver.handle_interrupt(&mut device));
    device.raise_interrupt(1);
    assert!(driver.handle_interrupt(&mut device));
    assert_eq!(device.isr_status, 0);
    assert!(!driver.handle_interrupt(&mut device));
    device.raise_interrupt(2);
    assert!(!driver.handle_interrupt(&mut device));
    device.raise_interrupt(3);
    assert!(driver.handle_interrupt(&mut device));
    assert!(VirtioNetDriver::queues_updated(0xFFFF_FFFF));
    assert!(!VirtioNetDriver::queues_updated(0xFFFF_FFFE));
}

#[test]
fn polling_mode_is_set_on_the_receive_queue() {
    let (mut driver, mut device) = live_driver(1);
    driver.set_polling_mode(&mut device, true);
    assert!(device.queues[0].polling);
    assert!(!device.queues[1].polling);
    driver.set_polling_mode(&mut device, false);
    assert!(!device.queues[0].polling);
}

#[test]
fn device_model_answers_each_access() {
    let mut device = net_device(0x0000_0002_0000_0001, 2);
    assert_eq!(device.access(NetAccess::SetStatus { bits: 3 }), 0);
    assert_eq!(device.access(NetAccess::ReadStatus), 3);
    assert_eq!(device.access(NetAccess::ReadDeviceFeatures), 1);
    device.access(NetAccess::SelectDeviceFeatures { word: 1 });
    assert_eq!(device.access(NetAccess::ReadDeviceFeatures), 2);
    device.access(NetAccess::SelectDeviceFeatures { word: 2 });
    assert_eq!(device.access(NetAccess::ReadDeviceFeatures), 0);
    device.access(NetAccess::SelectDriverFeatures { word: 1 });
    device.access(NetAccess::SetDriverFeatures { bits: 2 });
    assert_eq!(device.driver_features, 0x0000_0002_0000_0000);
    device.access(NetAccess::SetStatus { bits: 8 });
    assert_eq!(device.device_status, 11);
    device.access(NetAccess::SelectDriverFeatures { word: 0 });
    device.access(NetAccess::SetDriverFeatures { bits: 4 });
    device.access(NetAccess::WriteStatus { status: 11 });
    assert_eq!(device.device_status, 3);
    assert_eq!(device.access(NetAccess::CreateQueue { index: 1 }), 0);
    assert_eq!(device.access(NetAccess::CreateQueue { index: 0 }), 1);
    assert_eq!(device.access(NetAccess::CreateQueue { index: 0 }), 0);
    assert_eq!(device.access(NetAccess::CreateQueue { index: 1 }), 1);
    assert_eq!(device.access(NetAccess::CreateQueue { index: 2 }), 0);
    assert_eq!(device.access(NetAccess::ReadQueueSize), 2);
    assert_eq!(device.access(NetAccess::Allocate { size: 4096 }), HEAP);
    assert_eq!(device.access(NetAccess::Allocate { size: 4096 }), HEAP + 4096);
    device.access(NetAccess::WriteStatus { status: 0 });
    assert_eq!(device.device_status, 0);
    assert_eq!(device.driver_features, 0);
    assert!(device.queues.is_empty());
}

#[test]
fn get_tx_buffer_writes_a_plain_header_to_the_buffer() {
    let (mut driver, mut device) = live_driver(2);
    assert!(device.headers.is_empty());
    let tx0 = driver.queues.tx_buffers[0].addr;
    device.write_header(
        tx0,
        virtio_net_hdr {
            flags: 1,
            gso_type: 1,
            hdr_len: 54,
            gso_size: 1448,
            csum_start: 34,
            csum_offset: 16,
        },
    );
    assert_eq!(driver.get_tx_buffer(&mut device, 100), Ok((tx0 + 10, 0)));
    assert_eq!(device.headers.len(), 1);
    assert_eq!(device.headers.get(&tx0), Some(&virtio_net_hdr::new()));
    assert_eq!(driver.get_tx_buffer(&mut device, 100), Err(()));
    assert_eq!(device.headers.len(), 1);
}
