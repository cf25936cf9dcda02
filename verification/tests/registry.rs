use virtio_pci_core::adapter::PciAdapter;
use virtio_pci_core::capability::{
    VIRTIO_PCI_CAP_COMMON_CFG, VIRTIO_PCI_CAP_DEVICE_CFG, VIRTIO_PCI_CAP_ISR_CFG,
    VIRTIO_PCI_CAP_NOTIFY_CFG,
};
use virtio_pci_core::config::ConfigSpace;
use virtio_pci_core::net_device::{virtio_net_config, VirtioNetDevice};
use virtio_pci_core::registry::{
    get_filesystem_driver, get_network_driver, init_drivers, is_rtl8139, is_virtio_net,
    register_driver, DriverInit, InitPass, InitRequest, NetworkDriver, PciDriver,
};
use virtio_pci_core::scan::init;
use virtio_pci_core::virtio_net::{create_virtionet_driver, HandshakePhase, VirtioNetDriver};

#[derive(Debug, PartialEq)]
struct Filesystem(u8);

#[derive(Debug, PartialEq)]
struct Realtek(u16);

const REQUIRED: u64 = 0x0001_05A2;

fn registry_config(last: u8) -> virtio_net_config {
    virtio_net_config {
        mac: [0x52, 0x54, 0x00, 0x12, 0x34, last],
        status: 1,
        max_virtqueue_pairs: 1,
        mtu: 1500,
    }
}

fn registry_nic(features: u64, last: u8) -> VirtioNetDevice {
    VirtioNetDevice::new(features, 2, 4, registry_config(last), 0x100_0000 * (last as u64 + 1))
}

fn registry_capability(space: &mut ConfigSpace, bus: u8, device: u8, at: u32, next: u32, kind: u32, offset: u32) {
    space.set_register(bus, device, at, 0x09 | (next << 8) | (0x10 << 16) | (kind << 24), 0);
    space.set_register(bus, device, at + 4, 0, 0);
    space.set_register(bus, device, at + 8, offset, 0);
    space.set_register(bus, device, at + 12, 0x100, 0);
    space.set_register(bus, device, at + 16, 4, 0);
}

fn registry_virtio_device(space: &mut ConfigSpace, bus: u8, device: u8, base: u32) {
    space.add_device(bus, device, 0x1AF4, 0x1000);
    space.set_register(bus, device, 0x04, 0x0010_0000, 0x0000_FFFF);
    space.set_register(bus, device, 0x08, 0x0200_0000, 0);
    space.set_register(bus, device, 0x10, base | 0xC, 0xFFFF_F000);
    space.set_register(bus, device, 0x14, 0, 0xFFFF_FFFF);
    space.set_register(bus, device, 0x34, 0x40, 0);
    space.set_register(bus, device, 0x3C, 0x0000_010B, 0x0000_00FF);
    registry_capability(space, bus, device, 0x40, 0x54, VIRTIO_PCI_CAP_COMMON_CFG, 0x000);
    registry_capability(space, bus, device, 0x54, 0x68, VIRTIO_PCI_CAP_ISR_CFG, 0x100);
    registry_capability(space, bus, device, 0x68, 0x7C, VIRTIO_PCI_CAP_DEVICE_CFG, 0x200);
    registry_capability(space, bus, device, 0x7C, 0x00, VIRTIO_PCI_CAP_NOTIFY_CFG, 0x300);
}

fn registry_adapter(vendor_id: u16, device_id: u16) -> PciAdapter {
    PciAdapter {
        bus: 0,
        device: 0,
        vendor_id,
        device_id,
        class_id: 2,
        subclass_id: 0,
        programming_interface_id: 0,
        base_addresses: vec![],
        irq: 0,
    }
}

fn registry_driver(last: u8) -> VirtioNetDriver {
    let mut space = ConfigSpace::new();
    registry_virtio_device(&mut space, 0, 3, 0x4000_0000);
    let adapters = init(&mut space);
    let mut nic = registry_nic(REQUIRED, last);
    create_virtionet_driver(&space, &adapters[0], &mut nic).unwrap()
}

#[test]
fn scan_and_handshake_register_a_virtio_network_driver() {
    let mut space = ConfigSpace::new();
    registry_virtio_device(&mut space, 0, 3, 0x4000_0000);
    let adapters = init(&mut space);
    assert_eq!(adapters.len(), 1);
    assert_eq!((adapters[0].bus, adapters[0].device), (0, 3));
    assert_eq!(adapters[0].base_addresses.len(), 1);
    let mut nics = vec![registry_nic(REQUIRED | (1 << 32), 7)];
    let mut legacy: Vec<Option<Realtek>> = vec![None];
    let drivers: Vec<PciDriver<Filesystem, VirtioNetDriver, Realtek>> =
        init_drivers(&space, &adapters, &mut nics, &mut legacy);
    assert_eq!(drivers.len(), 1);
    assert_eq!(nics[0].device_status, 15);
    match get_network_driver(&drivers) {
        Some(NetworkDriver::Virtio(driver)) => {
            assert_eq!(driver.phase, HandshakePhase::Live);
            assert_eq!(driver.get_mac_address(), [0x52, 0x54, 0x00, 0x12, 0x34, 7]);
            assert_eq!(driver.regions.common_cfg.address, 0x4000_0000);
            assert_eq!(driver.regions.isr_cfg.address, 0x4000_0100);
            assert_eq!(driver.regions.device_cfg.address, 0x4000_0200);
            assert_eq!(driver.regions.notify_cfg.address, 0x4000_0300);
            assert_eq!(driver.regions.notify_cfg.notify_off_multiplier, 4);
            assert_eq!(driver.queues.rx_buffers.len(), 4);
            assert_eq!(driver.queues.tx_buffers.len(), 4);
        }
        _ => panic!("no virtio network driver"),
    }
    assert!(get_filesystem_driver(&drivers).is_none());
}

#[test]
fn device_without_mac_is_not_registered_while_the_next_one_is() {
    let mut space = ConfigSpace::new();
    registry_virtio_device(&mut space, 0, 3, 0x4000_0000);
    registry_virtio_device(&mut space, 0, 4, 0x5000_0000);
    let adapters = init(&mut space);
    assert_eq!(adapters.len(), 2);
    let mut nics = vec![registry_nic(REQUIRED & !(1 << 5), 1), registry_nic(REQUIRED, 2)];
    let mut legacy: Vec<Option<Realtek>> = vec![None, None];
    let drivers: Vec<PciDriver<Filesystem, VirtioNetDriver, Realtek>> =
        init_drivers(&space, &adapters, &mut nics, &mut legacy);
    assert_eq!(drivers.len(), 1);
    assert_eq!(nics[0].device_status & 8, 0);
    assert_eq!(nics[0].device_status, 3);
    assert_eq!(nics[1].device_status, 15);
    match &drivers[0] {
        PciDriver::VirtioNet(driver) => {
            assert_eq!(driver.get_mac_address()[5], 2);
            assert_eq!(driver.regions.common_cfg.address, 0x5000_0000);
        }
        _ => panic!("not a virtio network driver"),
    }
}

#[test]
fn every_virtio_device_that_comes_to_life_is_registered_in_order() {
    let mut space = ConfigSpace::new();
    registry_virtio_device(&mut space, 0, 3, 0x4000_0000);
    registry_virtio_device(&mut space, 1, 0, 0x5000_0000);
    space.add_device(0, 9, 0x10EC, 0x8139);
    let adapters = init(&mut space);
    assert_eq!(adapters.len(), 3);
    let mut nics =
        vec![registry_nic(REQUIRED, 1), registry_nic(0, 0), registry_nic(REQUIRED, 3)];
    let mut legacy = vec![None, Some(Realtek(9)), None];
    let drivers: Vec<PciDriver<Filesystem, VirtioNetDriver, Realtek>> =
        init_drivers(&space, &adapters, &mut nics, &mut legacy);
    assert_eq!(drivers.len(), 2);
    match get_network_driver(&drivers) {
        Some(NetworkDriver::Virtio(driver)) => assert_eq!(driver.get_mac_address()[5], 1),
        _ => panic!("the first driver is not the first device's"),
    }
    match &drivers[1] {
        PciDriver::VirtioNet(driver) => assert_eq!(driver.get_mac_address()[5], 3),
        _ => panic!("not a virtio network driver"),
    }
    assert_eq!(legacy, vec![None, Some(Realtek(9)), None]);
    assert_eq!(nics[1].device_status, 0);
}

#[test]
fn realtek_is_driven_only_where_no_virtio_device_is() {
    let mut space = ConfigSpace::new();
    registry_virtio_device(&mut space, 0, 3, 0x4000_0000);
    space.add_device(0, 5, 0x10EC, 0x8139);
    space.add_device(0, 6, 0x10EC, 0x8138);
    space.add_device(0, 7, 0x10EC, 0x8137);
    let adapters = init(&mut space);
    assert_eq!(adapters.len(), 4);
    let mut nics = vec![
        registry_nic(REQUIRED & !(1 << 16), 1),
        registry_nic(0, 0),
        registry_nic(0, 0),
        registry_nic(0, 0),
    ];
    let mut legacy = vec![Some(Realtek(3)), Some(Realtek(5)), None, Some(Realtek(7))];
    let drivers: Vec<PciDriver<Filesystem, VirtioNetDriver, Realtek>> =
        init_drivers(&space, &adapters, &mut nics, &mut legacy);
    assert_eq!(drivers.len(), 1);
    match get_network_driver(&drivers) {
        Some(NetworkDriver::Legacy(driver)) => assert_eq!(driver, &Realtek(5)),
        _ => panic!("no legacy driver"),
    }
    assert_eq!(legacy, vec![Some(Realtek(3)), None, None, Some(Realtek(7))]);
}

#[test]
fn virtio_device_without_capabilities_is_not_touched() {
    let mut space = ConfigSpace::new();
    space.add_device(0, 3, 0x1AF4, 0x1000);
    let adapters = init(&mut space);
    let mut nic = registry_nic(REQUIRED, 1);
    nic.device_status = 0x80;
    assert!(create_virtionet_driver(&space, &adapters[0], &mut nic).is_none());
    assert_eq!(nic.device_status, 0x80);
}

#[test]
fn virtio_device_whose_resource_cannot_be_mapped_is_not_touched() {
    let mut space = ConfigSpace::new();
    registry_virtio_device(&mut space, 0, 3, 0x4000_0000);
    space.set_register(0, 3, 0x10, 0x4000_0004, 0xFFFF_F000);
    let adapters = init(&mut space);
    let mut nic = registry_nic(REQUIRED, 1);
    nic.device_status = 0x80;
    assert!(create_virtionet_driver(&space, &adapters[0], &mut nic).is_none());
    assert_eq!(nic.device_status, 0x80);
}

#[test]
fn create_virtionet_driver_fails_with_the_handshake() {
    let mut space = ConfigSpace::new();
    registry_virtio_device(&mut space, 0, 3, 0x4000_0000);
    let adapters = init(&mut space);
    let mut nic = registry_nic(REQUIRED & !(1 << 5), 1);
    assert!(create_virtionet_driver(&space, &adapters[0], &mut nic).is_none());
    assert_eq!(nic.device_status, 3);
    let mut nic = registry_nic(REQUIRED, 1);
    let driver = create_virtionet_driver(&space, &adapters[0], &mut nic).unwrap();
    assert!(driver.is_live());
    assert_eq!(nic.device_status, 15);
}

#[test]
fn first_registered_network_driver_wins() {
    let mut drivers: Vec<PciDriver<Filesystem, VirtioNetDriver, Realtek>> = Vec::new();
    assert!(get_network_driver(&drivers).is_none());
    assert!(get_filesystem_driver(&drivers).is_none());
    register_driver(&mut drivers, PciDriver::VirtioFs(Filesystem(1)));
    assert!(get_network_driver(&drivers).is_none());
    register_driver(&mut drivers, PciDriver::RTL8139Net(Realtek(2)));
    register_driver(&mut drivers, PciDriver::VirtioNet(registry_driver(3)));
    register_driver(&mut drivers, PciDriver::VirtioFs(Filesystem(4)));
    assert_eq!(drivers.len(), 4);
    match get_network_driver(&drivers) {
        Some(NetworkDriver::Legacy(driver)) => assert_eq!(driver, &Realtek(2)),
        _ => panic!("the first network driver is the realtek"),
    }
    assert_eq!(get_filesystem_driver(&drivers), Some(&Filesystem(1)));
}

#[test]
fn driver_kinds_answer_the_capability_queries() {
    let filesystem: PciDriver<Filesystem, VirtioNetDriver, Realtek> = PciDriver::VirtioFs(Filesystem(1));
    assert!(filesystem.get_network_driver().is_none());
    assert_eq!(filesystem.get_filesystem_driver(), Some(&Filesystem(1)));
    let realtek: PciDriver<Filesystem, VirtioNetDriver, Realtek> = PciDriver::RTL8139Net(Realtek(2));
    assert!(matches!(realtek.get_network_driver(), Some(NetworkDriver::Legacy(&Realtek(2)))));
    assert!(realtek.get_filesystem_driver().is_none());
    let virtio: PciDriver<Filesystem, VirtioNetDriver, Realtek> = PciDriver::VirtioNet(registry_driver(5));
    assert!(matches!(virtio.get_network_driver(), Some(NetworkDriver::Virtio(_))));
    assert!(virtio.get_filesystem_driver().is_none());
}

#[test]
fn device_ids_of_the_network_devices() {
    assert!(is_virtio_net(&registry_adapter(0x1AF4, 0x1000)));
    assert!(is_virtio_net(&registry_adapter(0x1AF4, 0x107F)));
    assert!(!is_virtio_net(&registry_adapter(0x1AF4, 0x1080)));
    assert!(!is_virtio_net(&registry_adapter(0x1AF4, 0x0FFF)));
    assert!(!is_virtio_net(&registry_adapter(0x1AF5, 0x1000)));
    assert!(is_rtl8139(&registry_adapter(0x10EC, 0x8138)));
    assert!(is_rtl8139(&registry_adapter(0x10EC, 0x8139)));
    assert!(!is_rtl8139(&registry_adapter(0x10EC, 0x813A)));
    assert!(!is_rtl8139(&registry_adapter(0x10EC, 0x8137)));
    assert!(!is_rtl8139(&registry_adapter(0x1AF4, 0x8139)));
}

#[test]
fn driver_init_names_each_device_in_turn() {
    let adapters = vec![
        registry_adapter(0x8086, 0x100E),
        registry_adapter(0x1AF4, 0x1000),
        registry_adapter(0x10EC, 0x8139),
        registry_adapter(0x1AF4, 0x1041),
    ];
    let mut pass: DriverInit<Filesystem, VirtioNetDriver, Realtek> = DriverInit::new(&adapters);
    assert_eq!(pass.pending(), Some(InitRequest::Virtio { adapter: 1 }));
    pass.legacy_done(&adapters, Some(Realtek(0)));
    assert_eq!(pass.pending(), Some(InitRequest::Virtio { adapter: 1 }));
    assert!(pass.drivers.is_empty());
    pass.virtio_done(&adapters, None);
    assert_eq!(pass.pending(), Some(InitRequest::Virtio { adapter: 3 }));
    pass.virtio_done(&adapters, None);
    assert_eq!(pass.pass, InitPass::Legacy);
    assert_eq!(pass.pending(), Some(InitRequest::Legacy { adapter: 2 }));
    pass.virtio_done(&adapters, Some(registry_driver(1)));
    assert_eq!(pass.pending(), Some(InitRequest::Legacy { adapter: 2 }));
    pass.legacy_done(&adapters, Some(Realtek(2)));
    assert!(pass.is_done());
    assert_eq!(pass.pending(), None);
    let drivers = pass.finish();
    assert_eq!(drivers.len(), 1);
    assert!(matches!(drivers[0], PciDriver::RTL8139Net(Realtek(2))));
}

#[test]
fn driver_init_skips_the_legacy_pass_once_a_virtio_device_is_driven() {
    let adapters = vec![registry_adapter(0x10EC, 0x8139), registry_adapter(0x1AF4, 0x1000)];
    let mut pass: DriverInit<Filesystem, VirtioNetDriver, Realtek> = DriverInit::new(&adapters);
    assert_eq!(pass.pending(), Some(InitRequest::Virtio { adapter: 1 }));
    pass.virtio_done(&adapters, Some(registry_driver(1)));
    assert!(pass.is_done());
    assert!(pass.nic_available);
    assert_eq!(pass.finish().len(), 1);
}

#[test]
fn driver_init_without_network_devices_is_over_at_once() {
    let adapters = vec![registry_adapter(0x8086, 0x100E)];
    let pass: DriverInit<Filesystem, VirtioNetDriver, Realtek> = DriverInit::new(&adapters);
    assert!(pass.is_done());
    let none: Vec<PciAdapter> = vec![];
    let pass: DriverInit<Filesystem, VirtioNetDriver, Realtek> = DriverInit::new(&none);
    assert!(pass.is_done());
    assert!(pass.finish().is_empty());
}
