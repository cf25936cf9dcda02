use virtio_pci_core::bar::{MemoryBar, PciBar};
use virtio_pci_core::config::{read_config, ConfigAccess, ConfigSpace};
use virtio_pci_core::scan::{init, BusScan, ConfigRequest};

fn scan_snapshot(space: &ConfigSpace, bus: u8, device: u8) -> Vec<u32> {
    let mut words = Vec::new();
    let mut register = 0;
    while register < 0x100 {
        words.push(read_config(space, bus, device, register));
        register += 4;
    }
    words
}

#[test]
fn scan_of_an_empty_bus_finds_nothing() {
    let mut space = ConfigSpace::new();
    assert!(init(&mut space).is_empty());
}

#[test]
fn scan_finds_the_virtio_device_with_its_memory_bar() {
    let mut space = ConfigSpace::new();
    space.add_device(0, 3, 0x1AF4, 0x1000);
    space.set_register(0, 3, 0x08, 0x0200_0000, 0);
    space.set_register(0, 3, 0x10, 0x4000_000C, 0xFFFF_F000);
    space.set_register(0, 3, 0x14, 0, 0xFFFF_FFFF);
    space.set_register(0, 3, 0x3C, 0x0000_010B, 0x0000_00FF);
    let before = scan_snapshot(&space, 0, 3);
    let adapters = init(&mut space);
    assert_eq!(adapters.len(), 1);
    assert_eq!(adapters[0].bus, 0);
    assert_eq!(adapters[0].device, 3);
    assert_eq!(adapters[0].vendor_id, 0x1AF4);
    assert_eq!(adapters[0].device_id, 0x1000);
    assert_eq!(adapters[0].class_id, 2);
    assert_eq!(adapters[0].irq, 11);
    assert_eq!(
        adapters[0].base_addresses,
        vec![PciBar::Memory(MemoryBar {
            index: 0,
            addr: 0x4000_0000,
            size: 0x1000,
            width: 64,
            prefetchable: true,
        })]
    );
    assert_eq!(scan_snapshot(&space, 0, 3), before);
}

#[test]
fn scan_records_each_device_once_in_the_order_of_the_bus() {
    let mut space = ConfigSpace::new();
    space.add_device(1, 0, 0x8086, 0x100E);
    space.add_device(0, 31, 0x10EC, 0x8139);
    space.add_device(0, 3, 0x1AF4, 0x1000);
    space.add_device(31, 31, 0x1AF4, 0x1001);
    let adapters = init(&mut space);
    let places: Vec<(u8, u8)> = adapters.iter().map(|a| (a.bus, a.device)).collect();
    assert_eq!(places, vec![(0, 3), (0, 31), (1, 0), (31, 31)]);
    let mut i = 0;
    while i < places.len() {
        let mut j = i + 1;
        while j < places.len() {
            assert_ne!(places[i], places[j]);
            j += 1;
        }
        i += 1;
    }
}

#[test]
fn scan_passes_over_absent_devices_bridges_and_buses_out_of_range() {
    let mut space = ConfigSpace::new();
    space.add_device(0, 1, 0x8086, 0x244E);
    space.set_register(0, 1, 0x0C, 0x0001_0000, 0);
    space.add_device(0, 2, 0xFFFF, 0xFFFF);
    space.add_device(32, 0, 0x1AF4, 0x1000);
    space.add_device(0, 7, 0x1AF4, 0x1000);
    let adapters = init(&mut space);
    assert_eq!(adapters.len(), 1);
    assert_eq!((adapters[0].bus, adapters[0].device), (0, 7));
}

#[test]
fn bus_scan_asks_for_the_id_of_every_place() {
    let mut scan = BusScan::new();
    let mut asked = 0;
    let mut bus = 0;
    while bus < 32 {
        let mut device = 0;
        while device < 32 {
            assert_eq!(
                scan.pending(),
                Some(ConfigRequest { bus, device, access: ConfigAccess::Read { register: 0 } })
            );
            scan.advance(0xFFFF_FFFF);
            asked += 1;
            device += 1;
        }
        bus += 1;
    }
    assert_eq!(asked, 1024);
    assert!(scan.is_done());
    assert_eq!(scan.pending(), None);
    assert!(scan.finish().is_empty());
}

#[test]
fn bus_scan_probes_a_present_device_before_it_moves_on() {
    let mut scan = BusScan::new();
    scan.advance(0x1000_1AF4);
    assert_eq!(
        scan.pending(),
        Some(ConfigRequest { bus: 0, device: 0, access: ConfigAccess::Read { register: 0x0C } })
    );
    scan.advance(0);
    assert_eq!(
        scan.pending(),
        Some(ConfigRequest { bus: 0, device: 0, access: ConfigAccess::Read { register: 0x08 } })
    );
    scan.advance(0x0200_0000);
    let mut register = 0x10;
    while register <= 0x24 {
        assert_eq!(
            scan.pending(),
            Some(ConfigRequest { bus: 0, device: 0, access: ConfigAccess::Read { register } })
        );
        scan.advance(0);
        register += 4;
    }
    assert_eq!(
        scan.pending(),
        Some(ConfigRequest { bus: 0, device: 0, access: ConfigAccess::Read { register: 0x3C } })
    );
    scan.advance(0x0000_0009);
    assert_eq!(
        scan.pending(),
        Some(ConfigRequest { bus: 0, device: 1, access: ConfigAccess::Read { register: 0 } })
    );
    let adapters = scan.finish();
    assert_eq!(adapters.len(), 1);
    assert_eq!(adapters[0].vendor_id, 0x1AF4);
    assert_eq!(adapters[0].device_id, 0x1000);
    assert_eq!(adapters[0].irq, 9);
}
