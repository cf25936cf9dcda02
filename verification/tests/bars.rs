use virtio_pci_core::bar::{
    bar_register, parse_bars, probed_size, BarScan, IOBar, MemoryBar, PciBar,
};
use virtio_pci_core::config::{read_config, ConfigAccess, ConfigSpace};

fn bars_device(space: &mut ConfigSpace, bus: u8, device: u8) {
    space.add_device(bus, device, 0x1AF4, 0x1000);
}

fn bars_snapshot(space: &ConfigSpace, bus: u8, device: u8) -> Vec<u32> {
    let mut words = Vec::new();
    let mut register = 0;
    while register < 0x100 {
        words.push(read_config(space, bus, device, register));
        register += 4;
    }
    words
}

#[test]
fn parse_bars_reports_a_64_bit_prefetchable_region() {
    let mut space = ConfigSpace::new();
    bars_device(&mut space, 0, 3);
    space.set_register(0, 3, 0x10, 0x4000_000C, 0xFFFF_F000);
    space.set_register(0, 3, 0x14, 0, 0xFFFF_FFFF);
    let bars = parse_bars(&mut space, 0, 3);
    assert_eq!(
        bars,
        vec![PciBar::Memory(MemoryBar {
            index: 0,
            addr: 0x4000_0000,
            size: 0x1000,
            width: 64,
            prefetchable: true,
        })]
    );
    assert_eq!(read_config(&space, 0, 3, 0x10), 0x4000_000C);
    assert_eq!(read_config(&space, 0, 3, 0x14), 0);
}

#[test]
fn parse_bars_of_a_device_without_resources_is_empty() {
    let mut space = ConfigSpace::new();
    bars_device(&mut space, 1, 1);
    assert_eq!(parse_bars(&mut space, 1, 1), vec![]);
}

#[test]
fn parse_bars_reports_io_and_32_bit_memory() {
    let mut space = ConfigSpace::new();
    bars_device(&mut space, 0, 1);
    space.set_register(0, 1, 0x10, 0x0000_C001, 0xFFFF_FF00);
    space.set_register(0, 1, 0x14, 0xFEB0_0000, 0xFFFF_0000);
    space.set_register(0, 1, 0x20, 0xFE00_0008, 0xFFF0_0000);
    let bars = parse_bars(&mut space, 0, 1);
    assert_eq!(
        bars,
        vec![
            PciBar::IO(IOBar { index: 0, addr: 0xC000, size: 0x100 }),
            PciBar::Memory(MemoryBar {
                index: 1,
                addr: 0xFEB0_0000,
                size: 0x1_0000,
                width: 32,
                prefetchable: false,
            }),
            PciBar::Memory(MemoryBar {
                index: 4,
                addr: 0xFE00_0000,
                size: 0x10_0000,
                width: 32,
                prefetchable: true,
            }),
        ]
    );
}

#[test]
fn parse_bars_joins_the_words_of_a_64_bit_base_address() {
    let mut space = ConfigSpace::new();
    bars_device(&mut space, 0, 2);
    space.set_register(0, 2, 0x18, 0x8000_0004, 0xFFF0_0000);
    space.set_register(0, 2, 0x1C, 0x0000_0012, 0xFFFF_FFFF);
    let bars = parse_bars(&mut space, 0, 2);
    assert_eq!(
        bars,
        vec![PciBar::Memory(MemoryBar {
            index: 2,
            addr: 0x12_8000_0000,
            size: 0x10_0000,
            width: 64,
            prefetchable: false,
        })]
    );
}

#[test]
fn parse_bars_probes_the_high_word_of_a_region_of_4_gib_or_more() {
    let mut space = ConfigSpace::new();
    bars_device(&mut space, 0, 4);
    space.set_register(0, 4, 0x18, 0x0000_000C, 0);
    space.set_register(0, 4, 0x1C, 0x0000_0010, 0xFFFF_FFFE);
    let before = bars_snapshot(&space, 0, 4);
    let bars = parse_bars(&mut space, 0, 4);
    assert_eq!(
        bars,
        vec![PciBar::Memory(MemoryBar {
            index: 2,
            addr: 0x10_0000_0000,
            size: 0x2_0000_0000,
            width: 64,
            prefetchable: true,
        })]
    );
    assert_eq!(bars_snapshot(&space, 0, 4), before);
}

#[test]
fn parse_bars_takes_two_registers_for_a_64_bit_region() {
    let mut space = ConfigSpace::new();
    bars_device(&mut space, 0, 5);
    space.set_register(0, 5, 0x10, 0x4000_000C, 0xFFFF_F000);
    space.set_register(0, 5, 0x14, 0x0000_0001, 0xFFFF_FFFF);
    space.set_register(0, 5, 0x18, 0x0000_D001, 0xFFFF_FFE0);
    let bars = parse_bars(&mut space, 0, 5);
    assert_eq!(bars.len(), 2);
    assert_eq!(
        bars[0],
        PciBar::Memory(MemoryBar {
            index: 0,
            addr: 0x1_4000_0000,
            size: 0x1000,
            width: 64,
            prefetchable: true,
        })
    );
    assert_eq!(bars[1], PciBar::IO(IOBar { index: 2, addr: 0xD000, size: 0x20 }));
}

#[test]
fn parse_bars_passes_over_a_64_bit_region_in_the_last_register() {
    let mut space = ConfigSpace::new();
    bars_device(&mut space, 0, 6);
    space.set_register(0, 6, 0x24, 0x4000_0004, 0xFFFF_F000);
    let before = bars_snapshot(&space, 0, 6);
    assert_eq!(parse_bars(&mut space, 0, 6), vec![]);
    assert_eq!(bars_snapshot(&space, 0, 6), before);
}

#[test]
fn parse_bars_restores_every_register() {
    let mut space = ConfigSpace::new();
    bars_device(&mut space, 3, 7);
    space.set_register(3, 7, 0x10, 0x0000_C001, 0xFFFF_FF00);
    space.set_register(3, 7, 0x14, 0xFEB0_0000, 0xFFFF_0000);
    space.set_register(3, 7, 0x18, 0x4000_000C, 0xFFFF_F000);
    space.set_register(3, 7, 0x1C, 0x0000_0002, 0xFFFF_FFFF);
    space.set_register(3, 7, 0x20, 0x0000_0004, 0);
    space.set_register(3, 7, 0x24, 0x0000_0033, 0xFFFF_FFF0);
    let before = bars_snapshot(&space, 3, 7);
    let bars = parse_bars(&mut space, 3, 7);
    assert_eq!(bars.len(), 4);
    assert_eq!(bars_snapshot(&space, 3, 7), before);
}

#[test]
fn parse_bars_of_an_absent_device_reads_all_ones() {
    let mut space = ConfigSpace::new();
    let bars = parse_bars(&mut space, 9, 9);
    assert_eq!(bars.len(), 6);
    assert_eq!(bars[0], PciBar::IO(IOBar { index: 0, addr: 0xFFFF_FFFC, size: 4 }));
    assert_eq!(bars[5], PciBar::IO(IOBar { index: 5, addr: 0xFFFF_FFFC, size: 4 }));
}

#[test]
fn probed_size_is_the_twos_complement() {
    assert_eq!(probed_size(0xFFFF_F000), 0x1000);
    assert_eq!(probed_size(0xFFFF_FFFC), 4);
    assert_eq!(probed_size(0xFFFF_FFF0), 16);
    assert_eq!(probed_size(0x8000_0000), 0x8000_0000);
    assert_eq!(probed_size(1), 0xFFFF_FFFF);
    assert_eq!(probed_size(0), 0);
}

#[test]
fn bar_register_offsets() {
    assert_eq!(bar_register(0), 0x10);
    assert_eq!(bar_register(1), 0x14);
    assert_eq!(bar_register(5), 0x24);
}

#[test]
fn bar_scan_names_each_access_in_turn() {
    let mut scan = BarScan::new();
    assert_eq!(scan.pending(), Some(ConfigAccess::Read { register: 0x10 }));
    scan.advance(0x4000_000C);
    assert_eq!(scan.pending(), Some(ConfigAccess::Read { register: 0x14 }));
    scan.advance(0x0000_0000);
    assert_eq!(scan.pending(), Some(ConfigAccess::Write { register: 0x10, data: 0xFFFF_FFFF }));
    scan.advance(0);
    assert_eq!(scan.pending(), Some(ConfigAccess::Read { register: 0x10 }));
    scan.advance(0xFFFF_F00C);
    assert_eq!(scan.pending(), Some(ConfigAccess::Write { register: 0x10, data: 0x4000_000C }));
    assert!(scan.bars.is_empty());
    scan.advance(0);
    assert_eq!(scan.bars.len(), 1);
    let mut register = 0x18;
    while register <= 0x24 {
        assert_eq!(scan.pending(), Some(ConfigAccess::Read { register }));
        scan.advance(0);
        register += 4;
    }
    assert!(scan.is_done());
    assert_eq!(scan.pending(), None);
    assert_eq!(
        scan.bars,
        vec![PciBar::Memory(MemoryBar {
            index: 0,
            addr: 0x4000_0000,
            size: 0x1000,
            width: 64,
            prefetchable: true,
        })]
    );
}

#[test]
fn bar_scan_restores_the_high_word_before_the_low_word() {
    let mut scan = BarScan::new();
    scan.advance(0x0000_000C);
    scan.advance(0x0000_0010);
    assert_eq!(scan.pending(), Some(ConfigAccess::Write { register: 0x10, data: 0xFFFF_FFFF }));
    scan.advance(0);
    scan.advance(0x0000_000C);
    assert_eq!(scan.pending(), Some(ConfigAccess::Write { register: 0x14, data: 0xFFFF_FFFF }));
    scan.advance(0);
    assert_eq!(scan.pending(), Some(ConfigAccess::Read { register: 0x14 }));
    scan.advance(0xFFFF_FFFE);
    assert_eq!(scan.pending(), Some(ConfigAccess::Write { register: 0x14, data: 0x0000_0010 }));
    scan.advance(0);
    assert_eq!(scan.pending(), Some(ConfigAccess::Write { register: 0x10, data: 0x0000_000C }));
    scan.advance(0);
    assert_eq!(scan.pending(), Some(ConfigAccess::Read { register: 0x18 }));
    assert_eq!(
        scan.bars,
        vec![PciBar::Memory(MemoryBar {
            index: 0,
            addr: 0x10_0000_0000,
            size: 0x2_0000_0000,
            width: 64,
            prefetchable: true,
        })]
    );
}

#[test]
fn bar_index_of_either_kind() {
    assert_eq!(PciBar::IO(IOBar { index: 3, addr: 0, size: 4 }).index(), 3);
    assert_eq!(
        PciBar::Memory(MemoryBar { index: 4, addr: 0, size: 16, width: 32, prefetchable: false })
            .index(),
        4
    );
}
