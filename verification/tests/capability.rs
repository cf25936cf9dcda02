use virtio_pci_core::adapter::{BarMapping, PciAdapter};
use virtio_pci_core::bar::{IOBar, MemoryBar, PciBar};
use virtio_pci_core::capability::{
    find_capability, kind_type, locate_capabilities, map_capabilities, map_capability,
    map_virtiocap, CapabilityScan, CapabilityWalk, MappedCapability, VirtioCapabilities,
    VirtioCapability, WalkPhase, VIRTIO_PCI_CAP_COMMON_CFG, VIRTIO_PCI_CAP_DEVICE_CFG,
    VIRTIO_PCI_CAP_ISR_CFG, VIRTIO_PCI_CAP_NOTIFY_CFG, VIRTIO_PCI_CAP_PCI_CFG,
};
use virtio_pci_core::config::{ConfigAccess, ConfigSpace};
use virtio_pci_core::error::PciError;

fn capability_word(next: u32, cfg_type: u32) -> u32 {
    0x09 | (next << 8) | (0x10 << 16) | (cfg_type << 24)
}

fn capability_entry(
    space: &mut ConfigSpace,
    pointer: u32,
    next: u32,
    cfg_type: u32,
    bar: u32,
    offset: u32,
    length: u32,
) {
    space.set_register(0, 3, pointer, capability_word(next, cfg_type), 0);
    space.set_register(0, 3, pointer + 4, bar, 0);
    space.set_register(0, 3, pointer + 8, offset, 0);
    space.set_register(0, 3, pointer + 12, length, 0);
}

fn capability_device() -> ConfigSpace {
    let mut space = ConfigSpace::new();
    space.add_device(0, 3, 0x1AF4, 0x1000);
    space.set_register(0, 3, 0x04, 0x0010_0000, 0x0000_FFFF);
    space.set_register(0, 3, 0x34, 0x0000_0040, 0);
    capability_entry(&mut space, 0x40, 0x54, VIRTIO_PCI_CAP_COMMON_CFG, 0, 0x0000, 0x38);
    capability_entry(&mut space, 0x54, 0x68, VIRTIO_PCI_CAP_NOTIFY_CFG, 0, 0x3000, 0x1000);
    space.set_register(0, 3, 0x64, 4, 0);
    capability_entry(&mut space, 0x68, 0x7C, VIRTIO_PCI_CAP_ISR_CFG, 0, 0x1000, 0x1);
    capability_entry(&mut space, 0x7C, 0x00, VIRTIO_PCI_CAP_DEVICE_CFG, 0, 0x2000, 0x14);
    space
}

fn capability_adapter() -> PciAdapter {
    PciAdapter {
        bus: 0,
        device: 3,
        vendor_id: 0x1AF4,
        device_id: 0x1000,
        class_id: 2,
        subclass_id: 0,
        programming_interface_id: 0,
        base_addresses: vec![
            PciBar::Memory(MemoryBar {
                index: 0,
                addr: 0x4000_0000,
                size: 0x4000,
                width: 64,
                prefetchable: true,
            }),
            PciBar::IO(IOBar { index: 2, addr: 0xC000, size: 0x40 }),
        ],
        irq: 11,
    }
}

fn capability_mapping() -> BarMapping {
    BarMapping {
        physical_address: 0x4000_0000,
        virtual_address: 0x4000_0000,
        size: 0x4000,
        writable: true,
        executable: false,
        no_cache: true,
    }
}

#[test]
fn find_capability_walks_the_list() {
    let space = capability_device();
    assert_eq!(
        find_capability(&space, 0, 3, 0x40, VIRTIO_PCI_CAP_COMMON_CFG),
        Some(VirtioCapability {
            cfg_type: 1,
            bar: 0,
            offset: 0,
            length: 0x38,
            notify_off_multiplier: 0
        })
    );
    assert_eq!(
        find_capability(&space, 0, 3, 0x40, VIRTIO_PCI_CAP_DEVICE_CFG),
        Some(VirtioCapability {
            cfg_type: 4,
            bar: 0,
            offset: 0x2000,
            length: 0x14,
            notify_off_multiplier: 0
        })
    );
    assert_eq!(
        find_capability(&space, 0, 3, 0x40, VIRTIO_PCI_CAP_ISR_CFG),
        Some(VirtioCapability {
            cfg_type: 3,
            bar: 0,
            offset: 0x1000,
            length: 1,
            notify_off_multiplier: 0
        })
    );
}

#[test]
fn find_capability_reads_the_notification_multiplier() {
    let space = capability_device();
    assert_eq!(
        find_capability(&space, 0, 3, 0x40, VIRTIO_PCI_CAP_NOTIFY_CFG),
        Some(VirtioCapability {
            cfg_type: 2,
            bar: 0,
            offset: 0x3000,
            length: 0x1000,
            notify_off_multiplier: 4
        })
    );
}

#[test]
fn find_capability_reports_a_missing_capability() {
    let space = capability_device();
    assert_eq!(find_capability(&space, 0, 3, 0x40, VIRTIO_PCI_CAP_PCI_CFG), None);
    assert_eq!(find_capability(&space, 0, 3, 0x68, VIRTIO_PCI_CAP_COMMON_CFG), None);
}

#[test]
fn find_capability_ignores_a_list_inside_the_header() {
    let space = capability_device();
    assert_eq!(find_capability(&space, 0, 3, 0x3C, VIRTIO_PCI_CAP_COMMON_CFG), None);
    assert_eq!(find_capability(&space, 0, 3, 0, VIRTIO_PCI_CAP_COMMON_CFG), None);
}

#[test]
fn find_capability_skips_capabilities_of_other_vendors() {
    let mut space = capability_device();
    space.set_register(0, 3, 0x40, 0x0110_5405, 0);
    assert_eq!(find_capability(&space, 0, 3, 0x40, VIRTIO_PCI_CAP_COMMON_CFG), None);
    assert!(find_capability(&space, 0, 3, 0x40, VIRTIO_PCI_CAP_NOTIFY_CFG).is_some());
}

#[test]
fn find_capability_ends_on_a_list_that_runs_in_a_circle() {
    let mut space = capability_device();
    space.set_register(0, 3, 0x7C, capability_word(0x40, VIRTIO_PCI_CAP_DEVICE_CFG), 0);
    assert_eq!(find_capability(&space, 0, 3, 0x40, VIRTIO_PCI_CAP_PCI_CFG), None);
    assert!(find_capability(&space, 0, 3, 0x40, VIRTIO_PCI_CAP_DEVICE_CFG).is_some());
}

#[test]
fn capability_walk_names_each_read_in_turn() {
    let mut walk = CapabilityWalk::new(0x40, VIRTIO_PCI_CAP_NOTIFY_CFG);
    assert_eq!(walk.pending(), Some(ConfigAccess::Read { register: 0x40 }));
    walk.advance(capability_word(0x54, VIRTIO_PCI_CAP_COMMON_CFG));
    assert_eq!(walk.pending(), Some(ConfigAccess::Read { register: 0x54 }));
    walk.advance(capability_word(0x68, VIRTIO_PCI_CAP_NOTIFY_CFG));
    assert_eq!(walk.pending(), Some(ConfigAccess::Read { register: 0x58 }));
    walk.advance(0xABCD_EF04);
    assert_eq!(walk.pending(), Some(ConfigAccess::Read { register: 0x5C }));
    walk.advance(0x3000);
    assert_eq!(walk.pending(), Some(ConfigAccess::Read { register: 0x60 }));
    walk.advance(0x1000);
    assert_eq!(walk.pending(), Some(ConfigAccess::Read { register: 0x64 }));
    walk.advance(4);
    assert!(walk.has_ended());
    assert_eq!(walk.phase, WalkPhase::Found);
    assert_eq!(
        walk.result(),
        Some(VirtioCapability {
            cfg_type: 2,
            bar: 4,
            offset: 0x3000,
            length: 0x1000,
            notify_off_multiplier: 4
        })
    );
}

#[test]
fn capability_walk_masks_the_next_pointer() {
    let mut walk = CapabilityWalk::new(0x40, VIRTIO_PCI_CAP_COMMON_CFG);
    walk.advance(0x0000_5705);
    assert_eq!(walk.pending(), Some(ConfigAccess::Read { register: 0x54 }));
    walk.advance(0x0000_3F05);
    assert_eq!(walk.phase, WalkPhase::Missing);
    assert_eq!(walk.result(), None);
    assert_eq!(walk.pending(), None);
}

#[test]
fn locate_capabilities_finds_all_four() {
    let space = capability_device();
    let found = locate_capabilities(&space, 0, 3, 0x1000).unwrap();
    assert_eq!(found.common.offset, 0);
    assert_eq!(found.common.cfg_type, 1);
    assert_eq!(found.device.offset, 0x2000);
    assert_eq!(found.device.cfg_type, 4);
    assert_eq!(found.isr.offset, 0x1000);
    assert_eq!(found.isr.cfg_type, 3);
    assert_eq!(found.notify.offset, 0x3000);
    assert_eq!(found.notify.cfg_type, 2);
    assert_eq!(found.notify.notify_off_multiplier, 4);
}

#[test]
fn locate_capabilities_needs_a_capability_list() {
    let mut space = capability_device();
    space.set_register(0, 3, 0x04, 0x0000_0000, 0x0000_FFFF);
    assert_eq!(locate_capabilities(&space, 0, 3, 0x1000), Err(PciError::NoCapPtr(0x1000)));
}

#[test]
fn locate_capabilities_rejects_a_list_inside_the_header() {
    let mut space = capability_device();
    space.set_register(0, 3, 0x34, 0x0000_0030, 0);
    assert_eq!(locate_capabilities(&space, 0, 3, 0x1041), Err(PciError::BadCapPtr(0x1041)));
    space.set_register(0, 3, 0x34, 0xFFFF_FF00, 0);
    assert_eq!(locate_capabilities(&space, 0, 3, 0x1041), Err(PciError::BadCapPtr(0x1041)));
}

#[test]
fn locate_capabilities_reports_a_missing_capability() {
    let mut space = capability_device();
    space.set_register(0, 3, 0x68, capability_word(0x7C, VIRTIO_PCI_CAP_PCI_CFG), 0);
    assert_eq!(locate_capabilities(&space, 0, 3, 0x1000), Err(PciError::NoVirtioCaps(0x1000)));
}

#[test]
fn capability_scan_reads_status_then_pointer() {
    let mut scan = CapabilityScan::new(0x1000);
    assert_eq!(scan.pending(), Some(ConfigAccess::Read { register: 0x04 }));
    scan.advance(0x0010_0007);
    assert_eq!(scan.pending(), Some(ConfigAccess::Read { register: 0x34 }));
    scan.advance(0x1234_5640);
    assert_eq!(scan.pending(), Some(ConfigAccess::Read { register: 0x40 }));
    scan.advance(0);
    assert!(scan.has_ended());
    assert_eq!(scan.result(), Err(PciError::NoVirtioCaps(0x1000)));
}

#[test]
fn capability_scan_has_no_capabilities_before_it_has_searched() {
    let scan = CapabilityScan::new(0x1041);
    assert!(!scan.has_ended());
    assert_eq!(scan.result(), Err(PciError::General(0x1041)));
}

#[test]
fn kinds_are_searched_in_the_order_common_device_isr_notify() {
    assert_eq!(kind_type(0), VIRTIO_PCI_CAP_COMMON_CFG);
    assert_eq!(kind_type(1), VIRTIO_PCI_CAP_DEVICE_CFG);
    assert_eq!(kind_type(2), VIRTIO_PCI_CAP_ISR_CFG);
    assert_eq!(kind_type(3), VIRTIO_PCI_CAP_NOTIFY_CFG);
}

#[test]
fn map_capability_places_it_at_its_offset() {
    let adapter = capability_adapter();
    let capability = VirtioCapability {
        cfg_type: 2,
        bar: 0,
        offset: 0x3000,
        length: 0x1000,
        notify_off_multiplier: 4,
    };
    assert_eq!(
        map_capability(&adapter, capability),
        Some(MappedCapability {
            mapping: capability_mapping(),
            address: 0x4000_3000,
            length: 0x1000,
            notify_off_multiplier: 4,
        })
    );
}

#[test]
fn map_capability_needs_a_mappable_resource() {
    let adapter = capability_adapter();
    let mut capability =
        VirtioCapability { cfg_type: 1, bar: 2, offset: 0, length: 0x38, notify_off_multiplier: 0 };
    assert_eq!(map_capability(&adapter, capability), None);
    capability.bar = 1;
    assert_eq!(map_capability(&adapter, capability), None);
}

#[test]
fn map_virtiocap_finds_and_places_a_capability() {
    let space = capability_device();
    let adapter = capability_adapter();
    assert_eq!(
        map_virtiocap(&space, 0, 3, &adapter, 0xFFFF_FF40, VIRTIO_PCI_CAP_ISR_CFG),
        Some(MappedCapability {
            mapping: capability_mapping(),
            address: 0x4000_1000,
            length: 1,
            notify_off_multiplier: 0,
        })
    );
    assert_eq!(map_virtiocap(&space, 0, 3, &adapter, 0x40, VIRTIO_PCI_CAP_PCI_CFG), None);
}

#[test]
fn map_capabilities_places_all_four_or_reports_the_resource() {
    let space = capability_device();
    let adapter = capability_adapter();
    let found = locate_capabilities(&space, 0, 3, 0x1000).unwrap();
    let regions = map_capabilities(&adapter, found).unwrap();
    assert_eq!(regions.common_cfg.address, 0x4000_0000);
    assert_eq!(regions.device_cfg.address, 0x4000_2000);
    assert_eq!(regions.isr_cfg.address, 0x4000_1000);
    assert_eq!(regions.notify_cfg.address, 0x4000_3000);
    assert_eq!(regions.notify_cfg.notify_off_multiplier, 4);
    let misplaced = VirtioCapabilities { isr: VirtioCapability { bar: 2, ..found.isr }, ..found };
    assert_eq!(map_capabilities(&adapter, misplaced), Err(PciError::NoBar(0x1000)));
}
