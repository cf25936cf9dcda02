use virtio_pci_core::config::{
    config_address, read_config, write_config, ConfigAccess, ConfigRegister, ConfigSpace,
    PCI_BAR0_REGISTER, PCI_ID_REGISTER,
};

#[test]
fn config_address_sets_enable_bus_device_and_register() {
    assert_eq!(config_address(0, 0, 0), 0x8000_0000);
    assert_eq!(config_address(1, 2, 0x10), 0x8001_1010);
    assert_eq!(config_address(31, 31, 0x3C), 0x801F_F83C);
    assert_eq!(config_address(255, 0, 0), 0x80FF_0000);
}

#[test]
fn absent_register_reads_all_ones_and_ignores_writes() {
    let mut space = ConfigSpace::new();
    assert_eq!(read_config(&space, 0, 0, PCI_ID_REGISTER), 0xFFFF_FFFF);
    write_config(&mut space, 0, 0, PCI_ID_REGISTER, 0x1234_5678);
    assert_eq!(read_config(&space, 0, 0, PCI_ID_REGISTER), 0xFFFF_FFFF);
    assert_eq!(read_config(&space, 200, 77, 0x40), 0xFFFF_FFFF);
}

#[test]
fn write_changes_only_the_writable_bits() {
    let mut space = ConfigSpace::new();
    space.set_register(0, 1, PCI_BAR0_REGISTER, 0x0000_C001, 0xFFFF_FF00);
    write_config(&mut space, 0, 1, PCI_BAR0_REGISTER, 0xFFFF_FFFF);
    assert_eq!(read_config(&space, 0, 1, PCI_BAR0_REGISTER), 0xFFFF_FF01);
    write_config(&mut space, 0, 1, PCI_BAR0_REGISTER, 0x0000_C001);
    assert_eq!(read_config(&space, 0, 1, PCI_BAR0_REGISTER), 0x0000_C001);
    write_config(&mut space, 0, 1, PCI_BAR0_REGISTER, 0x1234_5678);
    assert_eq!(read_config(&space, 0, 1, PCI_BAR0_REGISTER), 0x1234_5601);
}

#[test]
fn register_write_formula() {
    let register = ConfigRegister { value: 0x0F0F_0F0F, writable: 0x00FF_FF00 };
    let after = register.write(0xAAAA_AAAA);
    assert_eq!(after, ConfigRegister { value: 0x0FAA_AA0F, writable: 0x00FF_FF00 });
}

#[test]
fn add_device_installs_a_read_only_header() {
    let mut space = ConfigSpace::new();
    space.add_device(2, 5, 0x1AF4, 0x1000);
    assert_eq!(read_config(&space, 2, 5, PCI_ID_REGISTER), 0x1000_1AF4);
    let mut register = 4;
    while register < 0x100 {
        assert_eq!(read_config(&space, 2, 5, register), 0);
        register += 4;
    }
    write_config(&mut space, 2, 5, 0x10, 0xFFFF_FFFF);
    assert_eq!(read_config(&space, 2, 5, 0x10), 0);
    assert_eq!(read_config(&space, 2, 6, PCI_ID_REGISTER), 0xFFFF_FFFF);
    assert_eq!(read_config(&space, 2, 5, 0x100), 0xFFFF_FFFF);
}

#[test]
fn access_performs_reads_and_writes() {
    let mut space = ConfigSpace::new();
    space.set_register(0, 0, 0x04, 0x0000_0003, 0x0000_FFFF);
    assert_eq!(space.access(0, 0, ConfigAccess::Read { register: 0x04 }), 3);
    assert_eq!(space.access(0, 0, ConfigAccess::Write { register: 0x04, data: 0xFFFF_0007 }), 0);
    assert_eq!(space.access(0, 0, ConfigAccess::Read { register: 0x04 }), 7);
}
