use libcpu::selector::MAX_DESCRIPTORS;
use libcpu::DescriptorTable;
use libcpu::PrivilegeLevel;
use libcpu::SegmentSelector;

const ALL_LEVELS: [PrivilegeLevel; 4] = [
    PrivilegeLevel::KernelSpace,
    PrivilegeLevel::Ring1,
    PrivilegeLevel::Ring2,
    PrivilegeLevel::UserSpace,
];

const ALL_TABLES: [DescriptorTable; 2] = [DescriptorTable::GDT, DescriptorTable::LDT];

#[test]
fn selector_round_trip() {
    for index in [0u16, 1, 2, 42, 4095, 8190, 8191] {
        for table in ALL_TABLES {
            for privilege in ALL_LEVELS {
                let selector = SegmentSelector::new(index, table, privilege);
                assert_eq!(selector.index(), index);
                assert_eq!(selector.table(), table);
                assert_eq!(selector.privilege_level(), privilege);
            }
        }
    }
}

#[test]
fn selector_bit_layout() {
    // Index in bits 3..=15, table indicator in bit 2, privilege in bits 0..=1.
    let selector = SegmentSelector::new(1, DescriptorTable::GDT, PrivilegeLevel::KernelSpace);
    assert_eq!(selector.0, 1 << 3);
    let selector = SegmentSelector::new(1, DescriptorTable::LDT, PrivilegeLevel::KernelSpace);
    assert_eq!(selector.0, (1 << 3) | 4);
    let selector = SegmentSelector::new(1, DescriptorTable::GDT, PrivilegeLevel::UserSpace);
    assert_eq!(selector.0, (1 << 3) | 3);
    let selector = SegmentSelector::new(8191, DescriptorTable::LDT, PrivilegeLevel::UserSpace);
    assert_eq!(selector.0, 0xFFFF);
}

#[test]
fn set_index_leaves_other_fields() {
    let mut selector = SegmentSelector::new(5, DescriptorTable::LDT, PrivilegeLevel::Ring2);
    selector.set_index(77);
    assert_eq!(selector.index(), 77);
    assert_eq!(selector.table(), DescriptorTable::LDT);
    assert_eq!(selector.privilege_level(), PrivilegeLevel::Ring2);
}

#[test]
fn set_table_leaves_other_fields() {
    let mut selector = SegmentSelector::new(5, DescriptorTable::LDT, PrivilegeLevel::Ring1);
    selector.set_table(DescriptorTable::GDT);
    assert_eq!(selector.index(), 5);
    assert_eq!(selector.table(), DescriptorTable::GDT);
    assert_eq!(selector.privilege_level(), PrivilegeLevel::Ring1);
}

#[test]
fn set_privilege_level_leaves_other_fields() {
    let mut selector =
        SegmentSelector::new(MAX_DESCRIPTORS - 1, DescriptorTable::GDT, PrivilegeLevel::KernelSpace);
    selector.set_privilege_level(PrivilegeLevel::UserSpace);
    assert_eq!(selector.index(), MAX_DESCRIPTORS - 1);
    assert_eq!(selector.table(), DescriptorTable::GDT);
    assert_eq!(selector.privilege_level(), PrivilegeLevel::UserSpace);
}

#[test]
fn privilege_bits_round_trip() {
    for (bits, level) in [
        (0u16, PrivilegeLevel::KernelSpace),
        (1, PrivilegeLevel::Ring1),
        (2, PrivilegeLevel::Ring2),
        (3, PrivilegeLevel::UserSpace),
    ] {
        assert_eq!(PrivilegeLevel::from_bits(bits), level);
        assert_eq!(level.rpl_bits(), bits);
        assert_eq!(level.dpl_bits(), (bits as u8) << 5);
    }
}

#[test]
fn table_bit_round_trip() {
    assert!(!DescriptorTable::GDT.as_bit());
    assert!(DescriptorTable::LDT.as_bit());
    assert_eq!(DescriptorTable::from_bit(false), DescriptorTable::GDT);
    assert_eq!(DescriptorTable::from_bit(true), DescriptorTable::LDT);
    assert_eq!(DescriptorTable::default(), DescriptorTable::GDT);
}
