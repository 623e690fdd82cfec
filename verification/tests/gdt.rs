use libcpu::gdt::Access;
use libcpu::gdt::Flags;
use libcpu::gdt::GDTDescriptor;
use libcpu::gdt::GlobalDescriptorTable;
use libcpu::gdt::DESCRIPTOR_BYTES;
use libcpu::DescriptorTable;
use libcpu::PrivilegeLevel;

#[test]
fn fresh_table_has_null_entry_zero() {
    // The null descriptor is the all-zero record.
    assert_eq!(GDTDescriptor::null().access_flags().bits(), 0);
    assert_eq!(GDTDescriptor::null().flags().bits(), 0);
    let table = GlobalDescriptorTable::new();
    assert_eq!(table.count(), 1);
    assert_eq!(table.descriptor(0), GDTDescriptor::null());
    for index in [1usize, 2, 100, 8191] {
        assert_eq!(table.descriptor(index), GDTDescriptor::null());
    }
}

#[test]
fn push_never_overwrites_entry_zero() {
    let mut table = GlobalDescriptorTable::new();
    for _ in 0..16 {
        table
            .push(GDTDescriptor::code_segment(PrivilegeLevel::KernelSpace))
            .unwrap();
        assert_eq!(table.descriptor(0), GDTDescriptor::null());
    }
}

#[test]
fn capacity_law() {
    let mut table = GlobalDescriptorTable::new();
    let descriptor = GDTDescriptor::data_segment(PrivilegeLevel::KernelSpace);
    let mut expected_index = 1u16;
    while table.count() < 8191 {
        let selector = table.push(descriptor).expect("push below capacity must succeed");
        assert_eq!(selector.index(), expected_index);
        expected_index += 1;
    }
    assert_eq!(table.count(), 8191);
    assert!(table.push(descriptor).is_none());
    assert_eq!(table.count(), 8191);
}

#[test]
fn push_returns_selector_for_new_entry() {
    let mut table = GlobalDescriptorTable::new();
    let descriptor = GDTDescriptor::code_segment(PrivilegeLevel::KernelSpace);
    let selector = table.push(descriptor).unwrap();
    assert_eq!(selector.index(), 1);
    assert_eq!(selector.table(), DescriptorTable::GDT);
    assert_eq!(table.count(), 2);
    assert_eq!(table.descriptor(1), descriptor);
}

#[test]
fn selector_privilege_mirrors_descriptor_privilege() {
    for level in [
        PrivilegeLevel::KernelSpace,
        PrivilegeLevel::Ring1,
        PrivilegeLevel::Ring2,
        PrivilegeLevel::UserSpace,
    ] {
        let mut table = GlobalDescriptorTable::new();
        let selector = table.push(GDTDescriptor::code_segment(level)).unwrap();
        assert_eq!(selector.privilege_level(), level);
        let selector = table.push(GDTDescriptor::data_segment(level)).unwrap();
        assert_eq!(selector.privilege_level(), level);
    }
}

#[test]
fn table_pointer_size() {
    let mut table = GlobalDescriptorTable::new();
    assert_eq!(table.as_ptr().size as usize, DESCRIPTOR_BYTES - 1);
    let descriptor = GDTDescriptor::code_segment(PrivilegeLevel::KernelSpace);
    for _ in 0..3 {
        table.push(descriptor).unwrap();
    }
    assert_eq!(table.count(), 4);
    assert_eq!(table.as_ptr().size as usize, 4 * DESCRIPTOR_BYTES - 1);
}

#[test]
fn descriptor_privilege_level_reads_back() {
    for level in [
        PrivilegeLevel::KernelSpace,
        PrivilegeLevel::Ring1,
        PrivilegeLevel::Ring2,
        PrivilegeLevel::UserSpace,
    ] {
        assert_eq!(GDTDescriptor::code_segment(level).privilege_level(), level);
        assert_eq!(GDTDescriptor::data_segment(level).privilege_level(), level);
    }
}

#[test]
fn canonical_segments_access_bytes() {
    // Present, accessed, user, readable, executable; granularity and long
    // mode with the maximal limit's high nibble in the flags byte.
    let code = GDTDescriptor::code_segment(PrivilegeLevel::KernelSpace);
    assert_eq!(code.access_flags().bits(), 0x9B);
    assert_eq!(code.flags().bits(), 0xAF);
    let code_user = GDTDescriptor::code_segment(PrivilegeLevel::UserSpace);
    assert_eq!(code_user.access_flags().bits(), 0x9B | 0x60);
    let data = GDTDescriptor::data_segment(PrivilegeLevel::KernelSpace);
    assert_eq!(data.access_flags().bits(), 0x93);
    assert_eq!(data.flags().bits(), 0xAF);
}

#[test]
fn canonical_segments_equal_raw_construction() {
    let access = Access::from_bits_retain(
        Access::PRESENT | Access::ACCESSED | Access::USER_SEGMENT | Access::READABLE | Access::EXECUTABLE,
    );
    let flags = Flags::from_bits_retain(Flags::GRANULARITY | Flags::LONG_MODE);
    assert_eq!(
        GDTDescriptor::new(0, 0xFFFFF, PrivilegeLevel::Ring1, access, flags),
        GDTDescriptor::code_segment(PrivilegeLevel::Ring1),
    );
}

#[test]
fn access_byte_holds_privilege_flags_byte_holds_high_limit() {
    let descriptor = GDTDescriptor::new(
        0,
        0xABCDE,
        PrivilegeLevel::Ring2,
        Access::from_bits_retain(Access::PRESENT),
        Flags::empty(),
    );
    // Present bit and ring 2 at bits 5..=6; no limit bit strays in.
    assert_eq!(descriptor.access_flags().bits(), 0x80 | 0x40);
    // Limit bits 16..=19 (0xA of 0xABCDE) land in the flags byte's low nibble.
    assert_eq!(descriptor.flags().bits(), 0x0A);
}

#[test]
fn base_bytes_distinguish_descriptors() {
    let access = Access::from_bits_retain(Access::PRESENT);
    // Bases differing only in bits 24..=31 yield different descriptors,
    // since those bits live in the higher base byte.
    let high = GDTDescriptor::new(0x0100_0000, 0, PrivilegeLevel::KernelSpace, access, Flags::empty());
    let zero = GDTDescriptor::new(0, 0, PrivilegeLevel::KernelSpace, access, Flags::empty());
    assert_ne!(high, zero);
    // Bases differing only in bits 16..=23 differ in the middle base byte.
    let middle = GDTDescriptor::new(0x0001_0000, 0, PrivilegeLevel::KernelSpace, access, Flags::empty());
    assert_ne!(middle, zero);
    assert_ne!(middle, high);
}

#[test]
fn flag_set_operations() {
    let access = Access::from_bits_retain(Access::PRESENT).union(Access::from_bits_retain(Access::EXECUTABLE));
    assert_eq!(access.bits(), 0x88);
    assert!(access.contains(Access::from_bits_retain(Access::PRESENT)));
    assert!(!access.contains(Access::from_bits_retain(Access::READABLE)));
    assert_eq!(Access::empty().bits(), 0);
    let flags = Flags::empty().union(Flags::from_bits_retain(Flags::SIZE));
    assert_eq!(flags.bits(), 0x40);
    assert!(flags.contains(Flags::from_bits_retain(Flags::SIZE)));
}
