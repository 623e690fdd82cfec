use libcpu::CR0Flags;
use libcpu::CR3Flags;
use libcpu::CR4Flags;

#[test]
fn flag_write_preserves_unknown_bits() {
    // Seed the register with bits outside the named flag set.
    let unknown = (1u64 << 40) | (1 << 7) | (1 << 63);
    assert_eq!(unknown & CR0Flags::MASK, 0);
    let current = unknown | CR0Flags::PAGING;
    // Writing the empty flag set leaves the unknown bits untouched.
    let written = CR0Flags::empty().write_word(current);
    assert_eq!(written & !CR0Flags::MASK, current & !CR0Flags::MASK);
    assert_eq!(written, current);
    // Writing a named flag adds it without touching the unknown bits.
    let written = CR0Flags::from_bits_truncate(CR0Flags::WRITE_PROTECTED).write_word(current);
    assert_eq!(written & !CR0Flags::MASK, current & !CR0Flags::MASK);
    assert_eq!(written, current | CR0Flags::WRITE_PROTECTED);
}

#[test]
fn write_is_read_modify_write_union() {
    let current = CR0Flags::PROTECTED_MODE_ENABLE | CR0Flags::WRITE_PROTECTED;
    let desired = CR0Flags::from_bits_truncate(CR0Flags::PAGING);
    let written = desired.write_word(current);
    // Flags not mentioned in the desired set stay as the hardware held them.
    assert_eq!(
        written,
        CR0Flags::PROTECTED_MODE_ENABLE | CR0Flags::WRITE_PROTECTED | CR0Flags::PAGING,
    );
}

#[test]
fn truncating_read_drops_unknown_bits_from_view_only() {
    let raw = (1u64 << 40) | CR0Flags::PAGING | CR0Flags::NUMERIC_ERROR;
    let view = CR0Flags::from_bits_truncate(raw);
    assert_eq!(view.bits(), CR0Flags::PAGING | CR0Flags::NUMERIC_ERROR);
    assert!(view.contains(CR0Flags::from_bits_truncate(CR0Flags::PAGING)));
    assert!(!view.contains(CR0Flags::from_bits_truncate(CR0Flags::TASK_SWITCHED)));
}

#[test]
fn cr0_named_bits() {
    assert_eq!(CR0Flags::PROTECTED_MODE_ENABLE, 1);
    assert_eq!(CR0Flags::MONITOR_CO_PROCESSOR, 1 << 1);
    assert_eq!(CR0Flags::X86_FPU_EMULATION, 1 << 2);
    assert_eq!(CR0Flags::TASK_SWITCHED, 1 << 3);
    assert_eq!(CR0Flags::EXTENSION_TYPE, 1 << 4);
    assert_eq!(CR0Flags::NUMERIC_ERROR, 1 << 5);
    assert_eq!(CR0Flags::WRITE_PROTECTED, 1 << 16);
    assert_eq!(CR0Flags::ALIGNMENT_CHECK, 1 << 18);
    assert_eq!(CR0Flags::NOT_WRITE_THROUGH, 1 << 29);
    assert_eq!(CR0Flags::CACHE_DISABLE, 1 << 30);
    assert_eq!(CR0Flags::PAGING, 1 << 31);
}

#[test]
fn cr3_flags() {
    let raw = (1u64 << 12) | CR3Flags::PAGE_LEVEL_WRITE_THROUGH;
    let view = CR3Flags::from_bits_truncate(raw);
    assert_eq!(view.bits(), CR3Flags::PAGE_LEVEL_WRITE_THROUGH);
    let written = view.write_word(raw);
    assert_eq!(written, raw);
    assert_eq!(CR3Flags::MASK, (1 << 3) | (1 << 4));
}

#[test]
fn cr4_flags() {
    assert_eq!(CR4Flags::PKS, 1 << 34);
    let unknown = 1u64 << 35;
    let current = unknown | CR4Flags::SMEP;
    let written = CR4Flags::from_bits_truncate(CR4Flags::SMAP).write_word(current);
    assert_eq!(written & !CR4Flags::MASK, unknown);
    assert_eq!(written, unknown | CR4Flags::SMEP | CR4Flags::SMAP);
    let union = CR4Flags::empty()
        .union(CR4Flags::from_bits_truncate(CR4Flags::UMIP))
        .union(CR4Flags::from_bits_truncate(CR4Flags::PCE));
    assert_eq!(union.bits(), CR4Flags::UMIP | CR4Flags::PCE);
}
