//! The segment descriptor table: binary-packed segment descriptors in the
//! hardware's consumption format, an append-only table of up to 8192 of
//! them, and the derived pointer structure the processor loads when the
//! table is activated.
//!
//! Descriptor layout (fixed by the hardware specification, 8 bytes): limit
//! bits 0..=15, base bits 0..=15, base bits 16..=23, the access byte
//! (privilege in bits 5..=6), the flags byte (limit bits 16..=19 in its low
//! nibble, the named flags in its high nibble), and base bits 24..=31. The
//! legacy base and limit fields are ignored by the processor in long mode;
//! each segment then covers the whole linear address space.

use vstd::prelude::*;
use crate::MemoryAddress;
use crate::selector::DescriptorTable;
use crate::selector::MAX_DESCRIPTORS;
use crate::selector::PrivilegeLevel;
use crate::selector::SegmentSelector;
use crate::selector::spec_encode;

verus! {

/// Size of one packed descriptor in bytes, fixed by the hardware format.
pub const DESCRIPTOR_BYTES: usize = 8;

/// Flag bits of the descriptor access byte. The privilege level occupies
/// bits 5..=6 and is merged in separately by the descriptor constructor;
/// no named bit here overlaps it.
#[derive(Clone, Copy, PartialEq, Eq, Structural, PartialOrd, Ord, Debug, Hash)]
pub struct Access(pub u8);

impl Access {
    /// Set by the processor on first use of the segment; pre-setting it
    /// avoids a write to a possibly read-only descriptor page.
    pub const ACCESSED: u8 = 0x01;

    /// Must be set for every valid segment.
    pub const PRESENT: u8 = 0x80;

    /// Set for a code or data segment, clear for a system segment.
    pub const USER_SEGMENT: u8 = 0x10;

    /// Set for an executable code segment, clear for a data segment.
    pub const EXECUTABLE: u8 = 0x08;

    /// Code segments only: read access to the segment is allowed.
    pub const READABLE: u8 = 0x02;

    /// Data segments only: write access to the segment is allowed.
    pub const WRITABLE: u8 = 0x02;

    /// The flag set with no bit set.
    pub fn empty() -> (r: Access)
        ensures
            r.0 == 0,
    {
        Access(0)
    }

    /// The raw access byte bits of this flag set.
    #[verifier::allow_in_spec]
    pub fn bits(&self) -> u8
        returns self.0,
    {
        self.0
    }

    /// The flag set over the given raw bits, kept verbatim.
    #[verifier::allow_in_spec]
    pub fn from_bits_retain(bits: u8) -> Access
        returns (Access(bits)),
    {
        Access(bits)
    }

    /// The union of two flag sets.
    #[verifier::allow_in_spec]
    pub fn union(self, other: Access) -> Access
        returns (Access(self.0 | other.0)),
    {
        Access(self.0 | other.0)
    }

    /// Whether every bit of `other` is set in `self`.
    #[verifier::allow_in_spec]
    pub fn contains(self, other: Access) -> bool
        returns (self.0 & other.0 == other.0),
    {
        self.0 & other.0 == other.0
    }
}

/// Flag bits of the descriptor flags byte.
#[derive(Clone, Copy, PartialEq, Eq, Structural, PartialOrd, Ord, Debug, Hash)]
pub struct Flags(pub u8);

impl Flags {
    /// The limit counts 4 KiB blocks instead of bytes.
    pub const GRANULARITY: u8 = 0x80;

    /// 32-bit protected mode segment; clear means 16-bit.
    pub const SIZE: u8 = 0x40;

    /// 64-bit code segment; the size flag must then stay clear.
    pub const LONG_MODE: u8 = 0x20;

    /// The flag set with no bit set.
    pub fn empty() -> (r: Flags)
        ensures
            r.0 == 0,
    {
        Flags(0)
    }

    /// The raw flags byte bits of this flag set.
    #[verifier::allow_in_spec]
    pub fn bits(&self) -> u8
        returns self.0,
    {
        self.0
    }

    /// The flag set over the given raw bits, kept verbatim.
    #[verifier::allow_in_spec]
    pub fn from_bits_retain(bits: u8) -> Flags
        returns (Flags(bits)),
    {
        Flags(bits)
    }

    /// The union of two flag sets.
    #[verifier::allow_in_spec]
    pub fn union(self, other: Flags) -> Flags
        returns (Flags(self.0 | other.0)),
    {
        Flags(self.0 | other.0)
    }

    /// Whether every bit of `other` is set in `self`.
    #[verifier::allow_in_spec]
    pub fn contains(self, other: Flags) -> bool
        returns (self.0 & other.0 == other.0),
    {
        self.0 & other.0 == other.0
    }
}

/// One segment descriptor in the hardware's packed binary format.
/// Constructed once per segment shape and immutable afterwards; the table
/// replaces whole descriptors, never single fields.
#[derive(Clone, Copy, PartialEq, Eq, Structural, PartialOrd, Ord, Debug, Hash)]
pub struct GDTDescriptor {
    /// Bits 0..=15 of the segment limit.
    lower_limit_address: u16,
    /// Bits 0..=15 of the segment base address.
    lower_base_address: u16,
    /// Bits 16..=23 of the segment base address.
    middle_base_address: u8,
    /// The access byte: named [`Access`] bits and the privilege level in
    /// bits 5..=6.
    access: u8,
    /// The flags byte: named [`Flags`] bits in the high nibble, limit bits
    /// 16..=19 in the low nibble.
    flags: u8,
    /// Bits 24..=31 of the segment base address.
    higher_base_address: u8,
}

impl GDTDescriptor {
    /// Bits 0..=15 of the stored segment limit.
    pub closed spec fn spec_lower_limit(self) -> u16 {
        self.lower_limit_address
    }

    /// Bits 0..=15 of the stored segment base.
    pub closed spec fn spec_lower_base(self) -> u16 {
        self.lower_base_address
    }

    /// The stored middle base byte.
    pub closed spec fn spec_middle_base(self) -> u8 {
        self.middle_base_address
    }

    /// The stored access byte.
    pub closed spec fn spec_access(self) -> u8 {
        self.access
    }

    /// The stored flags byte.
    pub closed spec fn spec_flags(self) -> u8 {
        self.flags
    }

    /// Bits 24..=31 of the stored segment base.
    pub closed spec fn spec_higher_base(self) -> u8 {
        self.higher_base_address
    }

    /// The privilege level carried in bits 5..=6 of the access byte.
    pub open spec fn spec_privilege_level(self) -> PrivilegeLevel {
        PrivilegeLevel::spec_from_bits(((self.spec_access() >> 5) & 3) as u16)
    }

    /// The all-zero null descriptor.
    pub closed spec fn spec_null() -> GDTDescriptor {
        GDTDescriptor {
            lower_limit_address: 0,
            lower_base_address: 0,
            middle_base_address: 0,
            access: 0,
            flags: 0,
            higher_base_address: 0,
        }
    }

    /// Packs base, limit, privilege and the two flag bytes into the
    /// hardware layout: the limit split between its low word and the low
    /// nibble of the flags byte, the base split across its three fields,
    /// and the privilege level at bits 5..=6 of the access byte. The
    /// limit must fit its 20-bit hardware field.
    pub fn new(
        base_address: u32,
        limit_address: u32,
        privilege: PrivilegeLevel,
        access: Access,
        flags: Flags,
    ) -> (r: GDTDescriptor)
        requires
            limit_address < 0x100000,
        ensures
            r.spec_lower_limit() == limit_address & 0xFFFF,
            r.spec_lower_base() == base_address & 0xFFFF,
            r.spec_middle_base() == (base_address >> 16) & 0xFF,
            r.spec_access() == access.0 | privilege.dpl_bits(),
            r.spec_flags() == flags.0 | (((limit_address >> 16) & 0xF) as u8),
            r.spec_higher_base() == (base_address >> 24) & 0xFF,
    {
        proof {
            let b = base_address;
            let l = limit_address;
            assert(l & 0xFFFF < 0x10000 && b & 0xFFFF < 0x10000 && (b >> 16) & 0xFF < 0x100 && (b
                >> 24) & 0xFF < 0x100 && (l >> 16) & 0xF < 0x10) by (bit_vector);
        }
        GDTDescriptor {
            lower_limit_address: (limit_address & 0xFFFF) as u16,
            lower_base_address: (base_address & 0xFFFF) as u16,
            middle_base_address: ((base_address >> 16) & 0xFF) as u8,
            access: access.bits() | privilege.dpl_bits(),
            flags: flags.bits() | (((limit_address >> 16) & 0xF) as u8),
            higher_base_address: ((base_address >> 24) & 0xFF) as u8,
        }
    }

    /// The all-zero null descriptor that every table keeps at entry 0.
    pub fn null() -> (r: GDTDescriptor)
        ensures
            r == GDTDescriptor::spec_null(),
            r.spec_lower_limit() == 0,
            r.spec_lower_base() == 0,
            r.spec_middle_base() == 0,
            r.spec_access() == 0,
            r.spec_flags() == 0,
            r.spec_higher_base() == 0,
    {
        GDTDescriptor {
            lower_limit_address: 0,
            lower_base_address: 0,
            middle_base_address: 0,
            access: 0,
            flags: 0,
            higher_base_address: 0,
        }
    }

    /// The canonical executable code segment for the given ring: base 0,
    /// maximal limit, present, accessed, user, readable and executable,
    /// 4 KiB granularity, 64-bit mode.
    pub fn code_segment(level: PrivilegeLevel) -> (r: GDTDescriptor)
        ensures
            r.spec_lower_limit() == 0xFFFF,
            r.spec_lower_base() == 0,
            r.spec_middle_base() == 0,
            r.spec_higher_base() == 0,
            r.spec_access() == 0x9B | level.dpl_bits(),
            r.spec_flags() == 0xAF,
            r.spec_privilege_level() == level,
    {
        let r = GDTDescriptor::new(
            0x00000000,
            0xFFFFF,
            level,
            Access::from_bits_retain(
                Access::PRESENT | Access::ACCESSED | Access::USER_SEGMENT | Access::READABLE
                    | Access::EXECUTABLE,
            ),
            Flags::from_bits_retain(Flags::GRANULARITY | Flags::LONG_MODE),
        );
        proof {
            let d = level.dpl_bits();
            lemma_canonical_segment_bits(d);
            assert(PrivilegeLevel::spec_from_bits((d >> 5) as u16) == level);
        }
        r
    }

    /// The canonical data segment for the given ring: base 0, maximal
    /// limit, present, accessed, user and writable, 4 KiB granularity,
    /// 64-bit mode.
    pub fn data_segment(level: PrivilegeLevel) -> (r: GDTDescriptor)
        ensures
            r.spec_lower_limit() == 0xFFFF,
            r.spec_lower_base() == 0,
            r.spec_middle_base() == 0,
            r.spec_higher_base() == 0,
            r.spec_access() == 0x93 | level.dpl_bits(),
            r.spec_flags() == 0xAF,
            r.spec_privilege_level() == level,
    {
        let r = GDTDescriptor::new(
            0x00000000,
            0xFFFFF,
            level,
            Access::from_bits_retain(
                Access::PRESENT | Access::ACCESSED | Access::USER_SEGMENT | Access::WRITABLE,
            ),
            Flags::from_bits_retain(Flags::GRANULARITY | Flags::LONG_MODE),
        );
        proof {
            let d = level.dpl_bits();
            lemma_canonical_segment_bits(d);
            assert(PrivilegeLevel::spec_from_bits((d >> 5) as u16) == level);
        }
        r
    }

    /// The descriptor's privilege level, read back out of bits 5..=6 of the
    /// access byte. The field is two bits wide, so every stored value
    /// decodes.
    pub fn privilege_level(&self) -> (r: PrivilegeLevel)
        ensures
            r == self.spec_privilege_level(),
    {
        let dpl: u8 = (self.access >> 5) & 3;
        proof {
            let a = self.access;
            assert((a >> 5) & 3 < 4) by (bit_vector);
        }
        PrivilegeLevel::from_bits(dpl as u16)
    }

    /// The access byte as a named flag set.
    pub fn access_flags(&self) -> (r: Access)
        ensures
            r.0 == self.spec_access(),
    {
        Access::from_bits_retain(self.access)
    }

    /// The flags byte as a named flag set.
    pub fn flags(&self) -> (r: Flags)
        ensures
            r.0 == self.spec_flags(),
    {
        Flags::from_bits_retain(self.flags)
    }
}

/// Folds the constant bit patterns of the canonical segment descriptors:
/// the named access unions, the merged low limit bits, and the fact that
/// the ring bits placed at 5..=6 read back undisturbed.
proof fn lemma_canonical_segment_bits(d: u8)
    by (bit_vector)
    requires
        d == 0 || d == 0x20 || d == 0x40 || d == 0x60,
    ensures
        0xFFFFFu32 & 0xFFFF == 0xFFFF,
        0u32 & 0xFFFF == 0,
        (0u32 >> 16) & 0xFF == 0,
        (0u32 >> 24) & 0xFF == 0,
        (0x80u8 | 0x01u8 | 0x10u8 | 0x02u8 | 0x08u8) | d == 0x9B | d,
        (0x80u8 | 0x01u8 | 0x10u8 | 0x02u8) | d == 0x93 | d,
        (0x80u8 | 0x20u8) | (((0xFFFFFu32 >> 16) & 0xF) as u8) == 0xAF,
        ((0x9Bu8 | d) >> 5) & 3 == d >> 5,
        ((0x93u8 | d) >> 5) & 3 == d >> 5,
        d >> 5 == (if d == 0 {
            0u8
        } else if d == 0x20 {
            1u8
        } else if d == 0x40 {
            2u8
        } else {
            3u8
        }),
{
}

/// The pointer structure the `lgdt` instruction consumes: the table's base
/// linear address and the size in bytes of the used portion, minus one.
/// Derived on demand from a table; never stored, so it cannot go stale.
#[derive(Clone, Copy, PartialEq, Eq, Structural, PartialOrd, Ord, Debug, Hash)]
pub struct DescriptorTablePointer {
    /// Size in bytes of the used portion of the table, minus one.
    pub size: u16,
    /// Linear base address of the table's storage.
    pub base: MemoryAddress,
}

/// The Global Descriptor Table: an append-only, capacity-bounded table of
/// packed descriptors. Entry 0 is the permanent null descriptor; `count` is
/// the high-water mark of entries in use.
pub struct GlobalDescriptorTable {
    /// Storage for every addressable entry, allocated up front and zeroed.
    descriptors: Vec<GDTDescriptor>,
    /// Number of entries in use, the null entry included.
    count: usize,
}

impl GlobalDescriptorTable {
    /// The stored descriptor slots.
    pub closed spec fn descriptors_spec(self) -> Seq<GDTDescriptor> {
        self.descriptors@
    }

    /// The number of entries in use, the null entry included.
    pub closed spec fn count_spec(self) -> int {
        self.count as int
    }

    /// Structural invariant: all 8192 slots allocated, at least the null
    /// entry and at most 8191 entries in use, and entry 0 is the null
    /// descriptor.
    pub open spec fn wf(self) -> bool {
        &&& self.descriptors_spec().len() == MAX_DESCRIPTORS
        &&& 1 <= self.count_spec() < MAX_DESCRIPTORS
        &&& self.descriptors_spec()[0] == GDTDescriptor::spec_null()
    }

    /// A fresh table: every slot zeroed and only the permanent null entry
    /// in use.
    pub fn new() -> (r: GlobalDescriptorTable)
        ensures
            r.wf(),
            r.count_spec() == 1,
            forall|i: int|
                0 <= i < MAX_DESCRIPTORS ==> r.descriptors_spec()[i]
                    == GDTDescriptor::spec_null(),
    {
        let mut descriptors: Vec<GDTDescriptor> = Vec::new();
        let mut i: usize = 0;
        while i < 8192
            invariant
                i <= 8192,
                descriptors@.len() == i,
                forall|j: int| 0 <= j < i ==> descriptors@[j] == GDTDescriptor::spec_null(),
            decreases 8192 - i,
        {
            descriptors.push(GDTDescriptor::null());
            i = i + 1;
        }
        GlobalDescriptorTable { descriptors, count: 1 }
    }

    /// The number of entries in use.
    pub fn count(&self) -> (r: usize)
        ensures
            r == self.count_spec(),
    {
        self.count
    }

    /// The descriptor stored at the given slot.
    pub fn descriptor(&self, index: usize) -> (r: GDTDescriptor)
        requires
            self.wf(),
            index < MAX_DESCRIPTORS,
        ensures
            r == self.descriptors_spec()[index as int],
    {
        self.descriptors[index]
    }

    /// Appends a descriptor at the high-water mark. Fails by returning no
    /// selector when the table is full, leaving the table unchanged;
    /// otherwise stores the descriptor, bumps the count and returns a
    /// selector for the new entry whose privilege mirrors the descriptor's
    /// own.
    pub fn push(&mut self, descriptor: GDTDescriptor) -> (r: Option<SegmentSelector>)
        requires
            old(self).wf(),
        ensures
            final(self).wf(),
            push_result(*old(self), descriptor, *final(self), r),
    {
        if self.count + 1 >= 8192 {
            return None;
        }
        let slot: usize = self.count;
        self.descriptors[slot] = descriptor;
        self.count = self.count + 1;
        Some(
            SegmentSelector::new(
                (self.count - 1) as u16,
                DescriptorTable::GDT,
                descriptor.privilege_level(),
            ),
        )
    }

    /// The pointer structure for activating this table: the storage's
    /// linear address, and the byte size of the used portion minus one.
    pub fn as_ptr(&self) -> (r: DescriptorTablePointer)
        requires
            self.wf(),
        ensures
            r.size == self.count_spec() * DESCRIPTOR_BYTES - 1,
    {
        DescriptorTablePointer {
            size: (self.count * DESCRIPTOR_BYTES - 1) as u16,
            base: storage_address(&self.descriptors),
        }
    }
}

/// Relies on `Vec::as_ptr` from std: the linear address of the vector's
/// storage. An address is machine state, so nothing is stated of the
/// result.
#[verifier::external_body]
fn storage_address(descriptors: &Vec<GDTDescriptor>) -> MemoryAddress {
    descriptors.as_ptr() as MemoryAddress
}

/// What one append does: it succeeds exactly while the table is not full;
/// on success the descriptor lands at the old high-water mark, the count
/// grows by one and the selector decodes to the new index, the global
/// table and the descriptor's own privilege level; on failure the table is
/// unchanged.
pub open spec fn push_result(
    pre: GlobalDescriptorTable,
    descriptor: GDTDescriptor,
    post: GlobalDescriptorTable,
    result: Option<SegmentSelector>,
) -> bool {
    &&& (result is Some <==> pre.count_spec() < MAX_DESCRIPTORS - 1)
    &&& (match result {
        Some(sel) => {
            &&& post.count_spec() == pre.count_spec() + 1
            &&& post.descriptors_spec() == pre.descriptors_spec().update(
                pre.count_spec(),
                descriptor,
            )
            &&& sel.0 == spec_encode(
                pre.count_spec() as u16,
                DescriptorTable::GDT,
                descriptor.spec_privilege_level(),
            )
            &&& sel.index_spec() == pre.count_spec()
            &&& sel.table_spec() == DescriptorTable::GDT
            &&& sel.privilege_spec() == descriptor.spec_privilege_level()
        },
        None => post == pre,
    })
}

/// The null descriptor is the all-zero record: every stored field of
/// [`GDTDescriptor::spec_null`] is zero.
pub proof fn lemma_null_descriptor_zero()
    ensures
        GDTDescriptor::spec_null().spec_lower_limit() == 0,
        GDTDescriptor::spec_null().spec_lower_base() == 0,
        GDTDescriptor::spec_null().spec_middle_base() == 0,
        GDTDescriptor::spec_null().spec_access() == 0,
        GDTDescriptor::spec_null().spec_flags() == 0,
        GDTDescriptor::spec_null().spec_higher_base() == 0,
{
}

/// Null descriptor invariant: no append ever touches entry 0, so the null
/// descriptor a fresh table placed there stays forever.
pub proof fn lemma_null_descriptor_preserved(
    pre: GlobalDescriptorTable,
    descriptor: GDTDescriptor,
    post: GlobalDescriptorTable,
    result: Option<SegmentSelector>,
)
    requires
        pre.wf(),
        push_result(pre, descriptor, post, result),
    ensures
        post.descriptors_spec()[0] == GDTDescriptor::spec_null(),
{
}

/// Capacity law, one step: an append succeeds exactly while fewer than
/// 8191 entries are in use, hands out the old count as the new entry's
/// index, which is at least 1, and a failed append leaves the count as it
/// was.
pub proof fn lemma_capacity(
    pre: GlobalDescriptorTable,
    descriptor: GDTDescriptor,
    post: GlobalDescriptorTable,
    result: Option<SegmentSelector>,
)
    requires
        pre.wf(),
        push_result(pre, descriptor, post, result),
    ensures
        result is Some <==> pre.count_spec() < MAX_DESCRIPTORS - 1,
        result matches Some(sel) ==> sel.index_spec() == pre.count_spec() && 1
            <= sel.index_spec() && post.count_spec() == pre.count_spec() + 1,
        result is None ==> post.count_spec() == pre.count_spec(),
{
}

/// Capacity law, successive steps: two appends that both succeed return
/// strictly increasing, adjacent indices; starting from a fresh table the
/// first index handed out is 1.
pub proof fn lemma_push_indices_increase(
    t0: GlobalDescriptorTable,
    d1: GDTDescriptor,
    t1: GlobalDescriptorTable,
    s1: SegmentSelector,
    d2: GDTDescriptor,
    t2: GlobalDescriptorTable,
    s2: SegmentSelector,
)
    requires
        t0.wf(),
        push_result(t0, d1, t1, Some(s1)),
        push_result(t1, d2, t2, Some(s2)),
    ensures
        s2.index_spec() == s1.index_spec() + 1,
        t0.count_spec() == 1 ==> s1.index_spec() == 1,
{
}

/// Selector privilege mirrors descriptor privilege: the selector a
/// successful append returns decodes to the privilege level stored in the
/// appended descriptor itself; the caller never supplies it independently.
pub proof fn lemma_selector_privilege_mirrors_descriptor(
    pre: GlobalDescriptorTable,
    descriptor: GDTDescriptor,
    post: GlobalDescriptorTable,
    sel: SegmentSelector,
)
    requires
        pre.wf(),
        push_result(pre, descriptor, post, Some(sel)),
    ensures
        sel.privilege_spec() == descriptor.spec_privilege_level(),
{
}

} // verus!
