//! The selector and privilege model: lossless bit packing and unpacking
//! between an entry index, a table kind and a privilege level on one side and
//! the processor's compact 16-bit segment selector value on the other.
//!
//! Selector layout (fixed by the hardware specification): bits 0..=1 hold the
//! requested privilege level, bit 2 selects the descriptor table, bits 3..=15
//! hold the entry index.

use vstd::prelude::*;

verus! {

/// Number of entries a descriptor table can address: the selector's index
/// field is 13 bits wide.
pub const MAX_DESCRIPTORS: u16 = 8192;

/// Hierarchical protection ring; a lower ordinal is more trusted. Only the
/// four values below exist, and any other raw encoding is a programming
/// error, not recoverable input.
#[derive(Clone, Copy, PartialEq, Eq, Structural, PartialOrd, Ord, Debug, Hash)]
pub enum PrivilegeLevel {
    /// Ring 0: kernel or bootloader code, maximal hardware access.
    KernelSpace,
    /// Ring 1: rarely used intermediate driver ring.
    Ring1,
    /// Ring 2: rarely used intermediate driver ring.
    Ring2,
    /// Ring 3: userspace, least privilege, highest protection.
    UserSpace,
}

impl PrivilegeLevel {
    /// The two-bit encoding of this ring as the selector and the descriptor
    /// access byte carry it.
    #[verifier::allow_in_spec]
    pub fn rpl_bits(self) -> u16
        returns (match self {
            PrivilegeLevel::KernelSpace => 0u16,
            PrivilegeLevel::Ring1 => 1u16,
            PrivilegeLevel::Ring2 => 2u16,
            PrivilegeLevel::UserSpace => 3u16,
        }),
    {
        match self {
            PrivilegeLevel::KernelSpace => 0u16,
            PrivilegeLevel::Ring1 => 1u16,
            PrivilegeLevel::Ring2 => 2u16,
            PrivilegeLevel::UserSpace => 3u16,
        }
    }

    /// The ring placed at its position inside the descriptor access byte,
    /// bits 5..=6.
    #[verifier::allow_in_spec]
    pub fn dpl_bits(self) -> u8
        returns (match self {
            PrivilegeLevel::KernelSpace => 0x00u8,
            PrivilegeLevel::Ring1 => 0x20u8,
            PrivilegeLevel::Ring2 => 0x40u8,
            PrivilegeLevel::UserSpace => 0x60u8,
        }),
    {
        match self {
            PrivilegeLevel::KernelSpace => 0x00u8,
            PrivilegeLevel::Ring1 => 0x20u8,
            PrivilegeLevel::Ring2 => 0x40u8,
            PrivilegeLevel::UserSpace => 0x60u8,
        }
    }

    /// The ring a two-bit encoding denotes.
    pub open spec fn spec_from_bits(value: u16) -> PrivilegeLevel {
        if value == 0 {
            PrivilegeLevel::KernelSpace
        } else if value == 1 {
            PrivilegeLevel::Ring1
        } else if value == 2 {
            PrivilegeLevel::Ring2
        } else {
            PrivilegeLevel::UserSpace
        }
    }

    /// Decodes a two-bit privilege encoding, the exact inverse of
    /// [`PrivilegeLevel::rpl_bits`]. A value outside the four valid
    /// encodings is corruption and is ruled out by the precondition.
    pub fn from_bits(value: u16) -> (r: PrivilegeLevel)
        requires
            value < 4,
        ensures
            r == Self::spec_from_bits(value),
            r.rpl_bits() == value,
    {
        if value == 0 {
            PrivilegeLevel::KernelSpace
        } else if value == 1 {
            PrivilegeLevel::Ring1
        } else if value == 2 {
            PrivilegeLevel::Ring2
        } else {
            PrivilegeLevel::UserSpace
        }
    }
}

/// Which descriptor table a selector refers to; isomorphic to the selector's
/// table-indicator bit.
#[derive(Clone, Copy, PartialEq, Eq, Structural, PartialOrd, Ord, Debug, Hash)]
pub enum DescriptorTable {
    /// The Global Descriptor Table.
    GDT,
    /// The Local Descriptor Table.
    LDT,
}

impl DescriptorTable {
    /// The table-indicator bit: clear for the global table, set for the
    /// local one.
    #[verifier::allow_in_spec]
    pub fn as_bit(self) -> bool
        returns (self == DescriptorTable::LDT),
    {
        match self {
            DescriptorTable::GDT => false,
            DescriptorTable::LDT => true,
        }
    }

    /// The table a table-indicator bit denotes, the exact inverse of
    /// [`DescriptorTable::as_bit`].
    #[verifier::allow_in_spec]
    pub fn from_bit(value: bool) -> Self
        returns (if value {
            DescriptorTable::LDT
        } else {
            DescriptorTable::GDT
        }),
    {
        if value {
            DescriptorTable::LDT
        } else {
            DescriptorTable::GDT
        }
    }

    /// The table-indicator bit at its position inside the selector, bit 2.
    #[verifier::allow_in_spec]
    pub fn ti_bits(self) -> u16
        returns (match self {
            DescriptorTable::GDT => 0u16,
            DescriptorTable::LDT => 4u16,
        }),
    {
        match self {
            DescriptorTable::GDT => 0u16,
            DescriptorTable::LDT => 4u16,
        }
    }
}

impl Default for DescriptorTable {
    /// The global table, as the hardware defaults to it after reset.
    fn default() -> (r: Self)
        ensures
            r == DescriptorTable::GDT,
    {
        DescriptorTable::GDT
    }
}

/// The 16-bit segment selector of protected and long mode: a packed record
/// of entry index, table kind and requested privilege level, the value the
/// processor uses to look a descriptor up.
#[derive(Clone, Copy, PartialEq, Eq, Structural, PartialOrd, Ord, Debug, Hash)]
pub struct SegmentSelector(pub u16);

impl Default for SegmentSelector {
    /// The null selector: index 0, global table, kernel privilege.
    fn default() -> (r: Self)
        ensures
            r.0 == 0,
    {
        SegmentSelector(0)
    }
}

/// The packed selector value for the given components; the mutators and
/// accessors below read and write exactly these bit fields.
pub open spec fn spec_encode(index: u16, table: DescriptorTable, privilege: PrivilegeLevel) -> u16 {
    (index << 3) | table.ti_bits() | privilege.rpl_bits()
}

impl SegmentSelector {
    /// The entry index carried in bits 3..=15.
    pub open spec fn index_spec(self) -> u16 {
        self.0 >> 3
    }

    /// The table kind carried in bit 2.
    pub open spec fn table_spec(self) -> DescriptorTable {
        DescriptorTable::from_bit(self.0 & 4 == 4)
    }

    /// The two-bit privilege encoding carried in bits 0..=1.
    pub open spec fn rpl_spec(self) -> u16 {
        self.0 & 3
    }

    /// The privilege level carried in bits 0..=1.
    pub open spec fn privilege_spec(self) -> PrivilegeLevel {
        PrivilegeLevel::spec_from_bits(self.0 & 3)
    }

    /// Packs an entry index, a table kind and a privilege level into a
    /// selector value; the exact inverse of the three accessors.
    pub fn new(index: u16, table: DescriptorTable, privilege: PrivilegeLevel) -> (r: Self)
        requires
            index < MAX_DESCRIPTORS,
        ensures
            r.0 == spec_encode(index, table, privilege),
            r.index_spec() == index,
            r.table_spec() == table,
            r.privilege_spec() == privilege,
    {
        let ti: u16 = table.ti_bits();
        let rpl: u16 = privilege.rpl_bits();
        let packed: u16 = (index << 3) | ti | rpl;
        proof {
            lemma_selector_fields(index, ti, rpl);
        }
        SegmentSelector(packed)
    }

    /// Replaces the privilege bits, leaving index and table kind untouched.
    pub fn set_privilege_level(&mut self, level: PrivilegeLevel)
        ensures
            final(self).0 == (old(self).0 & !3) | level.rpl_bits(),
            final(self).privilege_spec() == level,
            final(self).index_spec() == old(self).index_spec(),
            final(self).table_spec() == old(self).table_spec(),
    {
        let rpl: u16 = level.rpl_bits();
        let packed: u16 = (self.0 & !3) | rpl;
        proof {
            let v = self.0;
            assert((packed & 3) == rpl && (packed >> 3) == (v >> 3) && (packed & 4) == (v & 4))
                by (bit_vector)
                requires
                    rpl < 4,
                    packed == (v & !3) | rpl,
            ;
        }
        self.0 = packed;
    }

    /// The privilege level, set by the creator of this selector. Privilege
    /// bits are two bits wide, so every stored value decodes.
    pub fn privilege_level(&self) -> (r: PrivilegeLevel)
        ensures
            r == self.privilege_spec(),
    {
        let rpl: u16 = self.0 & 3;
        proof {
            let v = self.0;
            assert((v & 3) < 4) by (bit_vector);
        }
        PrivilegeLevel::from_bits(rpl)
    }

    /// Replaces the table-indicator bit, leaving index and privilege
    /// untouched.
    pub fn set_table(&mut self, descriptor_table: DescriptorTable)
        ensures
            final(self).0 == (old(self).0 & !4) | descriptor_table.ti_bits(),
            final(self).table_spec() == descriptor_table,
            final(self).index_spec() == old(self).index_spec(),
            final(self).privilege_spec() == old(self).privilege_spec(),
    {
        let ti: u16 = descriptor_table.ti_bits();
        let packed: u16 = (self.0 & !4) | ti;
        proof {
            let v = self.0;
            assert((packed & 4) == ti && (packed >> 3) == (v >> 3) && (packed & 3) == (v & 3))
                by (bit_vector)
                requires
                    ti == 0 || ti == 4,
                    packed == (v & !4) | ti,
            ;
        }
        self.0 = packed;
    }

    /// The table kind, set by the creator of this selector.
    pub fn table(&self) -> (r: DescriptorTable)
        ensures
            r == self.table_spec(),
    {
        DescriptorTable::from_bit(self.0 & 4 == 4)
    }

    /// Replaces the entry index, leaving table kind and privilege untouched.
    pub fn set_index(&mut self, index: u16)
        requires
            index < MAX_DESCRIPTORS,
        ensures
            final(self).0 == (old(self).0 & 7) | (index << 3),
            final(self).index_spec() == index,
            final(self).table_spec() == old(self).table_spec(),
            final(self).privilege_spec() == old(self).privilege_spec(),
    {
        let packed: u16 = (self.0 & 7) | (index << 3);
        proof {
            let v = self.0;
            assert((packed >> 3) == index && (packed & 4) == (v & 4) && (packed & 3) == (v & 3))
                by (bit_vector)
                requires
                    index < 8192,
                    packed == (v & 7) | (index << 3),
            ;
        }
        self.0 = packed;
    }

    /// The entry index, set by the creator of this selector.
    pub fn index(&self) -> (r: u16)
        ensures
            r == self.index_spec(),
    {
        self.0 >> 3
    }
}

/// The three bit fields of a freshly packed selector value, stated over the
/// raw encodings.
proof fn lemma_selector_fields(index: u16, ti: u16, rpl: u16)
    requires
        index < 8192,
        ti == 0 || ti == 4,
        rpl < 4,
    ensures
        ((index << 3) | ti | rpl) >> 3 == index,
        ((index << 3) | ti | rpl) & 4 == ti,
        ((index << 3) | ti | rpl) & 3 == rpl,
{
    assert(((index << 3) | ti | rpl) >> 3 == index && ((index << 3) | ti | rpl) & 4 == ti && ((
    index << 3) | ti | rpl) & 3 == rpl) by (bit_vector)
        requires
            index < 8192,
            ti == 0 || ti == 4,
            rpl < 4,
    ;
}

/// Selector round-trip: packing any valid entry index, table kind and
/// privilege level and then unpacking the three fields returns exactly the
/// inputs.
pub proof fn lemma_selector_round_trip(index: u16, table: DescriptorTable, privilege: PrivilegeLevel)
    requires
        index < MAX_DESCRIPTORS,
    ensures
        SegmentSelector(spec_encode(index, table, privilege)).index_spec() == index,
        SegmentSelector(spec_encode(index, table, privilege)).table_spec() == table,
        SegmentSelector(spec_encode(index, table, privilege)).privilege_spec() == privilege,
{
    lemma_selector_fields(index, table.ti_bits(), privilege.rpl_bits());
}

} // verus!
