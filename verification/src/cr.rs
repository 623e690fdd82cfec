//! Named-bit views of the privileged control registers. A view exposes the
//! architecturally named bits of one register; every other bit of the raw
//! word is unnamed. Reads truncate the raw word to the named bits only in
//! the typed view; writes are read-modify-write unions, so bits the caller
//! does not mention, named or not, keep whatever the hardware holds.
//!
//! The raw one-instruction register moves themselves are privileged and
//! stay with the caller; this module computes the words they exchange.

use vstd::prelude::*;
use crate::Register;

verus! {

/// Named bits of the primary processor-control register, governing
/// protected mode, coprocessor behaviour, write protection, caching and
/// paging.
#[derive(Clone, Copy, PartialEq, Eq, Structural, PartialOrd, Ord, Debug, Hash)]
pub struct CR0Flags(pub Register);

impl CR0Flags {
    pub const PROTECTED_MODE_ENABLE: Register = 1 << 0;

    pub const MONITOR_CO_PROCESSOR: Register = 1 << 1;

    pub const X86_FPU_EMULATION: Register = 1 << 2;

    pub const TASK_SWITCHED: Register = 1 << 3;

    pub const EXTENSION_TYPE: Register = 1 << 4;

    pub const NUMERIC_ERROR: Register = 1 << 5;

    pub const WRITE_PROTECTED: Register = 1 << 16;

    pub const ALIGNMENT_CHECK: Register = 1 << 18;

    pub const NOT_WRITE_THROUGH: Register = 1 << 29;

    pub const CACHE_DISABLE: Register = 1 << 30;

    pub const PAGING: Register = 1 << 31;

    /// Every bit this view names.
    pub const MASK: Register = (1 << 0) | (1 << 1) | (1 << 2) | (1 << 3) | (1 << 4) | (1 << 5) | (1
        << 16) | (1 << 18) | (1 << 29) | (1 << 30) | (1 << 31);

    /// The flag set with no bit set.
    pub fn empty() -> (r: CR0Flags)
        ensures
            r.0 == 0,
    {
        CR0Flags(0)
    }

    /// The raw bits of this flag set.
    #[verifier::allow_in_spec]
    pub fn bits(&self) -> Register
        returns self.0,
    {
        self.0
    }

    /// The typed view of a raw register word: the named bits survive, the
    /// unnamed ones are dropped from the view only, never from the
    /// register.
    #[verifier::allow_in_spec]
    pub fn from_bits_truncate(raw: Register) -> CR0Flags
        returns (CR0Flags(raw & CR0Flags::MASK)),
    {
        CR0Flags(raw & CR0Flags::MASK)
    }

    /// The union of two flag sets.
    #[verifier::allow_in_spec]
    pub fn union(self, other: CR0Flags) -> CR0Flags
        returns (CR0Flags(self.0 | other.0)),
    {
        CR0Flags(self.0 | other.0)
    }

    /// Whether every bit of `other` is set in `self`.
    #[verifier::allow_in_spec]
    pub fn contains(self, other: CR0Flags) -> bool
        returns (self.0 & other.0 == other.0),
    {
        self.0 & other.0 == other.0
    }

    /// The word a write of this flag set stores, given the register's
    /// current raw word: the read-modify-write union. Flags not mentioned
    /// here, named or unnamed, remain whatever the hardware holds.
    pub fn write_word(self, current: Register) -> (r: Register)
        ensures
            r == current | self.0,
    {
        current | self.0
    }
}

/// Named bits of the page-table-base register.
#[derive(Clone, Copy, PartialEq, Eq, Structural, PartialOrd, Ord, Debug, Hash)]
pub struct CR3Flags(pub Register);

impl CR3Flags {
    pub const PAGE_LEVEL_WRITE_THROUGH: Register = 1 << 3;

    pub const PAGE_LEVEL_CACHE_DISABLE: Register = 1 << 4;

    /// Every bit this view names.
    pub const MASK: Register = (1 << 3) | (1 << 4);

    /// The flag set with no bit set.
    pub fn empty() -> (r: CR3Flags)
        ensures
            r.0 == 0,
    {
        CR3Flags(0)
    }

    /// The raw bits of this flag set.
    #[verifier::allow_in_spec]
    pub fn bits(&self) -> Register
        returns self.0,
    {
        self.0
    }

    /// The typed view of a raw register word: the named bits survive, the
    /// unnamed ones are dropped from the view only, never from the
    /// register.
    #[verifier::allow_in_spec]
    pub fn from_bits_truncate(raw: Register) -> CR3Flags
        returns (CR3Flags(raw & CR3Flags::MASK)),
    {
        CR3Flags(raw & CR3Flags::MASK)
    }

    /// The union of two flag sets.
    #[verifier::allow_in_spec]
    pub fn union(self, other: CR3Flags) -> CR3Flags
        returns (CR3Flags(self.0 | other.0)),
    {
        CR3Flags(self.0 | other.0)
    }

    /// Whether every bit of `other` is set in `self`.
    #[verifier::allow_in_spec]
    pub fn contains(self, other: CR3Flags) -> bool
        returns (self.0 & other.0 == other.0),
    {
        self.0 & other.0 == other.0
    }

    /// The word a write of this flag set stores, given the register's
    /// current raw word: the read-modify-write union.
    pub fn write_word(self, current: Register) -> (r: Register)
        ensures
            r == current | self.0,
    {
        current | self.0
    }
}

/// Named bits of the extension-control register, governing optional
/// processor features such as large pages, machine-check and the SIMD
/// state instructions.
#[derive(Clone, Copy, PartialEq, Eq, Structural, PartialOrd, Ord, Debug, Hash)]
#[allow(non_upper_case_globals)]
pub struct CR4Flags(pub Register);

#[allow(non_upper_case_globals)]
impl CR4Flags {
    pub const VME: Register = 1 << 0;

    pub const PVI: Register = 1 << 1;

    pub const TIMESTAMP_DISABLE: Register = 1 << 2;

    pub const DEBUGGING_EXTENSIONS: Register = 1 << 3;

    pub const PAGE_SIZE_EXTENSION: Register = 1 << 4;

    pub const PHYSCIAL_ADDRESS_EXTENSION: Register = 1 << 5;

    pub const MACHINE_CHECK_EXCEPTION: Register = 1 << 6;

    pub const PAGE_GLOBAL_ENABLED: Register = 1 << 7;

    pub const PCE: Register = 1 << 8;

    pub const OSSupportForFXSR: Register = 1 << 9;

    pub const OSSupportXMMExcept: Register = 1 << 10;

    pub const UMIP: Register = 1 << 11;

    pub const VIRTUAL_MACHINE_EXT_ENABLE: Register = 1 << 13;

    pub const SAFER_MODE_EXT_ENABLE: Register = 1 << 14;

    pub const FSGSBASE: Register = 1 << 16;

    pub const PCID_ENABLE: Register = 1 << 17;

    pub const OSXSAVE_ENABLE: Register = 1 << 18;

    pub const SMEP: Register = 1 << 20;

    pub const SMAP: Register = 1 << 21;

    pub const ProtectionKeyEnable: Register = 1 << 22;

    pub const ControlFlowEnforcement: Register = 1 << 23;

    pub const PKS: Register = 1 << 34;

    /// Every bit this view names.
    pub const MASK: Register = (1 << 0) | (1 << 1) | (1 << 2) | (1 << 3) | (1 << 4) | (1 << 5) | (1
        << 6) | (1 << 7) | (1 << 8) | (1 << 9) | (1 << 10) | (1 << 11) | (1 << 13) | (1 << 14) | (1
        << 16) | (1 << 17) | (1 << 18) | (1 << 20) | (1 << 21) | (1 << 22) | (1 << 23) | (1 << 34);

    /// The flag set with no bit set.
    pub fn empty() -> (r: CR4Flags)
        ensures
            r.0 == 0,
    {
        CR4Flags(0)
    }

    /// The raw bits of this flag set.
    #[verifier::allow_in_spec]
    pub fn bits(&self) -> Register
        returns self.0,
    {
        self.0
    }

    /// The typed view of a raw register word: the named bits survive, the
    /// unnamed ones are dropped from the view only, never from the
    /// register.
    #[verifier::allow_in_spec]
    pub fn from_bits_truncate(raw: Register) -> CR4Flags
        returns (CR4Flags(raw & CR4Flags::MASK)),
    {
        CR4Flags(raw & CR4Flags::MASK)
    }

    /// The union of two flag sets.
    #[verifier::allow_in_spec]
    pub fn union(self, other: CR4Flags) -> CR4Flags
        returns (CR4Flags(self.0 | other.0)),
    {
        CR4Flags(self.0 | other.0)
    }

    /// Whether every bit of `other` is set in `self`.
    #[verifier::allow_in_spec]
    pub fn contains(self, other: CR4Flags) -> bool
        returns (self.0 & other.0 == other.0),
    {
        self.0 & other.0 == other.0
    }

    /// The word a write of this flag set stores, given the register's
    /// current raw word: the read-modify-write union.
    pub fn write_word(self, current: Register) -> (r: Register)
        ensures
            r == current | self.0,
    {
        current | self.0
    }
}

/// Flag write preserves unknown bits: a read-modify-write union whose
/// desired bits all lie inside the named mask leaves every bit outside
/// that mask exactly as the current word holds it.
pub proof fn lemma_write_preserves_unknown_bits(current: Register, desired: Register, named: Register)
    by (bit_vector)
    requires
        desired & !named == 0,
    ensures
        (current | desired) & !named == current & !named,
{
}

/// A truncated view never holds a bit outside the mask it was truncated
/// to, so any flag set read back from a register satisfies the premise of
/// [`lemma_write_preserves_unknown_bits`].
pub proof fn lemma_truncate_within_mask(raw: Register, named: Register)
    by (bit_vector)
    ensures
        (raw & named) & !named == 0,
{
}

/// The union of two flag sets within the named mask stays within it.
pub proof fn lemma_union_within_mask(a: Register, b: Register, named: Register)
    by (bit_vector)
    requires
        a & !named == 0,
        b & !named == 0,
    ensures
        (a | b) & !named == 0,
{
}

} // verus!
