//! Hardware-abstraction core for x86/x86_64 processors during operating-system
//! bring-up: the segment descriptor table and its selectors, CPU capability
//! detection, and named-bit views of the privileged control registers.
//!
//! The binary layouts here (selector bit packing, descriptor byte layout,
//! capability query leaf numbering) are fixed by the processor's documented
//! specification; the contracts in this crate state them bit for bit.
//!
//! The privileged one-instruction primitives themselves (loading a table
//! pointer, moving a control register, issuing a capability query) are the
//! caller's concern: this crate computes and checks every value those
//! instructions consume or produce.

use vstd::prelude::*;

pub mod cpuid;
pub mod cr;
pub mod features;
pub mod gdt;
pub mod selector;

pub use cpuid::CPUIDRequest;
pub use cpuid::CPUIDResponse;
pub use cpuid::OutputRegister;
pub use features::CPUFeature;
pub use features::FeatureInfo;
pub use cr::CR0Flags;
pub use cr::CR3Flags;
pub use cr::CR4Flags;
pub use gdt::DescriptorTablePointer;
pub use selector::DescriptorTable;
pub use selector::PrivilegeLevel;
pub use selector::SegmentSelector;

verus! {

/// Machine word of a privileged register on the supported targets.
pub type Register = u64;

/// Linear memory address as the processor consumes it.
pub type MemoryAddress = u64;

} // verus!
