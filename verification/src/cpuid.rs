//! The capability query model: which query a request issues and how its
//! fixed-width response is carried. Issuing the query is a privileged
//! one-instruction primitive left to the caller; this module fixes the
//! selector values a request stands for and names the response's output
//! registers.

use vstd::prelude::*;

verus! {

/// A hardware capability query: a primary selector (leaf) and, for the
/// structured extended leaves, a sub-selector. The processor defines these
/// queries never to fault for valid selectors; a query the processor does
/// not know returns all-zero output fields.
#[derive(Clone, Copy, PartialEq, Eq, Structural, PartialOrd, Ord, Debug, Hash)]
pub enum CPUIDRequest {
    /// The basic feature leaf.
    Features,
    /// Structured extended features, sub-leaf 0.
    ExtendedFeatures1,
    /// Structured extended features, sub-leaf 1.
    ExtendedFeatures2,
    /// Structured extended features, sub-leaf 2.
    ExtendedFeatures3,
    /// The extended processor info leaf.
    ExtendedFeatures4,
}

impl CPUIDRequest {
    /// The primary selector this request issues.
    #[verifier::allow_in_spec]
    pub fn leaf(&self) -> u32
        returns (match *self {
            CPUIDRequest::Features => 1u32,
            CPUIDRequest::ExtendedFeatures1 => 7u32,
            CPUIDRequest::ExtendedFeatures2 => 7u32,
            CPUIDRequest::ExtendedFeatures3 => 7u32,
            CPUIDRequest::ExtendedFeatures4 => 0x80000001u32,
        }),
    {
        match *self {
            CPUIDRequest::Features => 1u32,
            CPUIDRequest::ExtendedFeatures1 => 7u32,
            CPUIDRequest::ExtendedFeatures2 => 7u32,
            CPUIDRequest::ExtendedFeatures3 => 7u32,
            CPUIDRequest::ExtendedFeatures4 => 0x80000001u32,
        }
    }

    /// The sub-selector this request issues beside the primary one, where
    /// the leaf is structured into sub-leaves.
    #[verifier::allow_in_spec]
    pub fn sub_leaf(&self) -> Option<u32>
        returns (match *self {
            CPUIDRequest::ExtendedFeatures1 => Some(0u32),
            CPUIDRequest::ExtendedFeatures2 => Some(1u32),
            CPUIDRequest::ExtendedFeatures3 => Some(2u32),
            _ => None,
        }),
    {
        match *self {
            CPUIDRequest::ExtendedFeatures1 => Some(0u32),
            CPUIDRequest::ExtendedFeatures2 => Some(1u32),
            CPUIDRequest::ExtendedFeatures3 => Some(2u32),
            _ => None,
        }
    }
}

/// One of the four named output fields of a capability query response.
#[derive(Clone, Copy, PartialEq, Eq, Structural, PartialOrd, Ord, Debug, Hash)]
pub enum OutputRegister {
    EAX,
    EBX,
    ECX,
    EDX,
}

/// The fixed-width response of one capability query, as plain values. The
/// caller fills it from the hardware query; everything derived from it is
/// computed and specified here for every possible response.
#[derive(Clone, Copy, PartialEq, Eq, Structural, PartialOrd, Ord, Debug, Hash)]
pub struct CPUIDResponse {
    pub eax: u32,
    pub ebx: u32,
    pub ecx: u32,
    pub edx: u32,
}

impl CPUIDResponse {
    /// The named output field of this response.
    #[verifier::allow_in_spec]
    pub fn register(&self, register: OutputRegister) -> u32
        returns (match register {
            OutputRegister::EAX => self.eax,
            OutputRegister::EBX => self.ebx,
            OutputRegister::ECX => self.ecx,
            OutputRegister::EDX => self.edx,
        }),
    {
        match register {
            OutputRegister::EAX => self.eax,
            OutputRegister::EBX => self.ebx,
            OutputRegister::ECX => self.ecx,
            OutputRegister::EDX => self.edx,
        }
    }
}

} // verus!
