//! The static feature catalog and the capability-matching protocol: every
//! named instruction-set extension the registry knows, which query and
//! which output field report it, and the exact-mask test that decides
//! whether the running processor has it.
//!
//! The catalog is pure data, declared once in a fixed order; the matching
//! logic below is independent of its size. A feature is reported only when
//! every bit of its mask is set in the designated output field, never on a
//! partial match.

use vstd::prelude::*;
use crate::cpuid::CPUIDRequest;
use crate::cpuid::CPUIDResponse;
use crate::cpuid::OutputRegister;

verus! {

/// Number of features the catalog declares.
pub const FEATURE_COUNT: usize = 213;

/// A named instruction-set extension of the processor, one variant per
/// catalog entry, in declaration order.
#[allow(non_camel_case_types)]
#[derive(Clone, Copy, PartialEq, Eq, Structural, PartialOrd, Ord, Debug, Hash)]
pub enum CPUFeature {
    SSE3,
    PCLMUL,
    DTES64,
    MONITOR,
    DS_CPL,
    VMX,
    SMX,
    EST,
    TM2,
    SSSE3,
    CID,
    SDBG,
    FMA,
    CX16,
    XTPR,
    PDCM,
    PCID,
    DCA,
    SSE4_1,
    SSE4_2,
    X2APIC,
    MOVBE,
    POPCNT,
    TSCDeadline,
    AES,
    XSAVE,
    OSXSAVE,
    AVX,
    F16C,
    RDRAND,
    HYPERVISOR,
    FPU,
    VME,
    DE,
    PSE,
    TSC,
    MSR,
    PAE,
    MCE,
    CX8,
    APIC,
    SEP,
    MTRR,
    PGE,
    MCA,
    CMOV,
    PAT,
    PSE36,
    PSN,
    CLFLUSH,
    NX_Itanium,
    DS,
    ACPI,
    MMX,
    FXSR,
    SSE,
    SSE2,
    SS,
    HTT,
    TM,
    IA64,
    PBE,
    FSGSBase,
    SGX,
    BMI1,
    HLE,
    AVX2,
    FDP_EXCPTN_ONLY,
    SMEP,
    BMI2,
    ERMS,
    INVPCID,
    RTM,
    PQM,
    MPX,
    AVX512F,
    AVX512DQ,
    RDSEED,
    ADX,
    SMAP,
    AVX512_IFMA,
    PCOMMIT,
    CFLUSHOPT,
    CLWB,
    PT,
    AVX512PF,
    AVX512ER,
    AVX512CD,
    SHA,
    AVX512BW,
    AVX512VI,
    PreFetchWT1,
    AVX512VBMI,
    UMIP,
    PKU,
    OSPKE,
    WAITKG,
    AVX512VBMI2,
    ShadowStack,
    GFNI,
    VAES,
    VPCLMULQDQ,
    AVX512VNNI,
    AVX512BITALG,
    TME,
    AVX512VPOPCNTDQ,
    LA57,
    RDPID,
    KL,
    BusLockDetect,
    CIDEMOTE,
    MOVDIRI,
    MOBDIR64B,
    ENQCMD,
    SGXLC,
    PKS,
    SGXKeys,
    AVX512_4VNNIW,
    AVX512_4FMAPS,
    FSRM,
    UINTR,
    AVX512VP2INTERSECT,
    SRDBS_CTRL,
    MCClear,
    RTMAlwaysAbort,
    TSXForceAbort,
    SERIALIZE,
    HYBRID,
    TSXLDTRK,
    PCONFIG,
    IBR,
    CET_IBT,
    AMXBF16,
    AVS512FP16,
    AMXTile,
    AMXInt8,
    SpecControl,
    STIBP,
    L1DFlush,
    SSBD,
    SHA512Extensions,
    SM3,
    SM4,
    RAO_INT,
    AVX_VNNI,
    AVX512BF16,
    LASS,
    CMPCCXADD,
    ARCHPerfMonExt,
    FastZeroRepMOVSB,
    FastShortRepSTOSB,
    FastShortRepCMPSB,
    FRED,
    LKGS,
    WRMSRNS,
    AMXFP16,
    HReset,
    LAM,
    MSRList,
    PPIN,
    PKNDKB,
    AVX_VNNI_INT8,
    AVX_NE_CONVERT,
    AMXComplex,
    AVX_VNNI_INT16,
    PREFETCHI,
    UserMSR,
    UIRetUIFFromRFlags,
    CET_SSS,
    AVX10,
    APX_F,
    PFSD,
    IPREDDIS,
    RRSBACtrl,
    DPPDU,
    BHICtrl,
    MCDT_NO,
    Syscall,
    NX,
    FXSROpt,
    GigabytePages,
    RDTSCP,
    LongMode,
    Ext3dNow,
    F3DNow,
    LAHF_LM,
    CmpLegacy,
    SecureVM,
    ExtendedAPIC,
    CR8Legacy,
    ABM,
    SSE4a,
    MisalignedSSE,
    Prefetch3DNow,
    OSVW,
    IBS,
    XOP,
    SKINIT,
    WatchdogTimer,
    LWP,
    FMA4,
    TCE,
    NodeIdMSR,
    TBM,
    TopoExt,
    PrefCtrCoe,
    PrefCtrNb,
    StreamPerfMon,
    DBX,
    PerfTSC,
    PCXL2I,
    MonitorX,
    AddrMaskExt,
}

/// Where one feature is reported: the query that carries it, the output
/// field within that query's response, and the bitmask that must be fully
/// set.
#[derive(Clone, Copy, PartialEq, Eq, Structural, Debug, Hash)]
pub struct FeatureInfo {
    /// The output field of the response that carries this feature.
    pub register: OutputRegister,
    /// The query whose response carries this feature.
    pub request: CPUIDRequest,
    /// The bits that must all be set for the feature to be active.
    pub mask: u32,
}

impl CPUFeature {
    /// This feature's position in the catalog's declaration order.
    #[verifier::opaque]
    pub open spec fn catalog_index(self) -> int {
        match self {
            CPUFeature::SSE3 => 0,
            CPUFeature::PCLMUL => 1,
            CPUFeature::DTES64 => 2,
            CPUFeature::MONITOR => 3,
            CPUFeature::DS_CPL => 4,
            CPUFeature::VMX => 5,
            CPUFeature::SMX => 6,
            CPUFeature::EST => 7,
            CPUFeature::TM2 => 8,
            CPUFeature::SSSE3 => 9,
            CPUFeature::CID => 10,
            CPUFeature::SDBG => 11,
            CPUFeature::FMA => 12,
            CPUFeature::CX16 => 13,
            CPUFeature::XTPR => 14,
            CPUFeature::PDCM => 15,
            CPUFeature::PCID => 16,
            CPUFeature::DCA => 17,
            CPUFeature::SSE4_1 => 18,
            CPUFeature::SSE4_2 => 19,
            CPUFeature::X2APIC => 20,
            CPUFeature::MOVBE => 21,
            CPUFeature::POPCNT => 22,
            CPUFeature::TSCDeadline => 23,
            CPUFeature::AES => 24,
            CPUFeature::XSAVE => 25,
            CPUFeature::OSXSAVE => 26,
            CPUFeature::AVX => 27,
            CPUFeature::F16C => 28,
            CPUFeature::RDRAND => 29,
            CPUFeature::HYPERVISOR => 30,
            CPUFeature::FPU => 31,
            CPUFeature::VME => 32,
            CPUFeature::DE => 33,
            CPUFeature::PSE => 34,
            CPUFeature::TSC => 35,
            CPUFeature::MSR => 36,
            CPUFeature::PAE => 37,
            CPUFeature::MCE => 38,
            CPUFeature::CX8 => 39,
            CPUFeature::APIC => 40,
            CPUFeature::SEP => 41,
            CPUFeature::MTRR => 42,
            CPUFeature::PGE => 43,
            CPUFeature::MCA => 44,
            CPUFeature::CMOV => 45,
            CPUFeature::PAT => 46,
            CPUFeature::PSE36 => 47,
            CPUFeature::PSN => 48,
            CPUFeature::CLFLUSH => 49,
            CPUFeature::NX_Itanium => 50,
            CPUFeature::DS => 51,
            CPUFeature::ACPI => 52,
            CPUFeature::MMX => 53,
            CPUFeature::FXSR => 54,
            CPUFeature::SSE => 55,
            CPUFeature::SSE2 => 56,
            CPUFeature::SS => 57,
            CPUFeature::HTT => 58,
            CPUFeature::TM => 59,
            CPUFeature::IA64 => 60,
            CPUFeature::PBE => 61,
            CPUFeature::FSGSBase => 62,
            CPUFeature::SGX => 63,
            CPUFeature::BMI1 => 64,
            CPUFeature::HLE => 65,
            CPUFeature::AVX2 => 66,
            CPUFeature::FDP_EXCPTN_ONLY => 67,
            CPUFeature::SMEP => 68,
            CPUFeature::BMI2 => 69,
            CPUFeature::ERMS => 70,
            CPUFeature::INVPCID => 71,
            CPUFeature::RTM => 72,
            CPUFeature::PQM => 73,
            CPUFeature::MPX => 74,
            CPUFeature::AVX512F => 75,
            CPUFeature::AVX512DQ => 76,
            CPUFeature::RDSEED => 77,
            CPUFeature::ADX => 78,
            CPUFeature::SMAP => 79,
            CPUFeature::AVX512_IFMA => 80,
            CPUFeature::PCOMMIT => 81,
            CPUFeature::CFLUSHOPT => 82,
            CPUFeature::CLWB => 83,
            CPUFeature::PT => 84,
            CPUFeature::AVX512PF => 85,
            CPUFeature::AVX512ER => 86,
            CPUFeature::AVX512CD => 87,
            CPUFeature::SHA => 88,
            CPUFeature::AVX512BW => 89,
            CPUFeature::AVX512VI => 90,
            CPUFeature::PreFetchWT1 => 91,
            CPUFeature::AVX512VBMI => 92,
            CPUFeature::UMIP => 93,
            CPUFeature::PKU => 94,
            CPUFeature::OSPKE => 95,
            CPUFeature::WAITKG => 96,
            CPUFeature::AVX512VBMI2 => 97,
            CPUFeature::ShadowStack => 98,
            CPUFeature::GFNI => 99,
            CPUFeature::VAES => 100,
            CPUFeature::VPCLMULQDQ => 101,
            CPUFeature::AVX512VNNI => 102,
            CPUFeature::AVX512BITALG => 103,
            CPUFeature::TME => 104,
            CPUFeature::AVX512VPOPCNTDQ => 105,
            CPUFeature::LA57 => 106,
            CPUFeature::RDPID => 107,
            CPUFeature::KL => 108,
            CPUFeature::BusLockDetect => 109,
            CPUFeature::CIDEMOTE => 110,
            CPUFeature::MOVDIRI => 111,
            CPUFeature::MOBDIR64B => 112,
            CPUFeature::ENQCMD => 113,
            CPUFeature::SGXLC => 114,
            CPUFeature::PKS => 115,
            CPUFeature::SGXKeys => 116,
            CPUFeature::AVX512_4VNNIW => 117,
            CPUFeature::AVX512_4FMAPS => 118,
            CPUFeature::FSRM => 119,
            CPUFeature::UINTR => 120,
            CPUFeature::AVX512VP2INTERSECT => 121,
            CPUFeature::SRDBS_CTRL => 122,
            CPUFeature::MCClear => 123,
            CPUFeature::RTMAlwaysAbort => 124,
            CPUFeature::TSXForceAbort => 125,
            CPUFeature::SERIALIZE => 126,
            CPUFeature::HYBRID => 127,
            CPUFeature::TSXLDTRK => 128,
            CPUFeature::PCONFIG => 129,
            CPUFeature::IBR => 130,
            CPUFeature::CET_IBT => 131,
            CPUFeature::AMXBF16 => 132,
            CPUFeature::AVS512FP16 => 133,
            CPUFeature::AMXTile => 134,
            CPUFeature::AMXInt8 => 135,
            CPUFeature::SpecControl => 136,
            CPUFeature::STIBP => 137,
            CPUFeature::L1DFlush => 138,
            CPUFeature::SSBD => 139,
            CPUFeature::SHA512Extensions => 140,
            CPUFeature::SM3 => 141,
            CPUFeature::SM4 => 142,
            CPUFeature::RAO_INT => 143,
            CPUFeature::AVX_VNNI => 144,
            CPUFeature::AVX512BF16 => 145,
            CPUFeature::LASS => 146,
            CPUFeature::CMPCCXADD => 147,
            CPUFeature::ARCHPerfMonExt => 148,
            CPUFeature::FastZeroRepMOVSB => 149,
            CPUFeature::FastShortRepSTOSB => 150,
            CPUFeature::FastShortRepCMPSB => 151,
            CPUFeature::FRED => 152,
            CPUFeature::LKGS => 153,
            CPUFeature::WRMSRNS => 154,
            CPUFeature::AMXFP16 => 155,
            CPUFeature::HReset => 156,
            CPUFeature::LAM => 157,
            CPUFeature::MSRList => 158,
            CPUFeature::PPIN => 159,
            CPUFeature::PKNDKB => 160,
            CPUFeature::AVX_VNNI_INT8 => 161,
            CPUFeature::AVX_NE_CONVERT => 162,
            CPUFeature::AMXComplex => 163,
            CPUFeature::AVX_VNNI_INT16 => 164,
            CPUFeature::PREFETCHI => 165,
            CPUFeature::UserMSR => 166,
            CPUFeature::UIRetUIFFromRFlags => 167,
            CPUFeature::CET_SSS => 168,
            CPUFeature::AVX10 => 169,
            CPUFeature::APX_F => 170,
            CPUFeature::PFSD => 171,
            CPUFeature::IPREDDIS => 172,
            CPUFeature::RRSBACtrl => 173,
            CPUFeature::DPPDU => 174,
            CPUFeature::BHICtrl => 175,
            CPUFeature::MCDT_NO => 176,
            CPUFeature::Syscall => 177,
            CPUFeature::NX => 178,
            CPUFeature::FXSROpt => 179,
            CPUFeature::GigabytePages => 180,
            CPUFeature::RDTSCP => 181,
            CPUFeature::LongMode => 182,
            CPUFeature::Ext3dNow => 183,
            CPUFeature::F3DNow => 184,
            CPUFeature::LAHF_LM => 185,
            CPUFeature::CmpLegacy => 186,
            CPUFeature::SecureVM => 187,
            CPUFeature::ExtendedAPIC => 188,
            CPUFeature::CR8Legacy => 189,
            CPUFeature::ABM => 190,
            CPUFeature::SSE4a => 191,
            CPUFeature::MisalignedSSE => 192,
            CPUFeature::Prefetch3DNow => 193,
            CPUFeature::OSVW => 194,
            CPUFeature::IBS => 195,
            CPUFeature::XOP => 196,
            CPUFeature::SKINIT => 197,
            CPUFeature::WatchdogTimer => 198,
            CPUFeature::LWP => 199,
            CPUFeature::FMA4 => 200,
            CPUFeature::TCE => 201,
            CPUFeature::NodeIdMSR => 202,
            CPUFeature::TBM => 203,
            CPUFeature::TopoExt => 204,
            CPUFeature::PrefCtrCoe => 205,
            CPUFeature::PrefCtrNb => 206,
            CPUFeature::StreamPerfMon => 207,
            CPUFeature::DBX => 208,
            CPUFeature::PerfTSC => 209,
            CPUFeature::PCXL2I => 210,
            CPUFeature::MonitorX => 211,
            CPUFeature::AddrMaskExt => 212,
        }
    }

    /// The feature declared at the given catalog position.
    #[verifier::opaque]
    pub open spec fn spec_catalog_at(i: int) -> CPUFeature {
        if i == 0 {
            CPUFeature::SSE3
        } else if i == 1 {
            CPUFeature::PCLMUL
        } else if i == 2 {
            CPUFeature::DTES64
        } else if i == 3 {
            CPUFeature::MONITOR
        } else if i == 4 {
            CPUFeature::DS_CPL
        } else if i == 5 {
            CPUFeature::VMX
        } else if i == 6 {
            CPUFeature::SMX
        } else if i == 7 {
            CPUFeature::EST
        } else if i == 8 {
            CPUFeature::TM2
        } else if i == 9 {
            CPUFeature::SSSE3
        } else if i == 10 {
            CPUFeature::CID
        } else if i == 11 {
            CPUFeature::SDBG
        } else if i == 12 {
            CPUFeature::FMA
        } else if i == 13 {
            CPUFeature::CX16
        } else if i == 14 {
            CPUFeature::XTPR
        } else if i == 15 {
            CPUFeature::PDCM
        } else if i == 16 {
            CPUFeature::PCID
        } else if i == 17 {
            CPUFeature::DCA
        } else if i == 18 {
            CPUFeature::SSE4_1
        } else if i == 19 {
            CPUFeature::SSE4_2
        } else if i == 20 {
            CPUFeature::X2APIC
        } else if i == 21 {
            CPUFeature::MOVBE
        } else if i == 22 {
            CPUFeature::POPCNT
        } else if i == 23 {
            CPUFeature::TSCDeadline
        } else if i == 24 {
            CPUFeature::AES
        } else if i == 25 {
            CPUFeature::XSAVE
        } else if i == 26 {
            CPUFeature::OSXSAVE
        } else if i == 27 {
            CPUFeature::AVX
        } else if i == 28 {
            CPUFeature::F16C
        } else if i == 29 {
            CPUFeature::RDRAND
        } else if i == 30 {
            CPUFeature::HYPERVISOR
        } else if i == 31 {
            CPUFeature::FPU
        } else if i == 32 {
            CPUFeature::VME
        } else if i == 33 {
            CPUFeature::DE
        } else if i == 34 {
            CPUFeature::PSE
        } else if i == 35 {
            CPUFeature::TSC
        } else if i == 36 {
            CPUFeature::MSR
        } else if i == 37 {
            CPUFeature::PAE
        } else if i == 38 {
            CPUFeature::MCE
        } else if i == 39 {
            CPUFeature::CX8
        } else if i == 40 {
            CPUFeature::APIC
        } else if i == 41 {
            CPUFeature::SEP
        } else if i == 42 {
            CPUFeature::MTRR
        } else if i == 43 {
            CPUFeature::PGE
        } else if i == 44 {
            CPUFeature::MCA
        } else if i == 45 {
            CPUFeature::CMOV
        } else if i == 46 {
            CPUFeature::PAT
        } else if i == 47 {
            CPUFeature::PSE36
        } else if i == 48 {
            CPUFeature::PSN
        } else if i == 49 {
            CPUFeature::CLFLUSH
        } else if i == 50 {
            CPUFeature::NX_Itanium
        } else if i == 51 {
            CPUFeature::DS
        } else if i == 52 {
            CPUFeature::ACPI
        } else if i == 53 {
            CPUFeature::MMX
        } else if i == 54 {
            CPUFeature::FXSR
        } else if i == 55 {
            CPUFeature::SSE
        } else if i == 56 {
            CPUFeature::SSE2
        } else if i == 57 {
            CPUFeature::SS
        } else if i == 58 {
            CPUFeature::HTT
        } else if i == 59 {
            CPUFeature::TM
        } else if i == 60 {
            CPUFeature::IA64
        } else if i == 61 {
            CPUFeature::PBE
        } else if i == 62 {
            CPUFeature::FSGSBase
        } else if i == 63 {
            CPUFeature::SGX
        } else if i == 64 {
            CPUFeature::BMI1
        } else if i == 65 {
            CPUFeature::HLE
        } else if i == 66 {
            CPUFeature::AVX2
        } else if i == 67 {
            CPUFeature::FDP_EXCPTN_ONLY
        } else if i == 68 {
            CPUFeature::SMEP
        } else if i == 69 {
            CPUFeature::BMI2
        } else if i == 70 {
            CPUFeature::ERMS
        } else if i == 71 {
            CPUFeature::INVPCID
        } else if i == 72 {
            CPUFeature::RTM
        } else if i == 73 {
            CPUFeature::PQM
        } else if i == 74 {
            CPUFeature::MPX
        } else if i == 75 {
            CPUFeature::AVX512F
        } else if i == 76 {
            CPUFeature::AVX512DQ
        } else if i == 77 {
            CPUFeature::RDSEED
        } else if i == 78 {
            CPUFeature::ADX
        } else if i == 79 {
            CPUFeature::SMAP
        } else if i == 80 {
            CPUFeature::AVX512_IFMA
        } else if i == 81 {
            CPUFeature::PCOMMIT
        } else if i == 82 {
            CPUFeature::CFLUSHOPT
        } else if i == 83 {
            CPUFeature::CLWB
        } else if i == 84 {
            CPUFeature::PT
        } else if i == 85 {
            CPUFeature::AVX512PF
        } else if i == 86 {
            CPUFeature::AVX512ER
        } else if i == 87 {
            CPUFeature::AVX512CD
        } else if i == 88 {
            CPUFeature::SHA
        } else if i == 89 {
            CPUFeature::AVX512BW
        } else if i == 90 {
            CPUFeature::AVX512VI
        } else if i == 91 {
            CPUFeature::PreFetchWT1
        } else if i == 92 {
            CPUFeature::AVX512VBMI
        } else if i == 93 {
            CPUFeature::UMIP
        } else if i == 94 {
            CPUFeature::PKU
        } else if i == 95 {
            CPUFeature::OSPKE
        } else if i == 96 {
            CPUFeature::WAITKG
        } else if i == 97 {
            CPUFeature::AVX512VBMI2
        } else if i == 98 {
            CPUFeature::ShadowStack
        } else if i == 99 {
            CPUFeature::GFNI
        } else if i == 100 {
            CPUFeature::VAES
        } else if i == 101 {
            CPUFeature::VPCLMULQDQ
        } else if i == 102 {
            CPUFeature::AVX512VNNI
        } else if i == 103 {
            CPUFeature::AVX512BITALG
        } else if i == 104 {
            CPUFeature::TME
        } else if i == 105 {
            CPUFeature::AVX512VPOPCNTDQ
        } else if i == 106 {
            CPUFeature::LA57
        } else if i == 107 {
            CPUFeature::RDPID
        } else if i == 108 {
            CPUFeature::KL
        } else if i == 109 {
            CPUFeature::BusLockDetect
        } else if i == 110 {
            CPUFeature::CIDEMOTE
        } else if i == 111 {
            CPUFeature::MOVDIRI
        } else if i == 112 {
            CPUFeature::MOBDIR64B
        } else if i == 113 {
            CPUFeature::ENQCMD
        } else if i == 114 {
            CPUFeature::SGXLC
        } else if i == 115 {
            CPUFeature::PKS
        } else if i == 116 {
            CPUFeature::SGXKeys
        } else if i == 117 {
            CPUFeature::AVX512_4VNNIW
        } else if i == 118 {
            CPUFeature::AVX512_4FMAPS
        } else if i == 119 {
            CPUFeature::FSRM
        } else if i == 120 {
            CPUFeature::UINTR
        } else if i == 121 {
            CPUFeature::AVX512VP2INTERSECT
        } else if i == 122 {
            CPUFeature::SRDBS_CTRL
        } else if i == 123 {
            CPUFeature::MCClear
        } else if i == 124 {
            CPUFeature::RTMAlwaysAbort
        } else if i == 125 {
            CPUFeature::TSXForceAbort
        } else if i == 126 {
            CPUFeature::SERIALIZE
        } else if i == 127 {
            CPUFeature::HYBRID
        } else if i == 128 {
            CPUFeature::TSXLDTRK
        } else if i == 129 {
            CPUFeature::PCONFIG
        } else if i == 130 {
            CPUFeature::IBR
        } else if i == 131 {
            CPUFeature::CET_IBT
        } else if i == 132 {
            CPUFeature::AMXBF16
        } else if i == 133 {
            CPUFeature::AVS512FP16
        } else if i == 134 {
            CPUFeature::AMXTile
        } else if i == 135 {
            CPUFeature::AMXInt8
        } else if i == 136 {
            CPUFeature::SpecControl
        } else if i == 137 {
            CPUFeature::STIBP
        } else if i == 138 {
            CPUFeature::L1DFlush
        } else if i == 139 {
            CPUFeature::SSBD
        } else if i == 140 {
            CPUFeature::SHA512Extensions
        } else if i == 141 {
            CPUFeature::SM3
        } else if i == 142 {
            CPUFeature::SM4
        } else if i == 143 {
            CPUFeature::RAO_INT
        } else if i == 144 {
            CPUFeature::AVX_VNNI
        } else if i == 145 {
            CPUFeature::AVX512BF16
        } else if i == 146 {
            CPUFeature::LASS
        } else if i == 147 {
            CPUFeature::CMPCCXADD
        } else if i == 148 {
            CPUFeature::ARCHPerfMonExt
        } else if i == 149 {
            CPUFeature::FastZeroRepMOVSB
        } else if i == 150 {
            CPUFeature::FastShortRepSTOSB
        } else if i == 151 {
            CPUFeature::FastShortRepCMPSB
        } else if i == 152 {
            CPUFeature::FRED
        } else if i == 153 {
            CPUFeature::LKGS
        } else if i == 154 {
            CPUFeature::WRMSRNS
        } else if i == 155 {
            CPUFeature::AMXFP16
        } else if i == 156 {
            CPUFeature::HReset
        } else if i == 157 {
            CPUFeature::LAM
        } else if i == 158 {
            CPUFeature::MSRList
        } else if i == 159 {
            CPUFeature::PPIN
        } else if i == 160 {
            CPUFeature::PKNDKB
        } else if i == 161 {
            CPUFeature::AVX_VNNI_INT8
        } else if i == 162 {
            CPUFeature::AVX_NE_CONVERT
        } else if i == 163 {
            CPUFeature::AMXComplex
        } else if i == 164 {
            CPUFeature::AVX_VNNI_INT16
        } else if i == 165 {
            CPUFeature::PREFETCHI
        } else if i == 166 {
            CPUFeature::UserMSR
        } else if i == 167 {
            CPUFeature::UIRetUIFFromRFlags
        } else if i == 168 {
            CPUFeature::CET_SSS
        } else if i == 169 {
            CPUFeature::AVX10
        } else if i == 170 {
            CPUFeature::APX_F
        } else if i == 171 {
            CPUFeature::PFSD
        } else if i == 172 {
            CPUFeature::IPREDDIS
        } else if i == 173 {
            CPUFeature::RRSBACtrl
        } else if i == 174 {
            CPUFeature::DPPDU
        } else if i == 175 {
            CPUFeature::BHICtrl
        } else if i == 176 {
            CPUFeature::MCDT_NO
        } else if i == 177 {
            CPUFeature::Syscall
        } else if i == 178 {
            CPUFeature::NX
        } else if i == 179 {
            CPUFeature::FXSROpt
        } else if i == 180 {
            CPUFeature::GigabytePages
        } else if i == 181 {
            CPUFeature::RDTSCP
        } else if i == 182 {
            CPUFeature::LongMode
        } else if i == 183 {
            CPUFeature::Ext3dNow
        } else if i == 184 {
            CPUFeature::F3DNow
        } else if i == 185 {
            CPUFeature::LAHF_LM
        } else if i == 186 {
            CPUFeature::CmpLegacy
        } else if i == 187 {
            CPUFeature::SecureVM
        } else if i == 188 {
            CPUFeature::ExtendedAPIC
        } else if i == 189 {
            CPUFeature::CR8Legacy
        } else if i == 190 {
            CPUFeature::ABM
        } else if i == 191 {
            CPUFeature::SSE4a
        } else if i == 192 {
            CPUFeature::MisalignedSSE
        } else if i == 193 {
            CPUFeature::Prefetch3DNow
        } else if i == 194 {
            CPUFeature::OSVW
        } else if i == 195 {
            CPUFeature::IBS
        } else if i == 196 {
            CPUFeature::XOP
        } else if i == 197 {
            CPUFeature::SKINIT
        } else if i == 198 {
            CPUFeature::WatchdogTimer
        } else if i == 199 {
            CPUFeature::LWP
        } else if i == 200 {
            CPUFeature::FMA4
        } else if i == 201 {
            CPUFeature::TCE
        } else if i == 202 {
            CPUFeature::NodeIdMSR
        } else if i == 203 {
            CPUFeature::TBM
        } else if i == 204 {
            CPUFeature::TopoExt
        } else if i == 205 {
            CPUFeature::PrefCtrCoe
        } else if i == 206 {
            CPUFeature::PrefCtrNb
        } else if i == 207 {
            CPUFeature::StreamPerfMon
        } else if i == 208 {
            CPUFeature::DBX
        } else if i == 209 {
            CPUFeature::PerfTSC
        } else if i == 210 {
            CPUFeature::PCXL2I
        } else if i == 211 {
            CPUFeature::MonitorX
        } else {
            CPUFeature::AddrMaskExt
        }
    }

    /// The full static catalog, in declaration order.
    pub open spec fn spec_catalog() -> Seq<CPUFeature> {
        Seq::new(FEATURE_COUNT as nat, |i: int| CPUFeature::spec_catalog_at(i))
    }

    /// The feature declared at the given catalog position.
    pub fn catalog_at(i: usize) -> (r: CPUFeature)
        requires
            i < FEATURE_COUNT,
        ensures
            r == CPUFeature::spec_catalog_at(i as int),
    {
        proof {
            reveal(CPUFeature::spec_catalog_at);
        }
        if i == 0 {
            CPUFeature::SSE3
        } else if i == 1 {
            CPUFeature::PCLMUL
        } else if i == 2 {
            CPUFeature::DTES64
        } else if i == 3 {
            CPUFeature::MONITOR
        } else if i == 4 {
            CPUFeature::DS_CPL
        } else if i == 5 {
            CPUFeature::VMX
        } else if i == 6 {
            CPUFeature::SMX
        } else if i == 7 {
            CPUFeature::EST
        } else if i == 8 {
            CPUFeature::TM2
        } else if i == 9 {
            CPUFeature::SSSE3
        } else if i == 10 {
            CPUFeature::CID
        } else if i == 11 {
            CPUFeature::SDBG
        } else if i == 12 {
            CPUFeature::FMA
        } else if i == 13 {
            CPUFeature::CX16
        } else if i == 14 {
            CPUFeature::XTPR
        } else if i == 15 {
            CPUFeature::PDCM
        } else if i == 16 {
            CPUFeature::PCID
        } else if i == 17 {
            CPUFeature::DCA
        } else if i == 18 {
            CPUFeature::SSE4_1
        } else if i == 19 {
            CPUFeature::SSE4_2
        } else if i == 20 {
            CPUFeature::X2APIC
        } else if i == 21 {
            CPUFeature::MOVBE
        } else if i == 22 {
            CPUFeature::POPCNT
        } else if i == 23 {
            CPUFeature::TSCDeadline
        } else if i == 24 {
            CPUFeature::AES
        } else if i == 25 {
            CPUFeature::XSAVE
        } else if i == 26 {
            CPUFeature::OSXSAVE
        } else if i == 27 {
            CPUFeature::AVX
        } else if i == 28 {
            CPUFeature::F16C
        } else if i == 29 {
            CPUFeature::RDRAND
        } else if i == 30 {
            CPUFeature::HYPERVISOR
        } else if i == 31 {
            CPUFeature::FPU
        } else if i == 32 {
            CPUFeature::VME
        } else if i == 33 {
            CPUFeature::DE
        } else if i == 34 {
            CPUFeature::PSE
        } else if i == 35 {
            CPUFeature::TSC
        } else if i == 36 {
            CPUFeature::MSR
        } else if i == 37 {
            CPUFeature::PAE
        } else if i == 38 {
            CPUFeature::MCE
        } else if i == 39 {
            CPUFeature::CX8
        } else if i == 40 {
            CPUFeature::APIC
        } else if i == 41 {
            CPUFeature::SEP
        } else if i == 42 {
            CPUFeature::MTRR
        } else if i == 43 {
            CPUFeature::PGE
        } else if i == 44 {
            CPUFeature::MCA
        } else if i == 45 {
            CPUFeature::CMOV
        } else if i == 46 {
            CPUFeature::PAT
        } else if i == 47 {
            CPUFeature::PSE36
        } else if i == 48 {
            CPUFeature::PSN
        } else if i == 49 {
            CPUFeature::CLFLUSH
        } else if i == 50 {
            CPUFeature::NX_Itanium
        } else if i == 51 {
            CPUFeature::DS
        } else if i == 52 {
            CPUFeature::ACPI
        } else if i == 53 {
            CPUFeature::MMX
        } else if i == 54 {
            CPUFeature::FXSR
        } else if i == 55 {
            CPUFeature::SSE
        } else if i == 56 {
            CPUFeature::SSE2
        } else if i == 57 {
            CPUFeature::SS
        } else if i == 58 {
            CPUFeature::HTT
        } else if i == 59 {
            CPUFeature::TM
        } else if i == 60 {
            CPUFeature::IA64
        } else if i == 61 {
            CPUFeature::PBE
        } else if i == 62 {
            CPUFeature::FSGSBase
        } else if i == 63 {
            CPUFeature::SGX
        } else if i == 64 {
            CPUFeature::BMI1
        } else if i == 65 {
            CPUFeature::HLE
        } else if i == 66 {
            CPUFeature::AVX2
        } else if i == 67 {
            CPUFeature::FDP_EXCPTN_ONLY
        } else if i == 68 {
            CPUFeature::SMEP
        } else if i == 69 {
            CPUFeature::BMI2
        } else if i == 70 {
            CPUFeature::ERMS
        } else if i == 71 {
            CPUFeature::INVPCID
        } else if i == 72 {
            CPUFeature::RTM
        } else if i == 73 {
            CPUFeature::PQM
        } else if i == 74 {
            CPUFeature::MPX
        } else if i == 75 {
            CPUFeature::AVX512F
        } else if i == 76 {
            CPUFeature::AVX512DQ
        } else if i == 77 {
            CPUFeature::RDSEED
        } else if i == 78 {
            CPUFeature::ADX
        } else if i == 79 {
            CPUFeature::SMAP
        } else if i == 80 {
            CPUFeature::AVX512_IFMA
        } else if i == 81 {
            CPUFeature::PCOMMIT
        } else if i == 82 {
            CPUFeature::CFLUSHOPT
        } else if i == 83 {
            CPUFeature::CLWB
        } else if i == 84 {
            CPUFeature::PT
        } else if i == 85 {
            CPUFeature::AVX512PF
        } else if i == 86 {
            CPUFeature::AVX512ER
        } else if i == 87 {
            CPUFeature::AVX512CD
        } else if i == 88 {
            CPUFeature::SHA
        } else if i == 89 {
            CPUFeature::AVX512BW
        } else if i == 90 {
            CPUFeature::AVX512VI
        } else if i == 91 {
            CPUFeature::PreFetchWT1
        } else if i == 92 {
            CPUFeature::AVX512VBMI
        } else if i == 93 {
            CPUFeature::UMIP
        } else if i == 94 {
            CPUFeature::PKU
        } else if i == 95 {
            CPUFeature::OSPKE
        } else if i == 96 {
            CPUFeature::WAITKG
        } else if i == 97 {
            CPUFeature::AVX512VBMI2
        } else if i == 98 {
            CPUFeature::ShadowStack
        } else if i == 99 {
            CPUFeature::GFNI
        } else if i == 100 {
            CPUFeature::VAES
        } else if i == 101 {
            CPUFeature::VPCLMULQDQ
        } else if i == 102 {
            CPUFeature::AVX512VNNI
        } else if i == 103 {
            CPUFeature::AVX512BITALG
        } else if i == 104 {
            CPUFeature::TME
        } else if i == 105 {
            CPUFeature::AVX512VPOPCNTDQ
        } else if i == 106 {
            CPUFeature::LA57
        } else if i == 107 {
            CPUFeature::RDPID
        } else if i == 108 {
            CPUFeature::KL
        } else if i == 109 {
            CPUFeature::BusLockDetect
        } else if i == 110 {
            CPUFeature::CIDEMOTE
        } else if i == 111 {
            CPUFeature::MOVDIRI
        } else if i == 112 {
            CPUFeature::MOBDIR64B
        } else if i == 113 {
            CPUFeature::ENQCMD
        } else if i == 114 {
            CPUFeature::SGXLC
        } else if i == 115 {
            CPUFeature::PKS
        } else if i == 116 {
            CPUFeature::SGXKeys
        } else if i == 117 {
            CPUFeature::AVX512_4VNNIW
        } else if i == 118 {
            CPUFeature::AVX512_4FMAPS
        } else if i == 119 {
            CPUFeature::FSRM
        } else if i == 120 {
            CPUFeature::UINTR
        } else if i == 121 {
            CPUFeature::AVX512VP2INTERSECT
        } else if i == 122 {
            CPUFeature::SRDBS_CTRL
        } else if i == 123 {
            CPUFeature::MCClear
        } else if i == 124 {
            CPUFeature::RTMAlwaysAbort
        } else if i == 125 {
            CPUFeature::TSXForceAbort
        } else if i == 126 {
            CPUFeature::SERIALIZE
        } else if i == 127 {
            CPUFeature::HYBRID
        } else if i == 128 {
            CPUFeature::TSXLDTRK
        } else if i == 129 {
            CPUFeature::PCONFIG
        } else if i == 130 {
            CPUFeature::IBR
        } else if i == 131 {
            CPUFeature::CET_IBT
        } else if i == 132 {
            CPUFeature::AMXBF16
        } else if i == 133 {
            CPUFeature::AVS512FP16
        } else if i == 134 {
            CPUFeature::AMXTile
        } else if i == 135 {
            CPUFeature::AMXInt8
        } else if i == 136 {
            CPUFeature::SpecControl
        } else if i == 137 {
            CPUFeature::STIBP
        } else if i == 138 {
            CPUFeature::L1DFlush
        } else if i == 139 {
            CPUFeature::SSBD
        } else if i == 140 {
            CPUFeature::SHA512Extensions
        } else if i == 141 {
            CPUFeature::SM3
        } else if i == 142 {
            CPUFeature::SM4
        } else if i == 143 {
            CPUFeature::RAO_INT
        } else if i == 144 {
            CPUFeature::AVX_VNNI
        } else if i == 145 {
            CPUFeature::AVX512BF16
        } else if i == 146 {
            CPUFeature::LASS
        } else if i == 147 {
            CPUFeature::CMPCCXADD
        } else if i == 148 {
            CPUFeature::ARCHPerfMonExt
        } else if i == 149 {
            CPUFeature::FastZeroRepMOVSB
        } else if i == 150 {
            CPUFeature::FastShortRepSTOSB
        } else if i == 151 {
            CPUFeature::FastShortRepCMPSB
        } else if i == 152 {
            CPUFeature::FRED
        } else if i == 153 {
            CPUFeature::LKGS
        } else if i == 154 {
            CPUFeature::WRMSRNS
        } else if i == 155 {
            CPUFeature::AMXFP16
        } else if i == 156 {
            CPUFeature::HReset
        } else if i == 157 {
            CPUFeature::LAM
        } else if i == 158 {
            CPUFeature::MSRList
        } else if i == 159 {
            CPUFeature::PPIN
        } else if i == 160 {
            CPUFeature::PKNDKB
        } else if i == 161 {
            CPUFeature::AVX_VNNI_INT8
        } else if i == 162 {
            CPUFeature::AVX_NE_CONVERT
        } else if i == 163 {
            CPUFeature::AMXComplex
        } else if i == 164 {
            CPUFeature::AVX_VNNI_INT16
        } else if i == 165 {
            CPUFeature::PREFETCHI
        } else if i == 166 {
            CPUFeature::UserMSR
        } else if i == 167 {
            CPUFeature::UIRetUIFFromRFlags
        } else if i == 168 {
            CPUFeature::CET_SSS
        } else if i == 169 {
            CPUFeature::AVX10
        } else if i == 170 {
            CPUFeature::APX_F
        } else if i == 171 {
            CPUFeature::PFSD
        } else if i == 172 {
            CPUFeature::IPREDDIS
        } else if i == 173 {
            CPUFeature::RRSBACtrl
        } else if i == 174 {
            CPUFeature::DPPDU
        } else if i == 175 {
            CPUFeature::BHICtrl
        } else if i == 176 {
            CPUFeature::MCDT_NO
        } else if i == 177 {
            CPUFeature::Syscall
        } else if i == 178 {
            CPUFeature::NX
        } else if i == 179 {
            CPUFeature::FXSROpt
        } else if i == 180 {
            CPUFeature::GigabytePages
        } else if i == 181 {
            CPUFeature::RDTSCP
        } else if i == 182 {
            CPUFeature::LongMode
        } else if i == 183 {
            CPUFeature::Ext3dNow
        } else if i == 184 {
            CPUFeature::F3DNow
        } else if i == 185 {
            CPUFeature::LAHF_LM
        } else if i == 186 {
            CPUFeature::CmpLegacy
        } else if i == 187 {
            CPUFeature::SecureVM
        } else if i == 188 {
            CPUFeature::ExtendedAPIC
        } else if i == 189 {
            CPUFeature::CR8Legacy
        } else if i == 190 {
            CPUFeature::ABM
        } else if i == 191 {
            CPUFeature::SSE4a
        } else if i == 192 {
            CPUFeature::MisalignedSSE
        } else if i == 193 {
            CPUFeature::Prefetch3DNow
        } else if i == 194 {
            CPUFeature::OSVW
        } else if i == 195 {
            CPUFeature::IBS
        } else if i == 196 {
            CPUFeature::XOP
        } else if i == 197 {
            CPUFeature::SKINIT
        } else if i == 198 {
            CPUFeature::WatchdogTimer
        } else if i == 199 {
            CPUFeature::LWP
        } else if i == 200 {
            CPUFeature::FMA4
        } else if i == 201 {
            CPUFeature::TCE
        } else if i == 202 {
            CPUFeature::NodeIdMSR
        } else if i == 203 {
            CPUFeature::TBM
        } else if i == 204 {
            CPUFeature::TopoExt
        } else if i == 205 {
            CPUFeature::PrefCtrCoe
        } else if i == 206 {
            CPUFeature::PrefCtrNb
        } else if i == 207 {
            CPUFeature::StreamPerfMon
        } else if i == 208 {
            CPUFeature::DBX
        } else if i == 209 {
            CPUFeature::PerfTSC
        } else if i == 210 {
            CPUFeature::PCXL2I
        } else if i == 211 {
            CPUFeature::MonitorX
        } else {
            CPUFeature::AddrMaskExt
        }
    }

    /// The query, output field and mask under which this feature is
    /// reported.
    #[verifier::opaque]
    pub open spec fn spec_info(self) -> FeatureInfo {
        match self {
            CPUFeature::SSE3 => (FeatureInfo {
                register: OutputRegister::ECX,
                request: CPUIDRequest::Features,
                mask: 1u32 << 0,
            }),
            CPUFeature::PCLMUL => (FeatureInfo {
                register: OutputRegister::ECX,
                request: CPUIDRequest::Features,
                mask: 1u32 << 1,
            }),
            CPUFeature::DTES64 => (FeatureInfo {
                register: OutputRegister::ECX,
                request: CPUIDRequest::Features,
                mask: 1u32 << 2,
            }),
            CPUFeature::MONITOR => (FeatureInfo {
                register: OutputRegister::ECX,
                request: CPUIDRequest::Features,
                mask: 1u32 << 3,
            }),
            CPUFeature::DS_CPL => (FeatureInfo {
                register: OutputRegister::ECX,
                request: CPUIDRequest::Features,
                mask: 1u32 << 4,
            }),
            CPUFeature::VMX => (FeatureInfo {
                register: OutputRegister::ECX,
                request: CPUIDRequest::Features,
                mask: 1u32 << 5,
            }),
            CPUFeature::SMX => (FeatureInfo {
                register: OutputRegister::ECX,
                request: CPUIDRequest::Features,
                mask: 1u32 << 6,
            }),
            CPUFeature::EST => (FeatureInfo {
                register: OutputRegister::ECX,
                request: CPUIDRequest::Features,
                mask: 1u32 << 7,
            }),
            CPUFeature::TM2 => (FeatureInfo {
                register: OutputRegister::ECX,
                request: CPUIDRequest::Features,
                mask: 1u32 << 8,
            }),
            CPUFeature::SSSE3 => (FeatureInfo {
                register: OutputRegister::ECX,
                request: CPUIDRequest::Features,
                mask: 1u32 << 9,
            }),
            CPUFeature::CID => (FeatureInfo {
                register: OutputRegister::ECX,
                request: CPUIDRequest::Features,
                mask: 1u32 << 10,
            }),
            CPUFeature::SDBG => (FeatureInfo {
                register: OutputRegister::ECX,
                request: CPUIDRequest::Features,
                mask: 1u32 << 11,
            }),
            CPUFeature::FMA => (FeatureInfo {
                register: OutputRegister::ECX,
                request: CPUIDRequest::Features,
                mask: 1u32 << 12,
            }),
            CPUFeature::CX16 => (FeatureInfo {
                register: OutputRegister::ECX,
                request: CPUIDRequest::Features,
                mask: 1u32 << 13,
            }),
            CPUFeature::XTPR => (FeatureInfo {
                register: OutputRegister::ECX,
                request: CPUIDRequest::Features,
                mask: 1u32 << 14,
            }),
            CPUFeature::PDCM => (FeatureInfo {
                register: OutputRegister::ECX,
                request: CPUIDRequest::Features,
                mask: 1u32 << 15,
            }),
            CPUFeature::PCID => (FeatureInfo {
                register: OutputRegister::ECX,
                request: CPUIDRequest::Features,
                mask: 1u32 << 17,
            }),
            CPUFeature::DCA => (FeatureInfo {
                register: OutputRegister::ECX,
                request: CPUIDRequest::Features,
                mask: 1u32 << 18,
            }),
            CPUFeature::SSE4_1 => (FeatureInfo {
                register: OutputRegister::ECX,
                request: CPUIDRequest::Features,
                mask: 1u32 << 19,
            }),
            CPUFeature::SSE4_2 => (FeatureInfo {
                register: OutputRegister::ECX,
                request: CPUIDRequest::Features,
                mask: 1u32 << 20,
            }),
            CPUFeature::X2APIC => (FeatureInfo {
                register: OutputRegister::ECX,
                request: CPUIDRequest::Features,
                mask: 1u32 << 21,
            }),
            CPUFeature::MOVBE => (FeatureInfo {
                register: OutputRegister::ECX,
                request: CPUIDRequest::Features,
                mask: 1u32 << 22,
            }),
            CPUFeature::POPCNT => (FeatureInfo {
                register: OutputRegister::ECX,
                request: CPUIDRequest::Features,
                mask: 1u32 << 23,
            }),
            CPUFeature::TSCDeadline => (FeatureInfo {
                register: OutputRegister::ECX,
                request: CPUIDRequest::Features,
                mask: 1u32 << 24,
            }),
            CPUFeature::AES => (FeatureInfo {
                register: OutputRegister::ECX,
                request: CPUIDRequest::Features,
                mask: 1u32 << 25,
            }),
            CPUFeature::XSAVE => (FeatureInfo {
                register: OutputRegister::ECX,
                request: CPUIDRequest::Features,
                mask: 1u32 << 26,
            }),
            CPUFeature::OSXSAVE => (FeatureInfo {
                register: OutputRegister::ECX,
                request: CPUIDRequest::Features,
                mask: 1u32 << 27,
            }),
            CPUFeature::AVX => (FeatureInfo {
                register: OutputRegister::ECX,
                request: CPUIDRequest::Features,
                mask: 1u32 << 28,
            }),
            CPUFeature::F16C => (FeatureInfo {
                register: OutputRegister::ECX,
                request: CPUIDRequest::Features,
                mask: 1u32 << 29,
            }),
            CPUFeature::RDRAND => (FeatureInfo {
                register: OutputRegister::ECX,
                request: CPUIDRequest::Features,
                mask: 1u32 << 30,
            }),
            CPUFeature::HYPERVISOR => (FeatureInfo {
                register: OutputRegister::ECX,
                request: CPUIDRequest::Features,
                mask: 1u32 << 31,
            }),
            CPUFeature::FPU => (FeatureInfo {
                register: OutputRegister::EDX,
                request: CPUIDRequest::Features,
                mask: 1u32 << 0,
            }),
            CPUFeature::VME => (FeatureInfo {
                register: OutputRegister::EDX,
                request: CPUIDRequest::Features,
                mask: 1u32 << 1,
            }),
            CPUFeature::DE => (FeatureInfo {
                register: OutputRegister::EDX,
                request: CPUIDRequest::Features,
                mask: 1u32 << 2,
            }),
            CPUFeature::PSE => (FeatureInfo {
                register: OutputRegister::EDX,
                request: CPUIDRequest::Features,
                mask: 1u32 << 3,
            }),
            CPUFeature::TSC => (FeatureInfo {
                register: OutputRegister::EDX,
                request: CPUIDRequest::Features,
                mask: 1u32 << 4,
            }),
            CPUFeature::MSR => (FeatureInfo {
                register: OutputRegister::EDX,
                request: CPUIDRequest::Features,
                mask: 1u32 << 5,
            }),
            CPUFeature::PAE => (FeatureInfo {
                register: OutputRegister::EDX,
                request: CPUIDRequest::Features,
                mask: 1u32 << 6,
            }),
            CPUFeature::MCE => (FeatureInfo {
                register: OutputRegister::EDX,
                request: CPUIDRequest::Features,
                mask: 1u32 << 7,
            }),
            CPUFeature::CX8 => (FeatureInfo {
                register: OutputRegister::EDX,
                request: CPUIDRequest::Features,
                mask: 1u32 << 8,
            }),
            CPUFeature::APIC => (FeatureInfo {
                register: OutputRegister::EDX,
                request: CPUIDRequest::Features,
                mask: 1u32 << 9,
            }),
            CPUFeature::SEP => (FeatureInfo {
                register: OutputRegister::EDX,
                request: CPUIDRequest::Features,
                mask: 1u32 << 11,
            }),
            CPUFeature::MTRR => (FeatureInfo {
                register: OutputRegister::EDX,
                request: CPUIDRequest::Features,
                mask: 1u32 << 12,
            }),
            CPUFeature::PGE => (FeatureInfo {
                register: OutputRegister::EDX,
                request: CPUIDRequest::Features,
                mask: 1u32 << 13,
            }),
            CPUFeature::MCA => (FeatureInfo {
                register: OutputRegister::EDX,
                request: CPUIDRequest::Features,
                mask: 1u32 << 14,
            }),
            CPUFeature::CMOV => (FeatureInfo {
                register: OutputRegister::EDX,
                request: CPUIDRequest::Features,
                mask: 1u32 << 15,
            }),
            CPUFeature::PAT => (FeatureInfo {
                register: OutputRegister::EDX,
                request: CPUIDRequest::Features,
                mask: 1u32 << 16,
            }),
            CPUFeature::PSE36 => (FeatureInfo {
                register: OutputRegister::EDX,
                request: CPUIDRequest::Features,
                mask: 1u32 << 17,
            }),
            CPUFeature::PSN => (FeatureInfo {
                register: OutputRegister::EDX,
                request: CPUIDRequest::Features,
                mask: 1u32 << 18,
            }),
            CPUFeature::CLFLUSH => (FeatureInfo {
                register: OutputRegister::EDX,
                request: CPUIDRequest::Features,
                mask: 1u32 << 19,
            }),
            CPUFeature::NX_Itanium => (FeatureInfo {
                register: OutputRegister::EDX,
                request: CPUIDRequest::Features,
                mask: 1u32 << 20,
            }),
            CPUFeature::DS => (FeatureInfo {
                register: OutputRegister::EDX,
                request: CPUIDRequest::Features,
                mask: 1u32 << 21,
            }),
            CPUFeature::ACPI => (FeatureInfo {
                register: OutputRegister::EDX,
                request: CPUIDRequest::Features,
                mask: 1u32 << 22,
            }),
            CPUFeature::MMX => (FeatureInfo {
                register: OutputRegister::EDX,
                request: CPUIDRequest::Features,
                mask: 1u32 << 23,
            }),
            CPUFeature::FXSR => (FeatureInfo {
                register: OutputRegister::EDX,
                request: CPUIDRequest::Features,
                mask: 1u32 << 24,
            }),
            CPUFeature::SSE => (FeatureInfo {
                register: OutputRegister::EDX,
                request: CPUIDRequest::Features,
                mask: 1u32 << 25,
            }),
            CPUFeature::SSE2 => (FeatureInfo {
                register: OutputRegister::EDX,
                request: CPUIDRequest::Features,
                mask: 1u32 << 26,
            }),
            CPUFeature::SS => (FeatureInfo {
                register: OutputRegister::EDX,
                request: CPUIDRequest::Features,
                mask: 1u32 << 27,
            }),
            CPUFeature::HTT => (FeatureInfo {
                register: OutputRegister::EDX,
                request: CPUIDRequest::Features,
                mask: 1u32 << 28,
            }),
            CPUFeature::TM => (FeatureInfo {
                register: OutputRegister::EDX,
                request: CPUIDRequest::Features,
                mask: 1u32 << 29,
            }),
            CPUFeature::IA64 => (FeatureInfo {
                register: OutputRegister::EDX,
                request: CPUIDRequest::Features,
                mask: 1u32 << 30,
            }),
            CPUFeature::PBE => (FeatureInfo {
                register: OutputRegister::EDX,
                request: CPUIDRequest::Features,
                mask: 1u32 << 31,
            }),
            CPUFeature::FSGSBase => (FeatureInfo {
                register: OutputRegister::EBX,
                request: CPUIDRequest::ExtendedFeatures1,
                mask: 1u32 << 0,
            }),
            CPUFeature::SGX => (FeatureInfo {
                register: OutputRegister::EBX,
                request: CPUIDRequest::ExtendedFeatures1,
                mask: 1u32 << 2,
            }),
            CPUFeature::BMI1 => (FeatureInfo {
                register: OutputRegister::EBX,
                request: CPUIDRequest::ExtendedFeatures1,
                mask: 1u32 << 3,
            }),
            CPUFeature::HLE => (FeatureInfo {
                register: OutputRegister::EBX,
                request: CPUIDRequest::ExtendedFeatures1,
                mask: 1u32 << 4,
            }),
            CPUFeature::AVX2 => (FeatureInfo {
                register: OutputRegister::EBX,
                request: CPUIDRequest::ExtendedFeatures1,
                mask: 1u32 << 5,
            }),
            CPUFeature::FDP_EXCPTN_ONLY => (FeatureInfo {
                register: OutputRegister::EBX,
                request: CPUIDRequest::ExtendedFeatures1,
                mask: 1u32 << 6,
            }),
            CPUFeature::SMEP => (FeatureInfo {
                register: OutputRegister::EBX,
                request: CPUIDRequest::ExtendedFeatures1,
                mask: 1u32 << 7,
            }),
            CPUFeature::BMI2 => (FeatureInfo {
                register: OutputRegister::EBX,
                request: CPUIDRequest::ExtendedFeatures1,
                mask: 1u32 << 8,
            }),
            CPUFeature::ERMS => (FeatureInfo {
                register: OutputRegister::EBX,
                request: CPUIDRequest::ExtendedFeatures1,
                mask: 1u32 << 9,
            }),
            CPUFeature::INVPCID => (FeatureInfo {
                register: OutputRegister::EBX,
                request: CPUIDRequest::ExtendedFeatures1,
                mask: 1u32 << 10,
            }),
            CPUFeature::RTM => (FeatureInfo {
                register: OutputRegister::EBX,
                request: CPUIDRequest::ExtendedFeatures1,
                mask: 1u32 << 11,
            }),
            CPUFeature::PQM => (FeatureInfo {
                register: OutputRegister::EBX,
                request: CPUIDRequest::ExtendedFeatures1,
                mask: 1u32 << 12,
            }),
            CPUFeature::MPX => (FeatureInfo {
                register: OutputRegister::EBX,
                request: CPUIDRequest::ExtendedFeatures1,
                mask: 1u32 << 14,
            }),
            CPUFeature::AVX512F => (FeatureInfo {
                register: OutputRegister::EBX,
                request: CPUIDRequest::ExtendedFeatures1,
                mask: 1u32 << 16,
            }),
            CPUFeature::AVX512DQ => (FeatureInfo {
                register: OutputRegister::EBX,
                request: CPUIDRequest::ExtendedFeatures1,
                mask: 1u32 << 17,
            }),
            CPUFeature::RDSEED => (FeatureInfo {
                register: OutputRegister::EBX,
                request: CPUIDRequest::ExtendedFeatures1,
                mask: 1u32 << 18,
            }),
            CPUFeature::ADX => (FeatureInfo {
                register: OutputRegister::EBX,
                request: CPUIDRequest::ExtendedFeatures1,
                mask: 1u32 << 19,
            }),
            CPUFeature::SMAP => (FeatureInfo {
                register: OutputRegister::EBX,
                request: CPUIDRequest::ExtendedFeatures1,
                mask: 1u32 << 20,
            }),
            CPUFeature::AVX512_IFMA => (FeatureInfo {
                register: OutputRegister::EBX,
                request: CPUIDRequest::ExtendedFeatures1,
                mask: 1u32 << 21,
            }),
            CPUFeature::PCOMMIT => (FeatureInfo {
                register: OutputRegister::EBX,
                request: CPUIDRequest::ExtendedFeatures1,
                mask: 1u32 << 22,
            }),
            CPUFeature::CFLUSHOPT => (FeatureInfo {
                register: OutputRegister::EBX,
                request: CPUIDRequest::ExtendedFeatures1,
                mask: 1u32 << 23,
            }),
            CPUFeature::CLWB => (FeatureInfo {
                register: OutputRegister::EBX,
                request: CPUIDRequest::ExtendedFeatures1,
                mask: 1u32 << 24,
            }),
            CPUFeature::PT => (FeatureInfo {
                register: OutputRegister::EBX,
                request: CPUIDRequest::ExtendedFeatures1,
                mask: 1u32 << 25,
            }),
            CPUFeature::AVX512PF => (FeatureInfo {
                register: OutputRegister::EBX,
                request: CPUIDRequest::ExtendedFeatures1,
                mask: 1u32 << 26,
            }),
            CPUFeature::AVX512ER => (FeatureInfo {
                register: OutputRegister::EBX,
                request: CPUIDRequest::ExtendedFeatures1,
                mask: 1u32 << 27,
            }),
            CPUFeature::AVX512CD => (FeatureInfo {
                register: OutputRegister::EBX,
                request: CPUIDRequest::ExtendedFeatures1,
                mask: 1u32 << 28,
            }),
            CPUFeature::SHA => (FeatureInfo {
                register: OutputRegister::EBX,
                request: CPUIDRequest::ExtendedFeatures1,
                mask: 1u32 << 29,
            }),
            CPUFeature::AVX512BW => (FeatureInfo {
                register: OutputRegister::EBX,
                request: CPUIDRequest::ExtendedFeatures1,
                mask: 1u32 << 30,
            }),
            CPUFeature::AVX512VI => (FeatureInfo {
                register: OutputRegister::EBX,
                request: CPUIDRequest::ExtendedFeatures1,
                mask: 1u32 << 31,
            }),
            CPUFeature::PreFetchWT1 => (FeatureInfo {
                register: OutputRegister::ECX,
                request: CPUIDRequest::ExtendedFeatures1,
                mask: 1u32 << 0,
            }),
            CPUFeature::AVX512VBMI => (FeatureInfo {
                register: OutputRegister::ECX,
                request: CPUIDRequest::ExtendedFeatures1,
                mask: 1u32 << 1,
            }),
            CPUFeature::UMIP => (FeatureInfo {
                register: OutputRegister::ECX,
                request: CPUIDRequest::ExtendedFeatures1,
                mask: 1u32 << 2,
            }),
            CPUFeature::PKU => (FeatureInfo {
                register: OutputRegister::ECX,
                request: CPUIDRequest::ExtendedFeatures1,
                mask: 1u32 << 3,
            }),
            CPUFeature::OSPKE => (FeatureInfo {
                register: OutputRegister::ECX,
                request: CPUIDRequest::ExtendedFeatures1,
                mask: 1u32 << 4,
            }),
            CPUFeature::WAITKG => (FeatureInfo {
                register: OutputRegister::ECX,
                request: CPUIDRequest::ExtendedFeatures1,
                mask: 1u32 << 5,
            }),
            CPUFeature::AVX512VBMI2 => (FeatureInfo {
                register: OutputRegister::ECX,
                request: CPUIDRequest::ExtendedFeatures1,
                mask: 1u32 << 6,
            }),
            CPUFeature::ShadowStack => (FeatureInfo {
                register: OutputRegister::ECX,
                request: CPUIDRequest::ExtendedFeatures1,
                mask: 1u32 << 7,
            }),
            CPUFeature::GFNI => (FeatureInfo {
                register: OutputRegister::ECX,
                request: CPUIDRequest::ExtendedFeatures1,
                mask: 1u32 << 8,
            }),
            CPUFeature::VAES => (FeatureInfo {
                register: OutputRegister::ECX,
                request: CPUIDRequest::ExtendedFeatures1,
                mask: 1u32 << 9,
            }),
            CPUFeature::VPCLMULQDQ => (FeatureInfo {
                register: OutputRegister::ECX,
                request: CPUIDRequest::ExtendedFeatures1,
                mask: 1u32 << 10,
            }),
            CPUFeature::AVX512VNNI => (FeatureInfo {
                register: OutputRegister::ECX,
                request: CPUIDRequest::ExtendedFeatures1,
                mask: 1u32 << 11,
            }),
            CPUFeature::AVX512BITALG => (FeatureInfo {
                register: OutputRegister::ECX,
                request: CPUIDRequest::ExtendedFeatures1,
                mask: 1u32 << 12,
            }),
            CPUFeature::TME => (FeatureInfo {
                register: OutputRegister::ECX,
                request: CPUIDRequest::ExtendedFeatures1,
                mask: 1u32 << 13,
            }),
            CPUFeature::AVX512VPOPCNTDQ => (FeatureInfo {
                register: OutputRegister::ECX,
                request: CPUIDRequest::ExtendedFeatures1,
                mask: 1u32 << 14,
            }),
            CPUFeature::LA57 => (FeatureInfo {
                register: OutputRegister::ECX,
                request: CPUIDRequest::ExtendedFeatures1,
                mask: 1u32 << 16,
            }),
            CPUFeature::RDPID => (FeatureInfo {
                register: OutputRegister::ECX,
                request: CPUIDRequest::ExtendedFeatures1,
                mask: 1u32 << 22,
            }),
            CPUFeature::KL => (FeatureInfo {
                register: OutputRegister::ECX,
                request: CPUIDRequest::ExtendedFeatures1,
                mask: 1u32 << 23,
            }),
            CPUFeature::BusLockDetect => (FeatureInfo {
                register: OutputRegister::ECX,
                request: CPUIDRequest::ExtendedFeatures1,
                mask: 1u32 << 24,
            }),
            CPUFeature::CIDEMOTE => (FeatureInfo {
                register: OutputRegister::ECX,
                request: CPUIDRequest::ExtendedFeatures1,
                mask: 1u32 << 25,
            }),
            CPUFeature::MOVDIRI => (FeatureInfo {
                register: OutputRegister::ECX,
                request: CPUIDRequest::ExtendedFeatures1,
                mask: 1u32 << 27,
            }),
            CPUFeature::MOBDIR64B => (FeatureInfo {
                register: OutputRegister::ECX,
                request: CPUIDRequest::ExtendedFeatures1,
                mask: 1u32 << 28,
            }),
            CPUFeature::ENQCMD => (FeatureInfo {
                register: OutputRegister::ECX,
                request: CPUIDRequest::ExtendedFeatures1,
                mask: 1u32 << 29,
            }),
            CPUFeature::SGXLC => (FeatureInfo {
                register: OutputRegister::ECX,
                request: CPUIDRequest::ExtendedFeatures1,
                mask: 1u32 << 30,
            }),
            CPUFeature::PKS => (FeatureInfo {
                register: OutputRegister::ECX,
                request: CPUIDRequest::ExtendedFeatures1,
                mask: 1u32 << 31,
            }),
            CPUFeature::SGXKeys => (FeatureInfo {
                register: OutputRegister::EDX,
                request: CPUIDRequest::ExtendedFeatures1,
                mask: 1u32 << 1,
            }),
            CPUFeature::AVX512_4VNNIW => (FeatureInfo {
                register: OutputRegister::EDX,
                request: CPUIDRequest::ExtendedFeatures1,
                mask: 1u32 << 2,
            }),
            CPUFeature::AVX512_4FMAPS => (FeatureInfo {
                register: OutputRegister::EDX,
                request: CPUIDRequest::ExtendedFeatures1,
                mask: 1u32 << 3,
            }),
            CPUFeature::FSRM => (FeatureInfo {
                register: OutputRegister::EDX,
                request: CPUIDRequest::ExtendedFeatures1,
                mask: 1u32 << 4,
            }),
            CPUFeature::UINTR => (FeatureInfo {
                register: OutputRegister::EDX,
                request: CPUIDRequest::ExtendedFeatures1,
                mask: 1u32 << 5,
            }),
            CPUFeature::AVX512VP2INTERSECT => (FeatureInfo {
                register: OutputRegister::EDX,
                request: CPUIDRequest::ExtendedFeatures1,
                mask: 1u32 << 8,
            }),
            CPUFeature::SRDBS_CTRL => (FeatureInfo {
                register: OutputRegister::EDX,
                request: CPUIDRequest::ExtendedFeatures1,
                mask: 1u32 << 9,
            }),
            CPUFeature::MCClear => (FeatureInfo {
                register: OutputRegister::EDX,
                request: CPUIDRequest::ExtendedFeatures1,
                mask: 1u32 << 10,
            }),
            CPUFeature::RTMAlwaysAbort => (FeatureInfo {
                register: OutputRegister::EDX,
                request: CPUIDRequest::ExtendedFeatures1,
                mask: 1u32 << 11,
            }),
            CPUFeature::TSXForceAbort => (FeatureInfo {
                register: OutputRegister::EDX,
                request: CPUIDRequest::ExtendedFeatures1,
                mask: 1u32 << 13,
            }),
            CPUFeature::SERIALIZE => (FeatureInfo {
                register: OutputRegister::EDX,
                request: CPUIDRequest::ExtendedFeatures1,
                mask: 1u32 << 14,
            }),
            CPUFeature::HYBRID => (FeatureInfo {
                register: OutputRegister::EDX,
                request: CPUIDRequest::ExtendedFeatures1,
                mask: 1u32 << 15,
            }),
            CPUFeature::TSXLDTRK => (FeatureInfo {
                register: OutputRegister::EDX,
                request: CPUIDRequest::ExtendedFeatures1,
                mask: 1u32 << 16,
            }),
            CPUFeature::PCONFIG => (FeatureInfo {
                register: OutputRegister::EDX,
                request: CPUIDRequest::ExtendedFeatures1,
                mask: 1u32 << 18,
            }),
            CPUFeature::IBR => (FeatureInfo {
                register: OutputRegister::EDX,
                request: CPUIDRequest::ExtendedFeatures1,
                mask: 1u32 << 19,
            }),
            CPUFeature::CET_IBT => (FeatureInfo {
                register: OutputRegister::EDX,
                request: CPUIDRequest::ExtendedFeatures1,
                mask: 1u32 << 20,
            }),
            CPUFeature::AMXBF16 => (FeatureInfo {
                register: OutputRegister::EDX,
                request: CPUIDRequest::ExtendedFeatures1,
                mask: 1u32 << 22,
            }),
            CPUFeature::AVS512FP16 => (FeatureInfo {
                register: OutputRegister::EDX,
                request: CPUIDRequest::ExtendedFeatures1,
                mask: 1u32 << 23,
            }),
            CPUFeature::AMXTile => (FeatureInfo {
                register: OutputRegister::EDX,
                request: CPUIDRequest::ExtendedFeatures1,
                mask: 1u32 << 24,
            }),
            CPUFeature::AMXInt8 => (FeatureInfo {
                register: OutputRegister::EDX,
                request: CPUIDRequest::ExtendedFeatures1,
                mask: 1u32 << 25,
            }),
            CPUFeature::SpecControl => (FeatureInfo {
                register: OutputRegister::EDX,
                request: CPUIDRequest::ExtendedFeatures1,
                mask: 1u32 << 26,
            }),
            CPUFeature::STIBP => (FeatureInfo {
                register: OutputRegister::EDX,
                request: CPUIDRequest::ExtendedFeatures1,
                mask: 1u32 << 27,
            }),
            CPUFeature::L1DFlush => (FeatureInfo {
                register: OutputRegister::EDX,
                request: CPUIDRequest::ExtendedFeatures1,
                mask: 1u32 << 28,
            }),
            CPUFeature::SSBD => (FeatureInfo {
                register: OutputRegister::EDX,
                request: CPUIDRequest::ExtendedFeatures1,
                mask: 1u32 << 31,
            }),
            CPUFeature::SHA512Extensions => (FeatureInfo {
                register: OutputRegister::EAX,
                request: CPUIDRequest::ExtendedFeatures2,
                mask: 1u32 << 0,
            }),
            CPUFeature::SM3 => (FeatureInfo {
                register: OutputRegister::EAX,
                request: CPUIDRequest::ExtendedFeatures2,
                mask: 1u32 << 1,
            }),
            CPUFeature::SM4 => (FeatureInfo {
                register: OutputRegister::EAX,
                request: CPUIDRequest::ExtendedFeatures2,
                mask: 1u32 << 2,
            }),
            CPUFeature::RAO_INT => (FeatureInfo {
                register: OutputRegister::EAX,
                request: CPUIDRequest::ExtendedFeatures2,
                mask: 1u32 << 3,
            }),
            CPUFeature::AVX_VNNI => (FeatureInfo {
                register: OutputRegister::EAX,
                request: CPUIDRequest::ExtendedFeatures2,
                mask: 1u32 << 4,
            }),
            CPUFeature::AVX512BF16 => (FeatureInfo {
                register: OutputRegister::EAX,
                request: CPUIDRequest::ExtendedFeatures2,
                mask: 1u32 << 5,
            }),
            CPUFeature::LASS => (FeatureInfo {
                register: OutputRegister::EAX,
                request: CPUIDRequest::ExtendedFeatures2,
                mask: 1u32 << 6,
            }),
            CPUFeature::CMPCCXADD => (FeatureInfo {
                register: OutputRegister::EAX,
                request: CPUIDRequest::ExtendedFeatures2,
                mask: 1u32 << 7,
            }),
            CPUFeature::ARCHPerfMonExt => (FeatureInfo {
                register: OutputRegister::EAX,
                request: CPUIDRequest::ExtendedFeatures2,
                mask: 1u32 << 8,
            }),
            CPUFeature::FastZeroRepMOVSB => (FeatureInfo {
                register: OutputRegister::EAX,
                request: CPUIDRequest::ExtendedFeatures2,
                mask: 1u32 << 10,
            }),
            CPUFeature::FastShortRepSTOSB => (FeatureInfo {
                register: OutputRegister::EAX,
                request: CPUIDRequest::ExtendedFeatures2,
                mask: 1u32 << 11,
            }),
            CPUFeature::FastShortRepCMPSB => (FeatureInfo {
                register: OutputRegister::EAX,
                request: CPUIDRequest::ExtendedFeatures2,
                mask: 1u32 << 12,
            }),
            CPUFeature::FRED => (FeatureInfo {
                register: OutputRegister::EAX,
                request: CPUIDRequest::ExtendedFeatures2,
                mask: 1u32 << 17,
            }),
            CPUFeature::LKGS => (FeatureInfo {
                register: OutputRegister::EAX,
                request: CPUIDRequest::ExtendedFeatures2,
                mask: 1u32 << 18,
            }),
            CPUFeature::WRMSRNS => (FeatureInfo {
                register: OutputRegister::EAX,
                request: CPUIDRequest::ExtendedFeatures2,
                mask: 1u32 << 19,
            }),
            CPUFeature::AMXFP16 => (FeatureInfo {
                register: OutputRegister::EAX,
                request: CPUIDRequest::ExtendedFeatures2,
                mask: 1u32 << 21,
            }),
            CPUFeature::HReset => (FeatureInfo {
                register: OutputRegister::EAX,
                request: CPUIDRequest::ExtendedFeatures2,
                mask: 1u32 << 22,
            }),
            CPUFeature::LAM => (FeatureInfo {
                register: OutputRegister::EAX,
                request: CPUIDRequest::ExtendedFeatures2,
                mask: 1u32 << 26,
            }),
            CPUFeature::MSRList => (FeatureInfo {
                register: OutputRegister::EAX,
                request: CPUIDRequest::ExtendedFeatures2,
                mask: 1u32 << 27,
            }),
            CPUFeature::PPIN => (FeatureInfo {
                register: OutputRegister::EBX,
                request: CPUIDRequest::ExtendedFeatures2,
                mask: 1u32 << 0,
            }),
            CPUFeature::PKNDKB => (FeatureInfo {
                register: OutputRegister::EBX,
                request: CPUIDRequest::ExtendedFeatures2,
                mask: 1u32 << 1,
            }),
            CPUFeature::AVX_VNNI_INT8 => (FeatureInfo {
                register: OutputRegister::EDX,
                request: CPUIDRequest::ExtendedFeatures2,
                mask: 1u32 << 4,
            }),
            CPUFeature::AVX_NE_CONVERT => (FeatureInfo {
                register: OutputRegister::EDX,
                request: CPUIDRequest::ExtendedFeatures2,
                mask: 1u32 << 5,
            }),
            CPUFeature::AMXComplex => (FeatureInfo {
                register: OutputRegister::EDX,
                request: CPUIDRequest::ExtendedFeatures2,
                mask: 1u32 << 8,
            }),
            CPUFeature::AVX_VNNI_INT16 => (FeatureInfo {
                register: OutputRegister::EDX,
                request: CPUIDRequest::ExtendedFeatures2,
                mask: 1u32 << 10,
            }),
            CPUFeature::PREFETCHI => (FeatureInfo {
                register: OutputRegister::EDX,
                request: CPUIDRequest::ExtendedFeatures2,
                mask: 1u32 << 14,
            }),
            CPUFeature::UserMSR => (FeatureInfo {
                register: OutputRegister::EDX,
                request: CPUIDRequest::ExtendedFeatures2,
                mask: 1u32 << 15,
            }),
            CPUFeature::UIRetUIFFromRFlags => (FeatureInfo {
                register: OutputRegister::EDX,
                request: CPUIDRequest::ExtendedFeatures2,
                mask: 1u32 << 17,
            }),
            CPUFeature::CET_SSS => (FeatureInfo {
                register: OutputRegister::EDX,
                request: CPUIDRequest::ExtendedFeatures2,
                mask: 1u32 << 18,
            }),
            CPUFeature::AVX10 => (FeatureInfo {
                register: OutputRegister::EDX,
                request: CPUIDRequest::ExtendedFeatures2,
                mask: 1u32 << 19,
            }),
            CPUFeature::APX_F => (FeatureInfo {
                register: OutputRegister::EDX,
                request: CPUIDRequest::ExtendedFeatures2,
                mask: 1u32 << 21,
            }),
            CPUFeature::PFSD => (FeatureInfo {
                register: OutputRegister::EDX,
                request: CPUIDRequest::ExtendedFeatures3,
                mask: 1u32 << 0,
            }),
            CPUFeature::IPREDDIS => (FeatureInfo {
                register: OutputRegister::EDX,
                request: CPUIDRequest::ExtendedFeatures3,
                mask: 1u32 << 1,
            }),
            CPUFeature::RRSBACtrl => (FeatureInfo {
                register: OutputRegister::EDX,
                request: CPUIDRequest::ExtendedFeatures3,
                mask: 1u32 << 2,
            }),
            CPUFeature::DPPDU => (FeatureInfo {
                register: OutputRegister::EDX,
                request: CPUIDRequest::ExtendedFeatures3,
                mask: 1u32 << 3,
            }),
            CPUFeature::BHICtrl => (FeatureInfo {
                register: OutputRegister::EDX,
                request: CPUIDRequest::ExtendedFeatures3,
                mask: 1u32 << 4,
            }),
            CPUFeature::MCDT_NO => (FeatureInfo {
                register: OutputRegister::EDX,
                request: CPUIDRequest::ExtendedFeatures3,
                mask: 1u32 << 5,
            }),
            CPUFeature::Syscall => (FeatureInfo {
                register: OutputRegister::EDX,
                request: CPUIDRequest::ExtendedFeatures4,
                mask: 1u32 << 11,
            }),
            CPUFeature::NX => (FeatureInfo {
                register: OutputRegister::EDX,
                request: CPUIDRequest::ExtendedFeatures4,
                mask: 1u32 << 20,
            }),
            CPUFeature::FXSROpt => (FeatureInfo {
                register: OutputRegister::EDX,
                request: CPUIDRequest::ExtendedFeatures4,
                mask: 1u32 << 25,
            }),
            CPUFeature::GigabytePages => (FeatureInfo {
                register: OutputRegister::EDX,
                request: CPUIDRequest::ExtendedFeatures4,
                mask: 1u32 << 26,
            }),
            CPUFeature::RDTSCP => (FeatureInfo {
                register: OutputRegister::EDX,
                request: CPUIDRequest::ExtendedFeatures4,
                mask: 1u32 << 27,
            }),
            CPUFeature::LongMode => (FeatureInfo {
                register: OutputRegister::EDX,
                request: CPUIDRequest::ExtendedFeatures4,
                mask: 1u32 << 29,
            }),
            CPUFeature::Ext3dNow => (FeatureInfo {
                register: OutputRegister::EDX,
                request: CPUIDRequest::ExtendedFeatures4,
                mask: 1u32 << 30,
            }),
            CPUFeature::F3DNow => (FeatureInfo {
                register: OutputRegister::EDX,
                request: CPUIDRequest::ExtendedFeatures4,
                mask: 1u32 << 31,
            }),
            CPUFeature::LAHF_LM => (FeatureInfo {
                register: OutputRegister::ECX,
                request: CPUIDRequest::ExtendedFeatures4,
                mask: 1u32 << 0,
            }),
            CPUFeature::CmpLegacy => (FeatureInfo {
                register: OutputRegister::ECX,
                request: CPUIDRequest::ExtendedFeatures4,
                mask: 1u32 << 1,
            }),
            CPUFeature::SecureVM => (FeatureInfo {
                register: OutputRegister::ECX,
                request: CPUIDRequest::ExtendedFeatures4,
                mask: 1u32 << 2,
            }),
            CPUFeature::ExtendedAPIC => (FeatureInfo {
                register: OutputRegister::ECX,
                request: CPUIDRequest::ExtendedFeatures4,
                mask: 1u32 << 3,
            }),
            CPUFeature::CR8Legacy => (FeatureInfo {
                register: OutputRegister::ECX,
                request: CPUIDRequest::ExtendedFeatures4,
                mask: 1u32 << 4,
            }),
            CPUFeature::ABM => (FeatureInfo {
                register: OutputRegister::ECX,
                request: CPUIDRequest::ExtendedFeatures4,
                mask: 1u32 << 5,
            }),
            CPUFeature::SSE4a => (FeatureInfo {
                register: OutputRegister::ECX,
                request: CPUIDRequest::ExtendedFeatures4,
                mask: 1u32 << 6,
            }),
            CPUFeature::MisalignedSSE => (FeatureInfo {
                register: OutputRegister::ECX,
                request: CPUIDRequest::ExtendedFeatures4,
                mask: 1u32 << 7,
            }),
            CPUFeature::Prefetch3DNow => (FeatureInfo {
                register: OutputRegister::ECX,
                request: CPUIDRequest::ExtendedFeatures4,
                mask: 1u32 << 8,
            }),
            CPUFeature::OSVW => (FeatureInfo {
                register: OutputRegister::ECX,
                request: CPUIDRequest::ExtendedFeatures4,
                mask: 1u32 << 9,
            }),
            CPUFeature::IBS => (FeatureInfo {
                register: OutputRegister::ECX,
                request: CPUIDRequest::ExtendedFeatures4,
                mask: 1u32 << 10,
            }),
            CPUFeature::XOP => (FeatureInfo {
                register: OutputRegister::ECX,
                request: CPUIDRequest::ExtendedFeatures4,
                mask: 1u32 << 11,
            }),
            CPUFeature::SKINIT => (FeatureInfo {
                register: OutputRegister::ECX,
                request: CPUIDRequest::ExtendedFeatures4,
                mask: 1u32 << 12,
            }),
            CPUFeature::WatchdogTimer => (FeatureInfo {
                register: OutputRegister::ECX,
                request: CPUIDRequest::ExtendedFeatures4,
                mask: 1u32 << 13,
            }),
            CPUFeature::LWP => (FeatureInfo {
                register: OutputRegister::ECX,
                request: CPUIDRequest::ExtendedFeatures4,
                mask: 1u32 << 15,
            }),
            CPUFeature::FMA4 => (FeatureInfo {
                register: OutputRegister::ECX,
                request: CPUIDRequest::ExtendedFeatures4,
                mask: 1u32 << 16,
            }),
            CPUFeature::TCE => (FeatureInfo {
                register: OutputRegister::ECX,
                request: CPUIDRequest::ExtendedFeatures4,
                mask: 1u32 << 17,
            }),
            CPUFeature::NodeIdMSR => (FeatureInfo {
                register: OutputRegister::ECX,
                request: CPUIDRequest::ExtendedFeatures4,
                mask: 1u32 << 19,
            }),
            CPUFeature::TBM => (FeatureInfo {
                register: OutputRegister::ECX,
                request: CPUIDRequest::ExtendedFeatures4,
                mask: 1u32 << 20,
            }),
            CPUFeature::TopoExt => (FeatureInfo {
                register: OutputRegister::ECX,
                request: CPUIDRequest::ExtendedFeatures4,
                mask: 1u32 << 22,
            }),
            CPUFeature::PrefCtrCoe => (FeatureInfo {
                register: OutputRegister::ECX,
                request: CPUIDRequest::ExtendedFeatures4,
                mask: 1u32 << 23,
            }),
            CPUFeature::PrefCtrNb => (FeatureInfo {
                register: OutputRegister::ECX,
                request: CPUIDRequest::ExtendedFeatures4,
                mask: 1u32 << 24,
            }),
            CPUFeature::StreamPerfMon => (FeatureInfo {
                register: OutputRegister::ECX,
                request: CPUIDRequest::ExtendedFeatures4,
                mask: 1u32 << 25,
            }),
            CPUFeature::DBX => (FeatureInfo {
                register: OutputRegister::ECX,
                request: CPUIDRequest::ExtendedFeatures4,
                mask: 1u32 << 26,
            }),
            CPUFeature::PerfTSC => (FeatureInfo {
                register: OutputRegister::ECX,
                request: CPUIDRequest::ExtendedFeatures4,
                mask: 1u32 << 27,
            }),
            CPUFeature::PCXL2I => (FeatureInfo {
                register: OutputRegister::ECX,
                request: CPUIDRequest::ExtendedFeatures4,
                mask: 1u32 << 28,
            }),
            CPUFeature::MonitorX => (FeatureInfo {
                register: OutputRegister::ECX,
                request: CPUIDRequest::ExtendedFeatures4,
                mask: 1u32 << 29,
            }),
            CPUFeature::AddrMaskExt => (FeatureInfo {
                register: OutputRegister::ECX,
                request: CPUIDRequest::ExtendedFeatures4,
                mask: 1u32 << 30,
            }),
        }
    }

    /// The query, output field and mask under which this feature is
    /// reported.
    /// The catalog row at the given position: the query, output field
    /// and mask of the feature declared there.
    #[verifier::rlimit(100)]
    pub fn info_at(i: usize) -> (r: FeatureInfo)
        requires
            i < FEATURE_COUNT,
        ensures
            r == CPUFeature::spec_catalog_at(i as int).spec_info(),
    {
        proof {
            reveal(CPUFeature::spec_catalog_at);
            lemma_spec_info_features();
            lemma_spec_info_extended1();
            lemma_spec_info_extended2();
            lemma_spec_info_extended3();
            lemma_spec_info_extended4();
        }
        if i == 0 {
            FeatureInfo {
                register: OutputRegister::ECX,
                request: CPUIDRequest::Features,
                mask: 1u32 << 0,
            }
        } else if i == 1 {
            FeatureInfo {
                register: OutputRegister::ECX,
                request: CPUIDRequest::Features,
                mask: 1u32 << 1,
            }
        } else if i == 2 {
            FeatureInfo {
                register: OutputRegister::ECX,
                request: CPUIDRequest::Features,
                mask: 1u32 << 2,
            }
        } else if i == 3 {
            FeatureInfo {
                register: OutputRegister::ECX,
                request: CPUIDRequest::Features,
                mask: 1u32 << 3,
            }
        } else if i == 4 {
            FeatureInfo {
                register: OutputRegister::ECX,
                request: CPUIDRequest::Features,
                mask: 1u32 << 4,
            }
        } else if i == 5 {
            FeatureInfo {
                register: OutputRegister::ECX,
                request: CPUIDRequest::Features,
                mask: 1u32 << 5,
            }
        } else if i == 6 {
            FeatureInfo {
                register: OutputRegister::ECX,
                request: CPUIDRequest::Features,
                mask: 1u32 << 6,
            }
        } else if i == 7 {
            FeatureInfo {
                register: OutputRegister::ECX,
                request: CPUIDRequest::Features,
                mask: 1u32 << 7,
            }
        } else if i == 8 {
            FeatureInfo {
                register: OutputRegister::ECX,
                request: CPUIDRequest::Features,
                mask: 1u32 << 8,
            }
        } else if i == 9 {
            FeatureInfo {
                register: OutputRegister::ECX,
                request: CPUIDRequest::Features,
                mask: 1u32 << 9,
            }
        } else if i == 10 {
            FeatureInfo {
                register: OutputRegister::ECX,
                request: CPUIDRequest::Features,
                mask: 1u32 << 10,
            }
        } else if i == 11 {
            FeatureInfo {
                register: OutputRegister::ECX,
                request: CPUIDRequest::Features,
                mask: 1u32 << 11,
            }
        } else if i == 12 {
            FeatureInfo {
                register: OutputRegister::ECX,
                request: CPUIDRequest::Features,
                mask: 1u32 << 12,
            }
        } else if i == 13 {
            FeatureInfo {
                register: OutputRegister::ECX,
                request: CPUIDRequest::Features,
                mask: 1u32 << 13,
            }
        } else if i == 14 {
            FeatureInfo {
                register: OutputRegister::ECX,
                request: CPUIDRequest::Features,
                mask: 1u32 << 14,
            }
        } else if i == 15 {
            FeatureInfo {
                register: OutputRegister::ECX,
                request: CPUIDRequest::Features,
                mask: 1u32 << 15,
            }
        } else if i == 16 {
            FeatureInfo {
                register: OutputRegister::ECX,
                request: CPUIDRequest::Features,
                mask: 1u32 << 17,
            }
        } else if i == 17 {
            FeatureInfo {
                register: OutputRegister::ECX,
                request: CPUIDRequest::Features,
                mask: 1u32 << 18,
            }
        } else if i == 18 {
            FeatureInfo {
                register: OutputRegister::ECX,
                request: CPUIDRequest::Features,
                mask: 1u32 << 19,
            }
        } else if i == 19 {
            FeatureInfo {
                register: OutputRegister::ECX,
                request: CPUIDRequest::Features,
                mask: 1u32 << 20,
            }
        } else if i == 20 {
            FeatureInfo {
                register: OutputRegister::ECX,
                request: CPUIDRequest::Features,
                mask: 1u32 << 21,
            }
        } else if i == 21 {
            FeatureInfo {
                register: OutputRegister::ECX,
                request: CPUIDRequest::Features,
                mask: 1u32 << 22,
            }
        } else if i == 22 {
            FeatureInfo {
                register: OutputRegister::ECX,
                request: CPUIDRequest::Features,
                mask: 1u32 << 23,
            }
        } else if i == 23 {
            FeatureInfo {
                register: OutputRegister::ECX,
                request: CPUIDRequest::Features,
                mask: 1u32 << 24,
            }
        } else if i == 24 {
            FeatureInfo {
                register: OutputRegister::ECX,
                request: CPUIDRequest::Features,
                mask: 1u32 << 25,
            }
        } else if i == 25 {
            FeatureInfo {
                register: OutputRegister::ECX,
                request: CPUIDRequest::Features,
                mask: 1u32 << 26,
            }
        } else if i == 26 {
            FeatureInfo {
                register: OutputRegister::ECX,
                request: CPUIDRequest::Features,
                mask: 1u32 << 27,
            }
        } else if i == 27 {
            FeatureInfo {
                register: OutputRegister::ECX,
                request: CPUIDRequest::Features,
                mask: 1u32 << 28,
            }
        } else if i == 28 {
            FeatureInfo {
                register: OutputRegister::ECX,
                request: CPUIDRequest::Features,
                mask: 1u32 << 29,
            }
        } else if i == 29 {
            FeatureInfo {
                register: OutputRegister::ECX,
                request: CPUIDRequest::Features,
                mask: 1u32 << 30,
            }
        } else if i == 30 {
            FeatureInfo {
                register: OutputRegister::ECX,
                request: CPUIDRequest::Features,
                mask: 1u32 << 31,
            }
        } else if i == 31 {
            FeatureInfo {
                register: OutputRegister::EDX,
                request: CPUIDRequest::Features,
                mask: 1u32 << 0,
            }
        } else if i == 32 {
            FeatureInfo {
                register: OutputRegister::EDX,
                request: CPUIDRequest::Features,
                mask: 1u32 << 1,
            }
        } else if i == 33 {
            FeatureInfo {
                register: OutputRegister::EDX,
                request: CPUIDRequest::Features,
                mask: 1u32 << 2,
            }
        } else if i == 34 {
            FeatureInfo {
                register: OutputRegister::EDX,
                request: CPUIDRequest::Features,
                mask: 1u32 << 3,
            }
        } else if i == 35 {
            FeatureInfo {
                register: OutputRegister::EDX,
                request: CPUIDRequest::Features,
                mask: 1u32 << 4,
            }
        } else if i == 36 {
            FeatureInfo {
                register: OutputRegister::EDX,
                request: CPUIDRequest::Features,
                mask: 1u32 << 5,
            }
        } else if i == 37 {
            FeatureInfo {
                register: OutputRegister::EDX,
                request: CPUIDRequest::Features,
                mask: 1u32 << 6,
            }
        } else if i == 38 {
            FeatureInfo {
                register: OutputRegister::EDX,
                request: CPUIDRequest::Features,
                mask: 1u32 << 7,
            }
        } else if i == 39 {
            FeatureInfo {
                register: OutputRegister::EDX,
                request: CPUIDRequest::Features,
                mask: 1u32 << 8,
            }
        } else if i == 40 {
            FeatureInfo {
                register: OutputRegister::EDX,
                request: CPUIDRequest::Features,
                mask: 1u32 << 9,
            }
        } else if i == 41 {
            FeatureInfo {
                register: OutputRegister::EDX,
                request: CPUIDRequest::Features,
                mask: 1u32 << 11,
            }
        } else if i == 42 {
            FeatureInfo {
                register: OutputRegister::EDX,
                request: CPUIDRequest::Features,
                mask: 1u32 << 12,
            }
        } else if i == 43 {
            FeatureInfo {
                register: OutputRegister::EDX,
                request: CPUIDRequest::Features,
                mask: 1u32 << 13,
            }
        } else if i == 44 {
            FeatureInfo {
                register: OutputRegister::EDX,
                request: CPUIDRequest::Features,
                mask: 1u32 << 14,
            }
        } else if i == 45 {
            FeatureInfo {
                register: OutputRegister::EDX,
                request: CPUIDRequest::Features,
                mask: 1u32 << 15,
            }
        } else if i == 46 {
            FeatureInfo {
                register: OutputRegister::EDX,
                request: CPUIDRequest::Features,
                mask: 1u32 << 16,
            }
        } else if i == 47 {
            FeatureInfo {
                register: OutputRegister::EDX,
                request: CPUIDRequest::Features,
                mask: 1u32 << 17,
            }
        } else if i == 48 {
            FeatureInfo {
                register: OutputRegister::EDX,
                request: CPUIDRequest::Features,
                mask: 1u32 << 18,
            }
        } else if i == 49 {
            FeatureInfo {
                register: OutputRegister::EDX,
                request: CPUIDRequest::Features,
                mask: 1u32 << 19,
            }
        } else if i == 50 {
            FeatureInfo {
                register: OutputRegister::EDX,
                request: CPUIDRequest::Features,
                mask: 1u32 << 20,
            }
        } else if i == 51 {
            FeatureInfo {
                register: OutputRegister::EDX,
                request: CPUIDRequest::Features,
                mask: 1u32 << 21,
            }
        } else if i == 52 {
            FeatureInfo {
                register: OutputRegister::EDX,
                request: CPUIDRequest::Features,
                mask: 1u32 << 22,
            }
        } else if i == 53 {
            FeatureInfo {
                register: OutputRegister::EDX,
                request: CPUIDRequest::Features,
                mask: 1u32 << 23,
            }
        } else if i == 54 {
            FeatureInfo {
                register: OutputRegister::EDX,
                request: CPUIDRequest::Features,
                mask: 1u32 << 24,
            }
        } else if i == 55 {
            FeatureInfo {
                register: OutputRegister::EDX,
                request: CPUIDRequest::Features,
                mask: 1u32 << 25,
            }
        } else if i == 56 {
            FeatureInfo {
                register: OutputRegister::EDX,
                request: CPUIDRequest::Features,
                mask: 1u32 << 26,
            }
        } else if i == 57 {
            FeatureInfo {
                register: OutputRegister::EDX,
                request: CPUIDRequest::Features,
                mask: 1u32 << 27,
            }
        } else if i == 58 {
            FeatureInfo {
                register: OutputRegister::EDX,
                request: CPUIDRequest::Features,
                mask: 1u32 << 28,
            }
        } else if i == 59 {
            FeatureInfo {
                register: OutputRegister::EDX,
                request: CPUIDRequest::Features,
                mask: 1u32 << 29,
            }
        } else if i == 60 {
            FeatureInfo {
                register: OutputRegister::EDX,
                request: CPUIDRequest::Features,
                mask: 1u32 << 30,
            }
        } else if i == 61 {
            FeatureInfo {
                register: OutputRegister::EDX,
                request: CPUIDRequest::Features,
                mask: 1u32 << 31,
            }
        } else if i == 62 {
            FeatureInfo {
                register: OutputRegister::EBX,
                request: CPUIDRequest::ExtendedFeatures1,
                mask: 1u32 << 0,
            }
        } else if i == 63 {
            FeatureInfo {
                register: OutputRegister::EBX,
                request: CPUIDRequest::ExtendedFeatures1,
                mask: 1u32 << 2,
            }
        } else if i == 64 {
            FeatureInfo {
                register: OutputRegister::EBX,
                request: CPUIDRequest::ExtendedFeatures1,
                mask: 1u32 << 3,
            }
        } else if i == 65 {
            FeatureInfo {
                register: OutputRegister::EBX,
                request: CPUIDRequest::ExtendedFeatures1,
                mask: 1u32 << 4,
            }
        } else if i == 66 {
            FeatureInfo {
                register: OutputRegister::EBX,
                request: CPUIDRequest::ExtendedFeatures1,
                mask: 1u32 << 5,
            }
        } else if i == 67 {
            FeatureInfo {
                register: OutputRegister::EBX,
                request: CPUIDRequest::ExtendedFeatures1,
                mask: 1u32 << 6,
            }
        } else if i == 68 {
            FeatureInfo {
                register: OutputRegister::EBX,
                request: CPUIDRequest::ExtendedFeatures1,
                mask: 1u32 << 7,
            }
        } else if i == 69 {
            FeatureInfo {
                register: OutputRegister::EBX,
                request: CPUIDRequest::ExtendedFeatures1,
                mask: 1u32 << 8,
            }
        } else if i == 70 {
            FeatureInfo {
                register: OutputRegister::EBX,
                request: CPUIDRequest::ExtendedFeatures1,
                mask: 1u32 << 9,
            }
        } else if i == 71 {
            FeatureInfo {
                register: OutputRegister::EBX,
                request: CPUIDRequest::ExtendedFeatures1,
                mask: 1u32 << 10,
            }
        } else if i == 72 {
            FeatureInfo {
                register: OutputRegister::EBX,
                request: CPUIDRequest::ExtendedFeatures1,
                mask: 1u32 << 11,
            }
        } else if i == 73 {
            FeatureInfo {
                register: OutputRegister::EBX,
                request: CPUIDRequest::ExtendedFeatures1,
                mask: 1u32 << 12,
            }
        } else if i == 74 {
            FeatureInfo {
                register: OutputRegister::EBX,
                request: CPUIDRequest::ExtendedFeatures1,
                mask: 1u32 << 14,
            }
        } else if i == 75 {
            FeatureInfo {
                register: OutputRegister::EBX,
                request: CPUIDRequest::ExtendedFeatures1,
                mask: 1u32 << 16,
            }
        } else if i == 76 {
            FeatureInfo {
                register: OutputRegister::EBX,
                request: CPUIDRequest::ExtendedFeatures1,
                mask: 1u32 << 17,
            }
        } else if i == 77 {
            FeatureInfo {
                register: OutputRegister::EBX,
                request: CPUIDRequest::ExtendedFeatures1,
                mask: 1u32 << 18,
            }
        } else if i == 78 {
            FeatureInfo {
                register: OutputRegister::EBX,
                request: CPUIDRequest::ExtendedFeatures1,
                mask: 1u32 << 19,
            }
        } else if i == 79 {
            FeatureInfo {
                register: OutputRegister::EBX,
                request: CPUIDRequest::ExtendedFeatures1,
                mask: 1u32 << 20,
            }
        } else if i == 80 {
            FeatureInfo {
                register: OutputRegister::EBX,
                request: CPUIDRequest::ExtendedFeatures1,
                mask: 1u32 << 21,
            }
        } else if i == 81 {
            FeatureInfo {
                register: OutputRegister::EBX,
                request: CPUIDRequest::ExtendedFeatures1,
                mask: 1u32 << 22,
            }
        } else if i == 82 {
            FeatureInfo {
                register: OutputRegister::EBX,
                request: CPUIDRequest::ExtendedFeatures1,
                mask: 1u32 << 23,
            }
        } else if i == 83 {
            FeatureInfo {
                register: OutputRegister::EBX,
                request: CPUIDRequest::ExtendedFeatures1,
                mask: 1u32 << 24,
            }
        } else if i == 84 {
            FeatureInfo {
                register: OutputRegister::EBX,
                request: CPUIDRequest::ExtendedFeatures1,
                mask: 1u32 << 25,
            }
        } else if i == 85 {
            FeatureInfo {
                register: OutputRegister::EBX,
                request: CPUIDRequest::ExtendedFeatures1,
                mask: 1u32 << 26,
            }
        } else if i == 86 {
            FeatureInfo {
                register: OutputRegister::EBX,
                request: CPUIDRequest::ExtendedFeatures1,
                mask: 1u32 << 27,
            }
        } else if i == 87 {
            FeatureInfo {
                register: OutputRegister::EBX,
                request: CPUIDRequest::ExtendedFeatures1,
                mask: 1u32 << 28,
            }
        } else if i == 88 {
            FeatureInfo {
                register: OutputRegister::EBX,
                request: CPUIDRequest::ExtendedFeatures1,
                mask: 1u32 << 29,
            }
        } else if i == 89 {
            FeatureInfo {
                register: OutputRegister::EBX,
                request: CPUIDRequest::ExtendedFeatures1,
                mask: 1u32 << 30,
            }
        } else if i == 90 {
            FeatureInfo {
                register: OutputRegister::EBX,
                request: CPUIDRequest::ExtendedFeatures1,
                mask: 1u32 << 31,
            }
        } else if i == 91 {
            FeatureInfo {
                register: OutputRegister::ECX,
                request: CPUIDRequest::ExtendedFeatures1,
                mask: 1u32 << 0,
            }
        } else if i == 92 {
            FeatureInfo {
                register: OutputRegister::ECX,
                request: CPUIDRequest::ExtendedFeatures1,
                mask: 1u32 << 1,
            }
        } else if i == 93 {
            FeatureInfo {
                register: OutputRegister::ECX,
                request: CPUIDRequest::ExtendedFeatures1,
                mask: 1u32 << 2,
            }
        } else if i == 94 {
            FeatureInfo {
                register: OutputRegister::ECX,
                request: CPUIDRequest::ExtendedFeatures1,
                mask: 1u32 << 3,
            }
        } else if i == 95 {
            FeatureInfo {
                register: OutputRegister::ECX,
                request: CPUIDRequest::ExtendedFeatures1,
                mask: 1u32 << 4,
            }
        } else if i == 96 {
            FeatureInfo {
                register: OutputRegister::ECX,
                request: CPUIDRequest::ExtendedFeatures1,
                mask: 1u32 << 5,
            }
        } else if i == 97 {
            FeatureInfo {
                register: OutputRegister::ECX,
                request: CPUIDRequest::ExtendedFeatures1,
                mask: 1u32 << 6,
            }
        } else if i == 98 {
            FeatureInfo {
                register: OutputRegister::ECX,
                request: CPUIDRequest::ExtendedFeatures1,
                mask: 1u32 << 7,
            }
        } else if i == 99 {
            FeatureInfo {
                register: OutputRegister::ECX,
                request: CPUIDRequest::ExtendedFeatures1,
                mask: 1u32 << 8,
            }
        } else if i == 100 {
            FeatureInfo {
                register: OutputRegister::ECX,
                request: CPUIDRequest::ExtendedFeatures1,
                mask: 1u32 << 9,
            }
        } else if i == 101 {
            FeatureInfo {
                register: OutputRegister::ECX,
                request: CPUIDRequest::ExtendedFeatures1,
                mask: 1u32 << 10,
            }
        } else if i == 102 {
            FeatureInfo {
                register: OutputRegister::ECX,
                request: CPUIDRequest::ExtendedFeatures1,
                mask: 1u32 << 11,
            }
        } else if i == 103 {
            FeatureInfo {
                register: OutputRegister::ECX,
                request: CPUIDRequest::ExtendedFeatures1,
                mask: 1u32 << 12,
            }
        } else if i == 104 {
            FeatureInfo {
                register: OutputRegister::ECX,
                request: CPUIDRequest::ExtendedFeatures1,
                mask: 1u32 << 13,
            }
        } else if i == 105 {
            FeatureInfo {
                register: OutputRegister::ECX,
                request: CPUIDRequest::ExtendedFeatures1,
                mask: 1u32 << 14,
            }
        } else if i == 106 {
            FeatureInfo {
                register: OutputRegister::ECX,
                request: CPUIDRequest::ExtendedFeatures1,
                mask: 1u32 << 16,
            }
        } else if i == 107 {
            FeatureInfo {
                register: OutputRegister::ECX,
                request: CPUIDRequest::ExtendedFeatures1,
                mask: 1u32 << 22,
            }
        } else if i == 108 {
            FeatureInfo {
                register: OutputRegister::ECX,
                request: CPUIDRequest::ExtendedFeatures1,
                mask: 1u32 << 23,
            }
        } else if i == 109 {
            FeatureInfo {
                register: OutputRegister::ECX,
                request: CPUIDRequest::ExtendedFeatures1,
                mask: 1u32 << 24,
            }
        } else if i == 110 {
            FeatureInfo {
                register: OutputRegister::ECX,
                request: CPUIDRequest::ExtendedFeatures1,
                mask: 1u32 << 25,
            }
        } else if i == 111 {
            FeatureInfo {
                register: OutputRegister::ECX,
                request: CPUIDRequest::ExtendedFeatures1,
                mask: 1u32 << 27,
            }
        } else if i == 112 {
            FeatureInfo {
                register: OutputRegister::ECX,
                request: CPUIDRequest::ExtendedFeatures1,
                mask: 1u32 << 28,
            }
        } else if i == 113 {
            FeatureInfo {
                register: OutputRegister::ECX,
                request: CPUIDRequest::ExtendedFeatures1,
                mask: 1u32 << 29,
            }
        } else if i == 114 {
            FeatureInfo {
                register: OutputRegister::ECX,
                request: CPUIDRequest::ExtendedFeatures1,
                mask: 1u32 << 30,
            }
        } else if i == 115 {
            FeatureInfo {
                register: OutputRegister::ECX,
                request: CPUIDRequest::ExtendedFeatures1,
                mask: 1u32 << 31,
            }
        } else if i == 116 {
            FeatureInfo {
                register: OutputRegister::EDX,
                request: CPUIDRequest::ExtendedFeatures1,
                mask: 1u32 << 1,
            }
        } else if i == 117 {
            FeatureInfo {
                register: OutputRegister::EDX,
                request: CPUIDRequest::ExtendedFeatures1,
                mask: 1u32 << 2,
            }
        } else if i == 118 {
            FeatureInfo {
                register: OutputRegister::EDX,
                request: CPUIDRequest::ExtendedFeatures1,
                mask: 1u32 << 3,
            }
        } else if i == 119 {
            FeatureInfo {
                register: OutputRegister::EDX,
                request: CPUIDRequest::ExtendedFeatures1,
                mask: 1u32 << 4,
            }
        } else if i == 120 {
            FeatureInfo {
                register: OutputRegister::EDX,
                request: CPUIDRequest::ExtendedFeatures1,
                mask: 1u32 << 5,
            }
        } else if i == 121 {
            FeatureInfo {
                register: OutputRegister::EDX,
                request: CPUIDRequest::ExtendedFeatures1,
                mask: 1u32 << 8,
            }
        } else if i == 122 {
            FeatureInfo {
                register: OutputRegister::EDX,
                request: CPUIDRequest::ExtendedFeatures1,
                mask: 1u32 << 9,
            }
        } else if i == 123 {
            FeatureInfo {
                register: OutputRegister::EDX,
                request: CPUIDRequest::ExtendedFeatures1,
                mask: 1u32 << 10,
            }
        } else if i == 124 {
            FeatureInfo {
                register: OutputRegister::EDX,
                request: CPUIDRequest::ExtendedFeatures1,
                mask: 1u32 << 11,
            }
        } else if i == 125 {
            FeatureInfo {
                register: OutputRegister::EDX,
                request: CPUIDRequest::ExtendedFeatures1,
                mask: 1u32 << 13,
            }
        } else if i == 126 {
            FeatureInfo {
                register: OutputRegister::EDX,
                request: CPUIDRequest::ExtendedFeatures1,
                mask: 1u32 << 14,
            }
        } else if i == 127 {
            FeatureInfo {
                register: OutputRegister::EDX,
                request: CPUIDRequest::ExtendedFeatures1,
                mask: 1u32 << 15,
            }
        } else if i == 128 {
            FeatureInfo {
                register: OutputRegister::EDX,
                request: CPUIDRequest::ExtendedFeatures1,
                mask: 1u32 << 16,
            }
        } else if i == 129 {
            FeatureInfo {
                register: OutputRegister::EDX,
                request: CPUIDRequest::ExtendedFeatures1,
                mask: 1u32 << 18,
            }
        } else if i == 130 {
            FeatureInfo {
                register: OutputRegister::EDX,
                request: CPUIDRequest::ExtendedFeatures1,
                mask: 1u32 << 19,
            }
        } else if i == 131 {
            FeatureInfo {
                register: OutputRegister::EDX,
                request: CPUIDRequest::ExtendedFeatures1,
                mask: 1u32 << 20,
            }
        } else if i == 132 {
            FeatureInfo {
                register: OutputRegister::EDX,
                request: CPUIDRequest::ExtendedFeatures1,
                mask: 1u32 << 22,
            }
        } else if i == 133 {
            FeatureInfo {
                register: OutputRegister::EDX,
                request: CPUIDRequest::ExtendedFeatures1,
                mask: 1u32 << 23,
            }
        } else if i == 134 {
            FeatureInfo {
                register: OutputRegister::EDX,
                request: CPUIDRequest::ExtendedFeatures1,
                mask: 1u32 << 24,
            }
        } else if i == 135 {
            FeatureInfo {
                register: OutputRegister::EDX,
                request: CPUIDRequest::ExtendedFeatures1,
                mask: 1u32 << 25,
            }
        } else if i == 136 {
            FeatureInfo {
                register: OutputRegister::EDX,
                request: CPUIDRequest::ExtendedFeatures1,
                mask: 1u32 << 26,
            }
        } else if i == 137 {
            FeatureInfo {
                register: OutputRegister::EDX,
                request: CPUIDRequest::ExtendedFeatures1,
                mask: 1u32 << 27,
            }
        } else if i == 138 {
            FeatureInfo {
                register: OutputRegister::EDX,
                request: CPUIDRequest::ExtendedFeatures1,
                mask: 1u32 << 28,
            }
        } else if i == 139 {
            FeatureInfo {
                register: OutputRegister::EDX,
                request: CPUIDRequest::ExtendedFeatures1,
                mask: 1u32 << 31,
            }
        } else if i == 140 {
            FeatureInfo {
                register: OutputRegister::EAX,
                request: CPUIDRequest::ExtendedFeatures2,
                mask: 1u32 << 0,
            }
        } else if i == 141 {
            FeatureInfo {
                register: OutputRegister::EAX,
                request: CPUIDRequest::ExtendedFeatures2,
                mask: 1u32 << 1,
            }
        } else if i == 142 {
            FeatureInfo {
                register: OutputRegister::EAX,
                request: CPUIDRequest::ExtendedFeatures2,
                mask: 1u32 << 2,
            }
        } else if i == 143 {
            FeatureInfo {
                register: OutputRegister::EAX,
                request: CPUIDRequest::ExtendedFeatures2,
                mask: 1u32 << 3,
            }
        } else if i == 144 {
            FeatureInfo {
                register: OutputRegister::EAX,
                request: CPUIDRequest::ExtendedFeatures2,
                mask: 1u32 << 4,
            }
        } else if i == 145 {
            FeatureInfo {
                register: OutputRegister::EAX,
                request: CPUIDRequest::ExtendedFeatures2,
                mask: 1u32 << 5,
            }
        } else if i == 146 {
            FeatureInfo {
                register: OutputRegister::EAX,
                request: CPUIDRequest::ExtendedFeatures2,
                mask: 1u32 << 6,
            }
        } else if i == 147 {
            FeatureInfo {
                register: OutputRegister::EAX,
                request: CPUIDRequest::ExtendedFeatures2,
                mask: 1u32 << 7,
            }
        } else if i == 148 {
            FeatureInfo {
                register: OutputRegister::EAX,
                request: CPUIDRequest::ExtendedFeatures2,
                mask: 1u32 << 8,
            }
        } else if i == 149 {
            FeatureInfo {
                register: OutputRegister::EAX,
                request: CPUIDRequest::ExtendedFeatures2,
                mask: 1u32 << 10,
            }
        } else if i == 150 {
            FeatureInfo {
                register: OutputRegister::EAX,
                request: CPUIDRequest::ExtendedFeatures2,
                mask: 1u32 << 11,
            }
        } else if i == 151 {
            FeatureInfo {
                register: OutputRegister::EAX,
                request: CPUIDRequest::ExtendedFeatures2,
                mask: 1u32 << 12,
            }
        } else if i == 152 {
            FeatureInfo {
                register: OutputRegister::EAX,
                request: CPUIDRequest::ExtendedFeatures2,
                mask: 1u32 << 17,
            }
        } else if i == 153 {
            FeatureInfo {
                register: OutputRegister::EAX,
                request: CPUIDRequest::ExtendedFeatures2,
                mask: 1u32 << 18,
            }
        } else if i == 154 {
            FeatureInfo {
                register: OutputRegister::EAX,
                request: CPUIDRequest::ExtendedFeatures2,
                mask: 1u32 << 19,
            }
        } else if i == 155 {
            FeatureInfo {
                register: OutputRegister::EAX,
                request: CPUIDRequest::ExtendedFeatures2,
                mask: 1u32 << 21,
            }
        } else if i == 156 {
            FeatureInfo {
                register: OutputRegister::EAX,
                request: CPUIDRequest::ExtendedFeatures2,
                mask: 1u32 << 22,
            }
        } else if i == 157 {
            FeatureInfo {
                register: OutputRegister::EAX,
                request: CPUIDRequest::ExtendedFeatures2,
                mask: 1u32 << 26,
            }
        } else if i == 158 {
            FeatureInfo {
                register: OutputRegister::EAX,
                request: CPUIDRequest::ExtendedFeatures2,
                mask: 1u32 << 27,
            }
        } else if i == 159 {
            FeatureInfo {
                register: OutputRegister::EBX,
                request: CPUIDRequest::ExtendedFeatures2,
                mask: 1u32 << 0,
            }
        } else if i == 160 {
            FeatureInfo {
                register: OutputRegister::EBX,
                request: CPUIDRequest::ExtendedFeatures2,
                mask: 1u32 << 1,
            }
        } else if i == 161 {
            FeatureInfo {
                register: OutputRegister::EDX,
                request: CPUIDRequest::ExtendedFeatures2,
                mask: 1u32 << 4,
            }
        } else if i == 162 {
            FeatureInfo {
                register: OutputRegister::EDX,
                request: CPUIDRequest::ExtendedFeatures2,
                mask: 1u32 << 5,
            }
        } else if i == 163 {
            FeatureInfo {
                register: OutputRegister::EDX,
                request: CPUIDRequest::ExtendedFeatures2,
                mask: 1u32 << 8,
            }
        } else if i == 164 {
            FeatureInfo {
                register: OutputRegister::EDX,
                request: CPUIDRequest::ExtendedFeatures2,
                mask: 1u32 << 10,
            }
        } else if i == 165 {
            FeatureInfo {
                register: OutputRegister::EDX,
                request: CPUIDRequest::ExtendedFeatures2,
                mask: 1u32 << 14,
            }
        } else if i == 166 {
            FeatureInfo {
                register: OutputRegister::EDX,
                request: CPUIDRequest::ExtendedFeatures2,
                mask: 1u32 << 15,
            }
        } else if i == 167 {
            FeatureInfo {
                register: OutputRegister::EDX,
                request: CPUIDRequest::ExtendedFeatures2,
                mask: 1u32 << 17,
            }
        } else if i == 168 {
            FeatureInfo {
                register: OutputRegister::EDX,
                request: CPUIDRequest::ExtendedFeatures2,
                mask: 1u32 << 18,
            }
        } else if i == 169 {
            FeatureInfo {
                register: OutputRegister::EDX,
                request: CPUIDRequest::ExtendedFeatures2,
                mask: 1u32 << 19,
            }
        } else if i == 170 {
            FeatureInfo {
                register: OutputRegister::EDX,
                request: CPUIDRequest::ExtendedFeatures2,
                mask: 1u32 << 21,
            }
        } else if i == 171 {
            FeatureInfo {
                register: OutputRegister::EDX,
                request: CPUIDRequest::ExtendedFeatures3,
                mask: 1u32 << 0,
            }
        } else if i == 172 {
            FeatureInfo {
                register: OutputRegister::EDX,
                request: CPUIDRequest::ExtendedFeatures3,
                mask: 1u32 << 1,
            }
        } else if i == 173 {
            FeatureInfo {
                register: OutputRegister::EDX,
                request: CPUIDRequest::ExtendedFeatures3,
                mask: 1u32 << 2,
            }
        } else if i == 174 {
            FeatureInfo {
                register: OutputRegister::EDX,
                request: CPUIDRequest::ExtendedFeatures3,
                mask: 1u32 << 3,
            }
        } else if i == 175 {
            FeatureInfo {
                register: OutputRegister::EDX,
                request: CPUIDRequest::ExtendedFeatures3,
                mask: 1u32 << 4,
            }
        } else if i == 176 {
            FeatureInfo {
                register: OutputRegister::EDX,
                request: CPUIDRequest::ExtendedFeatures3,
                mask: 1u32 << 5,
            }
        } else if i == 177 {
            FeatureInfo {
                register: OutputRegister::EDX,
                request: CPUIDRequest::ExtendedFeatures4,
                mask: 1u32 << 11,
            }
        } else if i == 178 {
            FeatureInfo {
                register: OutputRegister::EDX,
                request: CPUIDRequest::ExtendedFeatures4,
                mask: 1u32 << 20,
            }
        } else if i == 179 {
            FeatureInfo {
                register: OutputRegister::EDX,
                request: CPUIDRequest::ExtendedFeatures4,
                mask: 1u32 << 25,
            }
        } else if i == 180 {
            FeatureInfo {
                register: OutputRegister::EDX,
                request: CPUIDRequest::ExtendedFeatures4,
                mask: 1u32 << 26,
            }
        } else if i == 181 {
            FeatureInfo {
                register: OutputRegister::EDX,
                request: CPUIDRequest::ExtendedFeatures4,
                mask: 1u32 << 27,
            }
        } else if i == 182 {
            FeatureInfo {
                register: OutputRegister::EDX,
                request: CPUIDRequest::ExtendedFeatures4,
                mask: 1u32 << 29,
            }
        } else if i == 183 {
            FeatureInfo {
                register: OutputRegister::EDX,
                request: CPUIDRequest::ExtendedFeatures4,
                mask: 1u32 << 30,
            }
        } else if i == 184 {
            FeatureInfo {
                register: OutputRegister::EDX,
                request: CPUIDRequest::ExtendedFeatures4,
                mask: 1u32 << 31,
            }
        } else if i == 185 {
            FeatureInfo {
                register: OutputRegister::ECX,
                request: CPUIDRequest::ExtendedFeatures4,
                mask: 1u32 << 0,
            }
        } else if i == 186 {
            FeatureInfo {
                register: OutputRegister::ECX,
                request: CPUIDRequest::ExtendedFeatures4,
                mask: 1u32 << 1,
            }
        } else if i == 187 {
            FeatureInfo {
                register: OutputRegister::ECX,
                request: CPUIDRequest::ExtendedFeatures4,
                mask: 1u32 << 2,
            }
        } else if i == 188 {
            FeatureInfo {
                register: OutputRegister::ECX,
                request: CPUIDRequest::ExtendedFeatures4,
                mask: 1u32 << 3,
            }
        } else if i == 189 {
            FeatureInfo {
                register: OutputRegister::ECX,
                request: CPUIDRequest::ExtendedFeatures4,
                mask: 1u32 << 4,
            }
        } else if i == 190 {
            FeatureInfo {
                register: OutputRegister::ECX,
                request: CPUIDRequest::ExtendedFeatures4,
                mask: 1u32 << 5,
            }
        } else if i == 191 {
            FeatureInfo {
                register: OutputRegister::ECX,
                request: CPUIDRequest::ExtendedFeatures4,
                mask: 1u32 << 6,
            }
        } else if i == 192 {
            FeatureInfo {
                register: OutputRegister::ECX,
                request: CPUIDRequest::ExtendedFeatures4,
                mask: 1u32 << 7,
            }
        } else if i == 193 {
            FeatureInfo {
                register: OutputRegister::ECX,
                request: CPUIDRequest::ExtendedFeatures4,
                mask: 1u32 << 8,
            }
        } else if i == 194 {
            FeatureInfo {
                register: OutputRegister::ECX,
                request: CPUIDRequest::ExtendedFeatures4,
                mask: 1u32 << 9,
            }
        } else if i == 195 {
            FeatureInfo {
                register: OutputRegister::ECX,
                request: CPUIDRequest::ExtendedFeatures4,
                mask: 1u32 << 10,
            }
        } else if i == 196 {
            FeatureInfo {
                register: OutputRegister::ECX,
                request: CPUIDRequest::ExtendedFeatures4,
                mask: 1u32 << 11,
            }
        } else if i == 197 {
            FeatureInfo {
                register: OutputRegister::ECX,
                request: CPUIDRequest::ExtendedFeatures4,
                mask: 1u32 << 12,
            }
        } else if i == 198 {
            FeatureInfo {
                register: OutputRegister::ECX,
                request: CPUIDRequest::ExtendedFeatures4,
                mask: 1u32 << 13,
            }
        } else if i == 199 {
            FeatureInfo {
                register: OutputRegister::ECX,
                request: CPUIDRequest::ExtendedFeatures4,
                mask: 1u32 << 15,
            }
        } else if i == 200 {
            FeatureInfo {
                register: OutputRegister::ECX,
                request: CPUIDRequest::ExtendedFeatures4,
                mask: 1u32 << 16,
            }
        } else if i == 201 {
            FeatureInfo {
                register: OutputRegister::ECX,
                request: CPUIDRequest::ExtendedFeatures4,
                mask: 1u32 << 17,
            }
        } else if i == 202 {
            FeatureInfo {
                register: OutputRegister::ECX,
                request: CPUIDRequest::ExtendedFeatures4,
                mask: 1u32 << 19,
            }
        } else if i == 203 {
            FeatureInfo {
                register: OutputRegister::ECX,
                request: CPUIDRequest::ExtendedFeatures4,
                mask: 1u32 << 20,
            }
        } else if i == 204 {
            FeatureInfo {
                register: OutputRegister::ECX,
                request: CPUIDRequest::ExtendedFeatures4,
                mask: 1u32 << 22,
            }
        } else if i == 205 {
            FeatureInfo {
                register: OutputRegister::ECX,
                request: CPUIDRequest::ExtendedFeatures4,
                mask: 1u32 << 23,
            }
        } else if i == 206 {
            FeatureInfo {
                register: OutputRegister::ECX,
                request: CPUIDRequest::ExtendedFeatures4,
                mask: 1u32 << 24,
            }
        } else if i == 207 {
            FeatureInfo {
                register: OutputRegister::ECX,
                request: CPUIDRequest::ExtendedFeatures4,
                mask: 1u32 << 25,
            }
        } else if i == 208 {
            FeatureInfo {
                register: OutputRegister::ECX,
                request: CPUIDRequest::ExtendedFeatures4,
                mask: 1u32 << 26,
            }
        } else if i == 209 {
            FeatureInfo {
                register: OutputRegister::ECX,
                request: CPUIDRequest::ExtendedFeatures4,
                mask: 1u32 << 27,
            }
        } else if i == 210 {
            FeatureInfo {
                register: OutputRegister::ECX,
                request: CPUIDRequest::ExtendedFeatures4,
                mask: 1u32 << 28,
            }
        } else if i == 211 {
            FeatureInfo {
                register: OutputRegister::ECX,
                request: CPUIDRequest::ExtendedFeatures4,
                mask: 1u32 << 29,
            }
        } else {
            FeatureInfo {
                register: OutputRegister::ECX,
                request: CPUIDRequest::ExtendedFeatures4,
                mask: 1u32 << 30,
            }
        }
    }

    /// The feature's human-readable name; never empty.
    pub fn name(&self) -> (r: &'static str)
        ensures
            r@.len() > 0,
    {
        match *self {
            CPUFeature::SSE3 => {
                proof {
                    reveal_strlit("SSE3");
                }
                "SSE3"
            },
            CPUFeature::PCLMUL => {
                proof {
                    reveal_strlit("Carry-Less Multiplication");
                }
                "Carry-Less Multiplication"
            },
            CPUFeature::DTES64 => {
                proof {
                    reveal_strlit("64-Bit Debug Store");
                }
                "64-Bit Debug Store"
            },
            CPUFeature::MONITOR => {
                proof {
                    reveal_strlit("MONITOR and MWAIT instructions");
                }
                "MONITOR and MWAIT instructions"
            },
            CPUFeature::DS_CPL => {
                proof {
                    reveal_strlit("CPL-qualified Debug Store");
                }
                "CPL-qualified Debug Store"
            },
            CPUFeature::VMX => {
                proof {
                    reveal_strlit("Virtual Machine Extensions");
                }
                "Virtual Machine Extensions"
            },
            CPUFeature::SMX => {
                proof {
                    reveal_strlit("Safer Mode Extensions");
                }
                "Safer Mode Extensions"
            },
            CPUFeature::EST => {
                proof {
                    reveal_strlit("Enhanced SpeedStep");
                }
                "Enhanced SpeedStep"
            },
            CPUFeature::TM2 => {
                proof {
                    reveal_strlit("Thermal Monitor 2");
                }
                "Thermal Monitor 2"
            },
            CPUFeature::SSSE3 => {
                proof {
                    reveal_strlit("Supplemental SSE3");
                }
                "Supplemental SSE3"
            },
            CPUFeature::CID => {
                proof {
                    reveal_strlit("L1 Context ID");
                }
                "L1 Context ID"
            },
            CPUFeature::SDBG => {
                proof {
                    reveal_strlit("Silicon Debug Interface");
                }
                "Silicon Debug Interface"
            },
            CPUFeature::FMA => {
                proof {
                    reveal_strlit("Fused Multiply-Add (FMA3)");
                }
                "Fused Multiply-Add (FMA3)"
            },
            CPUFeature::CX16 => {
                proof {
                    reveal_strlit("CMPXCHG1B instruction");
                }
                "CMPXCHG1B instruction"
            },
            CPUFeature::XTPR => {
                proof {
                    reveal_strlit("Can disable sending task priority messages");
                }
                "Can disable sending task priority messages"
            },
            CPUFeature::PDCM => {
                proof {
                    reveal_strlit("Prefmon & Debug Capability");
                }
                "Prefmon & Debug Capability"
            },
            CPUFeature::PCID => {
                proof {
                    reveal_strlit("Process Context Identifiers");
                }
                "Process Context Identifiers"
            },
            CPUFeature::DCA => {
                proof {
                    reveal_strlit("Direct Cache Access for DMA writes");
                }
                "Direct Cache Access for DMA writes"
            },
            CPUFeature::SSE4_1 => {
                proof {
                    reveal_strlit("SSE4.1 instructions");
                }
                "SSE4.1 instructions"
            },
            CPUFeature::SSE4_2 => {
                proof {
                    reveal_strlit("SSE4.2 instructions");
                }
                "SSE4.2 instructions"
            },
            CPUFeature::X2APIC => {
                proof {
                    reveal_strlit("x2APIC (enhanced APIC)");
                }
                "x2APIC (enhanced APIC)"
            },
            CPUFeature::MOVBE => {
                proof {
                    reveal_strlit("MOVBE instruction");
                }
                "MOVBE instruction"
            },
            CPUFeature::POPCNT => {
                proof {
                    reveal_strlit("POPCNT instruction");
                }
                "POPCNT instruction"
            },
            CPUFeature::TSCDeadline => {
                proof {
                    reveal_strlit("APIC implements one-shot operation using a TSC deadline value");
                }
                "APIC implements one-shot operation using a TSC deadline value"
            },
            CPUFeature::AES => {
                proof {
                    reveal_strlit("Hardware-accelerated AES Instruction Set");
                }
                "Hardware-accelerated AES Instruction Set"
            },
            CPUFeature::XSAVE => {
                proof {
                    reveal_strlit("Extensible processor state restore instructions");
                }
                "Extensible processor state restore instructions"
            },
            CPUFeature::OSXSAVE => {
                proof {
                    reveal_strlit("XSAVE enabled by OS");
                }
                "XSAVE enabled by OS"
            },
            CPUFeature::AVX => {
                proof {
                    reveal_strlit("Advanced Vector Extensions (256-bit SIMD)");
                }
                "Advanced Vector Extensions (256-bit SIMD)"
            },
            CPUFeature::F16C => {
                proof {
                    reveal_strlit("Floating-point conversion instructions to/from FP16 format");
                }
                "Floating-point conversion instructions to/from FP16 format"
            },
            CPUFeature::RDRAND => {
                proof {
                    reveal_strlit("RDRAND (HRNG) feature");
                }
                "RDRAND (HRNG) feature"
            },
            CPUFeature::HYPERVISOR => {
                proof {
                    reveal_strlit("Hypervisor is present");
                }
                "Hypervisor is present"
            },
            CPUFeature::FPU => {
                proof {
                    reveal_strlit("Onboard x87 FPU");
                }
                "Onboard x87 FPU"
            },
            CPUFeature::VME => {
                proof {
                    reveal_strlit("Virtual 8086 Mode Extensions");
                }
                "Virtual 8086 Mode Extensions"
            },
            CPUFeature::DE => {
                proof {
                    reveal_strlit("Debugging Extensions");
                }
                "Debugging Extensions"
            },
            CPUFeature::PSE => {
                proof {
                    reveal_strlit("Page Size Extension (4MB pages)");
                }
                "Page Size Extension (4MB pages)"
            },
            CPUFeature::TSC => {
                proof {
                    reveal_strlit("Time Stamp Counter and RDTSC instruction");
                }
                "Time Stamp Counter and RDTSC instruction"
            },
            CPUFeature::MSR => {
                proof {
                    reveal_strlit("Model-Specific Registers and RDMSR/WRMSR instructions");
                }
                "Model-Specific Registers and RDMSR/WRMSR instructions"
            },
            CPUFeature::PAE => {
                proof {
                    reveal_strlit("Physical Address Extension");
                }
                "Physical Address Extension"
            },
            CPUFeature::MCE => {
                proof {
                    reveal_strlit("Machine Check Exception");
                }
                "Machine Check Exception"
            },
            CPUFeature::CX8 => {
                proof {
                    reveal_strlit("CMPXCHG8B instruction");
                }
                "CMPXCHG8B instruction"
            },
            CPUFeature::APIC => {
                proof {
                    reveal_strlit("Onboard APIC");
                }
                "Onboard APIC"
            },
            CPUFeature::SEP => {
                proof {
                    reveal_strlit("SYSENTER and SYSEXIT fast System Call instuctions");
                }
                "SYSENTER and SYSEXIT fast System Call instuctions"
            },
            CPUFeature::MTRR => {
                proof {
                    reveal_strlit("Memory Type Range Registers");
                }
                "Memory Type Range Registers"
            },
            CPUFeature::PGE => {
                proof {
                    reveal_strlit("Page Global Enable bit");
                }
                "Page Global Enable bit"
            },
            CPUFeature::MCA => {
                proof {
                    reveal_strlit("Machine Check Architecture");
                }
                "Machine Check Architecture"
            },
            CPUFeature::CMOV => {
                proof {
                    reveal_strlit("Conditional move instructions");
                }
                "Conditional move instructions"
            },
            CPUFeature::PAT => {
                proof {
                    reveal_strlit("Page Attribute Table");
                }
                "Page Attribute Table"
            },
            CPUFeature::PSE36 => {
                proof {
                    reveal_strlit("36-bit Page Size Extension");
                }
                "36-bit Page Size Extension"
            },
            CPUFeature::PSN => {
                proof {
                    reveal_strlit("Processor Serial Number enabled");
                }
                "Processor Serial Number enabled"
            },
            CPUFeature::CLFLUSH => {
                proof {
                    reveal_strlit("CLFLUSH cache line flush instruction");
                }
                "CLFLUSH cache line flush instruction"
            },
            CPUFeature::NX_Itanium => {
                proof {
                    reveal_strlit("Non-Executable Bit (Itanium only)");
                }
                "Non-Executable Bit (Itanium only)"
            },
            CPUFeature::DS => {
                proof {
                    reveal_strlit("Debug Store (Save trace of jumps)");
                }
                "Debug Store (Save trace of jumps)"
            },
            CPUFeature::ACPI => {
                proof {
                    reveal_strlit("Onboard Thermal Control MSRs for ACPI");
                }
                "Onboard Thermal Control MSRs for ACPI"
            },
            CPUFeature::MMX => {
                proof {
                    reveal_strlit("MMX instructions (64-bit SIMD)");
                }
                "MMX instructions (64-bit SIMD)"
            },
            CPUFeature::FXSR => {
                proof {
                    reveal_strlit("FXSAVE and FXRSTOR instructions");
                }
                "FXSAVE and FXRSTOR instructions"
            },
            CPUFeature::SSE => {
                proof {
                    reveal_strlit("Streaming SIMD Extensions (128-bit SIMD)");
                }
                "Streaming SIMD Extensions (128-bit SIMD)"
            },
            CPUFeature::SSE2 => {
                proof {
                    reveal_strlit("SSE2 instructions");
                }
                "SSE2 instructions"
            },
            CPUFeature::SS => {
                proof {
                    reveal_strlit("CPU Cache implements self-snoop");
                }
                "CPU Cache implements self-snoop"
            },
            CPUFeature::HTT => {
                proof {
                    reveal_strlit("Mac APIC IDs reserved field is valid");
                }
                "Mac APIC IDs reserved field is valid"
            },
            CPUFeature::TM => {
                proof {
                    reveal_strlit("Thermal Monitor automatically limits temperature");
                }
                "Thermal Monitor automatically limits temperature"
            },
            CPUFeature::IA64 => {
                proof {
                    reveal_strlit("IA64 Processor emulating x86");
                }
                "IA64 Processor emulating x86"
            },
            CPUFeature::PBE => {
                proof {
                    reveal_strlit("Pending Break Enable wakeup capacity");
                }
                "Pending Break Enable wakeup capacity"
            },
            CPUFeature::FSGSBase => {
                proof {
                    reveal_strlit("Access to base of %fs and %gs");
                }
                "Access to base of %fs and %gs"
            },
            CPUFeature::SGX => {
                proof {
                    reveal_strlit("Software Guard Extensions");
                }
                "Software Guard Extensions"
            },
            CPUFeature::BMI1 => {
                proof {
                    reveal_strlit("Bit Manipulation Instruction Set 1");
                }
                "Bit Manipulation Instruction Set 1"
            },
            CPUFeature::HLE => {
                proof {
                    reveal_strlit("TSX Hardware Lock Elision");
                }
                "TSX Hardware Lock Elision"
            },
            CPUFeature::AVX2 => {
                proof {
                    reveal_strlit("Advanced Vector Extensions 2 (AVX2)");
                }
                "Advanced Vector Extensions 2 (AVX2)"
            },
            CPUFeature::FDP_EXCPTN_ONLY => {
                proof {
                    reveal_strlit("x86 FPU Data Pointer register updated on exceptions only");
                }
                "x86 FPU Data Pointer register updated on exceptions only"
            },
            CPUFeature::SMEP => {
                proof {
                    reveal_strlit("Supervisor Mode Execution Prevention");
                }
                "Supervisor Mode Execution Prevention"
            },
            CPUFeature::BMI2 => {
                proof {
                    reveal_strlit("Bit Manipulation Instruction Set 2");
                }
                "Bit Manipulation Instruction Set 2"
            },
            CPUFeature::ERMS => {
                proof {
                    reveal_strlit("Enhanced REP MOVSB/STOSB");
                }
                "Enhanced REP MOVSB/STOSB"
            },
            CPUFeature::INVPCID => {
                proof {
                    reveal_strlit("INVPCID instruction");
                }
                "INVPCID instruction"
            },
            CPUFeature::RTM => {
                proof {
                    reveal_strlit("TSX Restricted Transactional Memory");
                }
                "TSX Restricted Transactional Memory"
            },
            CPUFeature::PQM => {
                proof {
                    reveal_strlit("Intel RDT Monitoring or AMD Platform QOS Monitoring");
                }
                "Intel RDT Monitoring or AMD Platform QOS Monitoring"
            },
            CPUFeature::MPX => {
                proof {
                    reveal_strlit("Intel Memory Protection Extensions");
                }
                "Intel Memory Protection Extensions"
            },
            CPUFeature::AVX512F => {
                proof {
                    reveal_strlit("AVX-512 Foundation");
                }
                "AVX-512 Foundation"
            },
            CPUFeature::AVX512DQ => {
                proof {
                    reveal_strlit("AVX-512 Doubleword and Quadword instructions");
                }
                "AVX-512 Doubleword and Quadword instructions"
            },
            CPUFeature::RDSEED => {
                proof {
                    reveal_strlit("RDSEED instruction");
                }
                "RDSEED instruction"
            },
            CPUFeature::ADX => {
                proof {
                    reveal_strlit("Intel Multi-Precision Add-Carry Instruction Extensions");
                }
                "Intel Multi-Precision Add-Carry Instruction Extensions"
            },
            CPUFeature::SMAP => {
                proof {
                    reveal_strlit("Supervisor Mode Access Prevention");
                }
                "Supervisor Mode Access Prevention"
            },
            CPUFeature::AVX512_IFMA => {
                proof {
                    reveal_strlit("AVS-512 Integer Fusd Multiply-Add Instructions");
                }
                "AVS-512 Integer Fusd Multiply-Add Instructions"
            },
            CPUFeature::PCOMMIT => {
                proof {
                    reveal_strlit("PCOMMIT intruction (deprecated)");
                }
                "PCOMMIT intruction (deprecated)"
            },
            CPUFeature::CFLUSHOPT => {
                proof {
                    reveal_strlit("CFLUSHOPT instruction");
                }
                "CFLUSHOPT instruction"
            },
            CPUFeature::CLWB => {
                proof {
                    reveal_strlit("CLWB (Cache Line Writeback) instruction");
                }
                "CLWB (Cache Line Writeback) instruction"
            },
            CPUFeature::PT => {
                proof {
                    reveal_strlit("Intel Processor Trace");
                }
                "Intel Processor Trace"
            },
            CPUFeature::AVX512PF => {
                proof {
                    reveal_strlit("AVX-512 Prefetch Instructions");
                }
                "AVX-512 Prefetch Instructions"
            },
            CPUFeature::AVX512ER => {
                proof {
                    reveal_strlit("AVX-512 Exponential and Reciprocal instructions");
                }
                "AVX-512 Exponential and Reciprocal instructions"
            },
            CPUFeature::AVX512CD => {
                proof {
                    reveal_strlit("AVX-512 Conflict Detection Instructions");
                }
                "AVX-512 Conflict Detection Instructions"
            },
            CPUFeature::SHA => {
                proof {
                    reveal_strlit("SHA-1 and SHA-256 Extensions");
                }
                "SHA-1 and SHA-256 Extensions"
            },
            CPUFeature::AVX512BW => {
                proof {
                    reveal_strlit("AVX-512 Byte and Word instructions");
                }
                "AVX-512 Byte and Word instructions"
            },
            CPUFeature::AVX512VI => {
                proof {
                    reveal_strlit("AVX-512 Vector Length Extensions");
                }
                "AVX-512 Vector Length Extensions"
            },
            CPUFeature::PreFetchWT1 => {
                proof {
                    reveal_strlit("PREFETCHWT1 instruction");
                }
                "PREFETCHWT1 instruction"
            },
            CPUFeature::AVX512VBMI => {
                proof {
                    reveal_strlit("AVX-512 Vector Bit Manipulation Instructions");
                }
                "AVX-512 Vector Bit Manipulation Instructions"
            },
            CPUFeature::UMIP => {
                proof {
                    reveal_strlit("User-Mode Instruction Prevention");
                }
                "User-Mode Instruction Prevention"
            },
            CPUFeature::PKU => {
                proof {
                    reveal_strlit("Memory Protection Keys for User-Mode Pages");
                }
                "Memory Protection Keys for User-Mode Pages"
            },
            CPUFeature::OSPKE => {
                proof {
                    reveal_strlit("PKU enabled by OS");
                }
                "PKU enabled by OS"
            },
            CPUFeature::WAITKG => {
                proof {
                    reveal_strlit("Timed pause and user-level monitor/wait instructions");
                }
                "Timed pause and user-level monitor/wait instructions"
            },
            CPUFeature::AVX512VBMI2 => {
                proof {
                    reveal_strlit("AVS-512 Vector Bit Manipulation Instructions 2");
                }
                "AVS-512 Vector Bit Manipulation Instructions 2"
            },
            CPUFeature::ShadowStack => {
                proof {
                    reveal_strlit("Intel Control-Flow Enforcement Technology/Shadow Stack");
                }
                "Intel Control-Flow Enforcement Technology/Shadow Stack"
            },
            CPUFeature::GFNI => {
                proof {
                    reveal_strlit("Galois Field Instructions");
                }
                "Galois Field Instructions"
            },
            CPUFeature::VAES => {
                proof {
                    reveal_strlit("Vector AES Instruction Set");
                }
                "Vector AES Instruction Set"
            },
            CPUFeature::VPCLMULQDQ => {
                proof {
                    reveal_strlit("CLMUL Instruction Set");
                }
                "CLMUL Instruction Set"
            },
            CPUFeature::AVX512VNNI => {
                proof {
                    reveal_strlit("AVX-512 Vector Neural Network Instructions");
                }
                "AVX-512 Vector Neural Network Instructions"
            },
            CPUFeature::AVX512BITALG => {
                proof {
                    reveal_strlit("AVX-512 BITALG Instructions");
                }
                "AVX-512 BITALG Instructions"
            },
            CPUFeature::TME => {
                proof {
                    reveal_strlit("Total Memory Encryption");
                }
                "Total Memory Encryption"
            },
            CPUFeature::AVX512VPOPCNTDQ => {
                proof {
                    reveal_strlit("AVX-512 Vector Population ount Dobule and Quad Word");
                }
                "AVX-512 Vector Population ount Dobule and Quad Word"
            },
            CPUFeature::LA57 => {
                proof {
                    reveal_strlit("5-Level Paging (57 Address Bits)");
                }
                "5-Level Paging (57 Address Bits)"
            },
            CPUFeature::RDPID => {
                proof {
                    reveal_strlit("RDPID (Read Processor ID) Instruction");
                }
                "RDPID (Read Processor ID) Instruction"
            },
            CPUFeature::KL => {
                proof {
                    reveal_strlit("AES Key Locker");
                }
                "AES Key Locker"
            },
            CPUFeature::BusLockDetect => {
                proof {
                    reveal_strlit("Bus Lock Debug Exceptions");
                }
                "Bus Lock Debug Exceptions"
            },
            CPUFeature::CIDEMOTE => {
                proof {
                    reveal_strlit("CLDEMOTE (Cache Line Demote) Instruction");
                }
                "CLDEMOTE (Cache Line Demote) Instruction"
            },
            CPUFeature::MOVDIRI => {
                proof {
                    reveal_strlit("MOVDIRI Instruction");
                }
                "MOVDIRI Instruction"
            },
            CPUFeature::MOBDIR64B => {
                proof {
                    reveal_strlit("MOBDIR64B (64-Byte Direct Store) Instruction");
                }
                "MOBDIR64B (64-Byte Direct Store) Instruction"
            },
            CPUFeature::ENQCMD => {
                proof {
                    reveal_strlit("Enqueue Stores and EMQCMD/EMCCMDS instructions");
                }
                "Enqueue Stores and EMQCMD/EMCCMDS instructions"
            },
            CPUFeature::SGXLC => {
                proof {
                    reveal_strlit("SGX Launch Confgiuration supported");
                }
                "SGX Launch Confgiuration supported"
            },
            CPUFeature::PKS => {
                proof {
                    reveal_strlit("Protection Keys for Supervisor_mode Pages");
                }
                "Protection Keys for Supervisor_mode Pages"
            },
            CPUFeature::SGXKeys => {
                proof {
                    reveal_strlit("Attestation Services for Intel Software Guard Extensions");
                }
                "Attestation Services for Intel Software Guard Extensions"
            },
            CPUFeature::AVX512_4VNNIW => {
                proof {
                    reveal_strlit("AVX-512 4-Register Neural Network Instructions");
                }
                "AVX-512 4-Register Neural Network Instructions"
            },
            CPUFeature::AVX512_4FMAPS => {
                proof {
                    reveal_strlit("AVX-512 4-Register Multiply Accumolation Single Precision");
                }
                "AVX-512 4-Register Multiply Accumolation Single Precision"
            },
            CPUFeature::FSRM => {
                proof {
                    reveal_strlit("Fast Short REP MOVSB");
                }
                "Fast Short REP MOVSB"
            },
            CPUFeature::UINTR => {
                proof {
                    reveal_strlit("User Inter-Processor Interrupts");
                }
                "User Inter-Processor Interrupts"
            },
            CPUFeature::AVX512VP2INTERSECT => {
                proof {
                    reveal_strlit("AVX-512 Vector Insertion Instruction on 32/64-Bit Integers");
                }
                "AVX-512 Vector Insertion Instruction on 32/64-Bit Integers"
            },
            CPUFeature::SRDBS_CTRL => {
                proof {
                    reveal_strlit("Special Register Buffer Data Sampling Mitigations");
                }
                "Special Register Buffer Data Sampling Mitigations"
            },
            CPUFeature::MCClear => {
                proof {
                    reveal_strlit("VERW Instruction clears CPU buffers");
                }
                "VERW Instruction clears CPU buffers"
            },
            CPUFeature::RTMAlwaysAbort => {
                proof {
                    reveal_strlit("All TSX transactions are aborted");
                }
                "All TSX transactions are aborted"
            },
            CPUFeature::TSXForceAbort => {
                proof {
                    reveal_strlit("TSX Force Abort");
                }
                "TSX Force Abort"
            },
            CPUFeature::SERIALIZE => {
                proof {
                    reveal_strlit("SERIALIZE instruction");
                }
                "SERIALIZE instruction"
            },
            CPUFeature::HYBRID => {
                proof {
                    reveal_strlit("Mixture of CPU types in Processor Topology");
                }
                "Mixture of CPU types in Processor Topology"
            },
            CPUFeature::TSXLDTRK => {
                proof {
                    reveal_strlit("TSX load address tracking suspend/resume instructions");
                }
                "TSX load address tracking suspend/resume instructions"
            },
            CPUFeature::PCONFIG => {
                proof {
                    reveal_strlit("Platform Configuration (Memory Encryption Technologies Instruction)");
                }
                "Platform Configuration (Memory Encryption Technologies Instruction)"
            },
            CPUFeature::IBR => {
                proof {
                    reveal_strlit("Architectural Last Branch Records");
                }
                "Architectural Last Branch Records"
            },
            CPUFeature::CET_IBT => {
                proof {
                    reveal_strlit("Control Flow Enforcement (CET) Indirect Branch Tracking");
                }
                "Control Flow Enforcement (CET) Indirect Branch Tracking"
            },
            CPUFeature::AMXBF16 => {
                proof {
                    reveal_strlit("AMX Tile Computation on bfloat16 Numbers");
                }
                "AMX Tile Computation on bfloat16 Numbers"
            },
            CPUFeature::AVS512FP16 => {
                proof {
                    reveal_strlit("AVX-512 Half-Precision Floating-Point Arithmetic Instructions");
                }
                "AVX-512 Half-Precision Floating-Point Arithmetic Instructions"
            },
            CPUFeature::AMXTile => {
                proof {
                    reveal_strlit("AMX Tile Load/Store Instructions");
                }
                "AMX Tile Load/Store Instructions"
            },
            CPUFeature::AMXInt8 => {
                proof {
                    reveal_strlit("AMD Tile Computation on 8-bit Integers");
                }
                "AMD Tile Computation on 8-bit Integers"
            },
            CPUFeature::SpecControl => {
                proof {
                    reveal_strlit("Indirect Branch Restricted Speculation and Indirect Branch Prediction Barrier");
                }
                "Indirect Branch Restricted Speculation and Indirect Branch Prediction Barrier"
            },
            CPUFeature::STIBP => {
                proof {
                    reveal_strlit("Single Thread Indirect Branch Predictor");
                }
                "Single Thread Indirect Branch Predictor"
            },
            CPUFeature::L1DFlush => {
                proof {
                    reveal_strlit("IA32 Flush Command MSR");
                }
                "IA32 Flush Command MSR"
            },
            CPUFeature::SSBD => {
                proof {
                    reveal_strlit("Speculative Store Bypass Disable");
                }
                "Speculative Store Bypass Disable"
            },
            CPUFeature::SHA512Extensions => {
                proof {
                    reveal_strlit("SHA-512 Extensions");
                }
                "SHA-512 Extensions"
            },
            CPUFeature::SM3 => {
                proof {
                    reveal_strlit("SM3 Hash Extensions");
                }
                "SM3 Hash Extensions"
            },
            CPUFeature::SM4 => {
                proof {
                    reveal_strlit("SM4 Cipher Extensions");
                }
                "SM4 Cipher Extensions"
            },
            CPUFeature::RAO_INT => {
                proof {
                    reveal_strlit("Remote Atomic Operations on Integers");
                }
                "Remote Atomic Operations on Integers"
            },
            CPUFeature::AVX_VNNI => {
                proof {
                    reveal_strlit("AVX Vector Neural Network Instrutions");
                }
                "AVX Vector Neural Network Instrutions"
            },
            CPUFeature::AVX512BF16 => {
                proof {
                    reveal_strlit("AVX-512 Instructions for bfloat16 numbers");
                }
                "AVX-512 Instructions for bfloat16 numbers"
            },
            CPUFeature::LASS => {
                proof {
                    reveal_strlit("Linear Address Space Separation");
                }
                "Linear Address Space Separation"
            },
            CPUFeature::CMPCCXADD => {
                proof {
                    reveal_strlit("CMPccXADD instruction");
                }
                "CMPccXADD instruction"
            },
            CPUFeature::ARCHPerfMonExt => {
                proof {
                    reveal_strlit("Architectural Performance Monitoring Extended Leaf");
                }
                "Architectural Performance Monitoring Extended Leaf"
            },
            CPUFeature::FastZeroRepMOVSB => {
                proof {
                    reveal_strlit("Fast zero-length REP MOVSB");
                }
                "Fast zero-length REP MOVSB"
            },
            CPUFeature::FastShortRepSTOSB => {
                proof {
                    reveal_strlit("Fast short REP STOSB");
                }
                "Fast short REP STOSB"
            },
            CPUFeature::FastShortRepCMPSB => {
                proof {
                    reveal_strlit("Fast short REP CMBSP and REP SCASB");
                }
                "Fast short REP CMBSP and REP SCASB"
            },
            CPUFeature::FRED => {
                proof {
                    reveal_strlit("Flexible Return and Event Delivery");
                }
                "Flexible Return and Event Delivery"
            },
            CPUFeature::LKGS => {
                proof {
                    reveal_strlit("LKGS Instruction");
                }
                "LKGS Instruction"
            },
            CPUFeature::WRMSRNS => {
                proof {
                    reveal_strlit("WRMSNS Instruction");
                }
                "WRMSNS Instruction"
            },
            CPUFeature::AMXFP16 => {
                proof {
                    reveal_strlit("AMX Instructions for FP16 Numbers");
                }
                "AMX Instructions for FP16 Numbers"
            },
            CPUFeature::HReset => {
                proof {
                    reveal_strlit("HRESET instruction MSR and Processor History Reset Leaf");
                }
                "HRESET instruction MSR and Processor History Reset Leaf"
            },
            CPUFeature::LAM => {
                proof {
                    reveal_strlit("Linear Address Masking");
                }
                "Linear Address Masking"
            },
            CPUFeature::MSRList => {
                proof {
                    reveal_strlit("RDMSRLIKST and WRMSRLIST instructions");
                }
                "RDMSRLIKST and WRMSRLIST instructions"
            },
            CPUFeature::PPIN => {
                proof {
                    reveal_strlit("Intel Protected Processor Inventory Number: IA32_PPIN_CTL MSR");
                }
                "Intel Protected Processor Inventory Number: IA32_PPIN_CTL MSR"
            },
            CPUFeature::PKNDKB => {
                proof {
                    reveal_strlit("Total Storage Encryption (PBNDKB instruction)");
                }
                "Total Storage Encryption (PBNDKB instruction)"
            },
            CPUFeature::AVX_VNNI_INT8 => {
                proof {
                    reveal_strlit("AVX VNNI Int8 Instructions");
                }
                "AVX VNNI Int8 Instructions"
            },
            CPUFeature::AVX_NE_CONVERT => {
                proof {
                    reveal_strlit("AVX No-Exception FS Conversion Instructions");
                }
                "AVX No-Exception FS Conversion Instructions"
            },
            CPUFeature::AMXComplex => {
                proof {
                    reveal_strlit("AMX Support for complex Tiles");
                }
                "AMX Support for complex Tiles"
            },
            CPUFeature::AVX_VNNI_INT16 => {
                proof {
                    reveal_strlit("AVX VNNI Int16 Instructions");
                }
                "AVX VNNI Int16 Instructions"
            },
            CPUFeature::PREFETCHI => {
                proof {
                    reveal_strlit("Instruction-Cache prefetch Instructions");
                }
                "Instruction-Cache prefetch Instructions"
            },
            CPUFeature::UserMSR => {
                proof {
                    reveal_strlit("User-Mode MSR Access Instructions");
                }
                "User-Mode MSR Access Instructions"
            },
            CPUFeature::UIRetUIFFromRFlags => {
                proof {
                    reveal_strlit("UIRET Instruction set User Interrupt Flags to 1");
                }
                "UIRET Instruction set User Interrupt Flags to 1"
            },
            CPUFeature::CET_SSS => {
                proof {
                    reveal_strlit("Control-Flow Enforcement Supervisor Shadow Stack can't be prematurely busy");
                }
                "Control-Flow Enforcement Supervisor Shadow Stack can't be prematurely busy"
            },
            CPUFeature::AVX10 => {
                proof {
                    reveal_strlit("AVX10 Converged Vector ISA");
                }
                "AVX10 Converged Vector ISA"
            },
            CPUFeature::APX_F => {
                proof {
                    reveal_strlit("Advanced Performance Extensions Foundation");
                }
                "Advanced Performance Extensions Foundation"
            },
            CPUFeature::PFSD => {
                proof {
                    reveal_strlit("Fast Store Forwarding Predictor Disable supported");
                }
                "Fast Store Forwarding Predictor Disable supported"
            },
            CPUFeature::IPREDDIS => {
                proof {
                    reveal_strlit("IPPRED_DIS controls supported");
                }
                "IPPRED_DIS controls supported"
            },
            CPUFeature::RRSBACtrl => {
                proof {
                    reveal_strlit("RRSBA behavior disable supported");
                }
                "RRSBA behavior disable supported"
            },
            CPUFeature::DPPDU => {
                proof {
                    reveal_strlit("Data Dependent Prefetcher Disable supported");
                }
                "Data Dependent Prefetcher Disable supported"
            },
            CPUFeature::BHICtrl => {
                proof {
                    reveal_strlit("BHI_DIS_S behavior enable supported");
                }
                "BHI_DIS_S behavior enable supported"
            },
            CPUFeature::MCDT_NO => {
                proof {
                    reveal_strlit("Processor does not exhibit MXCSR configuration dependent timing");
                }
                "Processor does not exhibit MXCSR configuration dependent timing"
            },
            CPUFeature::Syscall => {
                proof {
                    reveal_strlit("Syscall and Sysret Instructions");
                }
                "Syscall and Sysret Instructions"
            },
            CPUFeature::NX => {
                proof {
                    reveal_strlit("Non-Executable Bit");
                }
                "Non-Executable Bit"
            },
            CPUFeature::FXSROpt => {
                proof {
                    reveal_strlit("FXSAVE/FXRSTOR optimization");
                }
                "FXSAVE/FXRSTOR optimization"
            },
            CPUFeature::GigabytePages => {
                proof {
                    reveal_strlit("1 Gigabyte Pages");
                }
                "1 Gigabyte Pages"
            },
            CPUFeature::RDTSCP => {
                proof {
                    reveal_strlit("RDTSCP instruction");
                }
                "RDTSCP instruction"
            },
            CPUFeature::LongMode => {
                proof {
                    reveal_strlit("Long Mode");
                }
                "Long Mode"
            },
            CPUFeature::Ext3dNow => {
                proof {
                    reveal_strlit("Extended 3DNow!");
                }
                "Extended 3DNow!"
            },
            CPUFeature::F3DNow => {
                proof {
                    reveal_strlit("3DNow!");
                }
                "3DNow!"
            },
            CPUFeature::LAHF_LM => {
                proof {
                    reveal_strlit("LAHF/SAHF in Long Mode");
                }
                "LAHF/SAHF in Long Mode"
            },
            CPUFeature::CmpLegacy => {
                proof {
                    reveal_strlit("Hyperthreading is not valid");
                }
                "Hyperthreading is not valid"
            },
            CPUFeature::SecureVM => {
                proof {
                    reveal_strlit("Secure Virtual Machine");
                }
                "Secure Virtual Machine"
            },
            CPUFeature::ExtendedAPIC => {
                proof {
                    reveal_strlit("Extended APIC Space");
                }
                "Extended APIC Space"
            },
            CPUFeature::CR8Legacy => {
                proof {
                    reveal_strlit("CR8 in 32-bit mode");
                }
                "CR8 in 32-bit mode"
            },
            CPUFeature::ABM => {
                proof {
                    reveal_strlit("Advanced Bit Manipulation");
                }
                "Advanced Bit Manipulation"
            },
            CPUFeature::SSE4a => {
                proof {
                    reveal_strlit("SSE4a");
                }
                "SSE4a"
            },
            CPUFeature::MisalignedSSE => {
                proof {
                    reveal_strlit("Misaligned SSE Mode");
                }
                "Misaligned SSE Mode"
            },
            CPUFeature::Prefetch3DNow => {
                proof {
                    reveal_strlit("PREFETCH and PREFETCHW instructions");
                }
                "PREFETCH and PREFETCHW instructions"
            },
            CPUFeature::OSVW => {
                proof {
                    reveal_strlit("OS Visible Workaround");
                }
                "OS Visible Workaround"
            },
            CPUFeature::IBS => {
                proof {
                    reveal_strlit("Instruction-based Sampling");
                }
                "Instruction-based Sampling"
            },
            CPUFeature::XOP => {
                proof {
                    reveal_strlit("XOP Instruction Set");
                }
                "XOP Instruction Set"
            },
            CPUFeature::SKINIT => {
                proof {
                    reveal_strlit("SKINIT/STGI Instructions");
                }
                "SKINIT/STGI Instructions"
            },
            CPUFeature::WatchdogTimer => {
                proof {
                    reveal_strlit("Watchdog Timer");
                }
                "Watchdog Timer"
            },
            CPUFeature::LWP => {
                proof {
                    reveal_strlit("Lightweight Profiling");
                }
                "Lightweight Profiling"
            },
            CPUFeature::FMA4 => {
                proof {
                    reveal_strlit("4-Operand Fused Multiply-Add Instructions");
                }
                "4-Operand Fused Multiply-Add Instructions"
            },
            CPUFeature::TCE => {
                proof {
                    reveal_strlit("Translation Cache Extension");
                }
                "Translation Cache Extension"
            },
            CPUFeature::NodeIdMSR => {
                proof {
                    reveal_strlit("NodID MSR");
                }
                "NodID MSR"
            },
            CPUFeature::TBM => {
                proof {
                    reveal_strlit("Trailing Bit Manipulation");
                }
                "Trailing Bit Manipulation"
            },
            CPUFeature::TopoExt => {
                proof {
                    reveal_strlit("Topology Extensions");
                }
                "Topology Extensions"
            },
            CPUFeature::PrefCtrCoe => {
                proof {
                    reveal_strlit("Core Performance Counter Extensions");
                }
                "Core Performance Counter Extensions"
            },
            CPUFeature::PrefCtrNb => {
                proof {
                    reveal_strlit("Northbridge Performance Counter Extensions");
                }
                "Northbridge Performance Counter Extensions"
            },
            CPUFeature::StreamPerfMon => {
                proof {
                    reveal_strlit("Streaming Performance Monitor Architecture");
                }
                "Streaming Performance Monitor Architecture"
            },
            CPUFeature::DBX => {
                proof {
                    reveal_strlit("Data Breakpoint Extensions");
                }
                "Data Breakpoint Extensions"
            },
            CPUFeature::PerfTSC => {
                proof {
                    reveal_strlit("Performance Timestamp Cointer (PTSC)");
                }
                "Performance Timestamp Cointer (PTSC)"
            },
            CPUFeature::PCXL2I => {
                proof {
                    reveal_strlit("L2I Perf Counter Extensions");
                }
                "L2I Perf Counter Extensions"
            },
            CPUFeature::MonitorX => {
                proof {
                    reveal_strlit("MONITORX and MWAITX instructions");
                }
                "MONITORX and MWAITX instructions"
            },
            CPUFeature::AddrMaskExt => {
                proof {
                    reveal_strlit("Address Mask Extensions to 32 bits for Instruction Breakpoints");
                }
                "Address Mask Extensions to 32 bits for Instruction Breakpoints"
            },
        }
    }


    /// Every declared feature, in declaration order, independent of any
    /// hardware state.
    pub fn all_features() -> (r: Vec<CPUFeature>)
        ensures
            r@ == CPUFeature::spec_catalog(),
    {
        let mut features: Vec<CPUFeature> = Vec::new();
        let mut i: usize = 0;
        while i < FEATURE_COUNT
            invariant
                i <= FEATURE_COUNT,
                features@.len() == i,
                forall|j: int| 0 <= j < i ==> features@[j] == CPUFeature::spec_catalog_at(j),
            decreases FEATURE_COUNT - i,
        {
            features.push(CPUFeature::catalog_at(i));
            i = i + 1;
        }
        proof {
            assert(features@ =~= CPUFeature::spec_catalog());
        }
        features
    }

    /// Appends to `features` every catalog entry that the given response
    /// reports as active under the given request, in declaration order.
    /// A feature is active only when its request matches and every bit of
    /// its mask is set in its output field.
    pub fn enabled_features_by(
        request: CPUIDRequest,
        response: CPUIDResponse,
        features: &mut Vec<CPUFeature>,
    )
        ensures
            final(features)@ == old(features)@ + spec_active_features(request, response),
    {
        let mut i: usize = 0;
        while i < FEATURE_COUNT
            invariant
                i <= FEATURE_COUNT,
                features@ == old(features)@ + spec_active_features_prefix(
                    request,
                    response,
                    i as int,
                ),
            decreases FEATURE_COUNT - i,
        {
            let f = CPUFeature::catalog_at(i);
            let fi = CPUFeature::info_at(i);
            if fi.request == request && (response.register(fi.register) & fi.mask) == fi.mask {
                features.push(f);
            }
            proof {
                assert(features@ == old(features)@ + spec_active_features_prefix(
                    request,
                    response,
                    i + 1,
                )) by {
                    assert((old(features)@ + spec_active_features_prefix(request, response, i as int)).push(
                        CPUFeature::spec_catalog_at(i as int),
                    ) =~= old(features)@ + spec_active_features_prefix(request, response, i as int).push(
                        CPUFeature::spec_catalog_at(i as int),
                    ));
                }
            }
            i = i + 1;
        }
    }

    /// The active features of a processor whose five query responses are
    /// given: each request's matches in declaration order, requests in
    /// their canonical order.
    pub fn enabled_features_from(
        features: CPUIDResponse,
        extended1: CPUIDResponse,
        extended2: CPUIDResponse,
        extended3: CPUIDResponse,
        extended4: CPUIDResponse,
    ) -> (r: Vec<CPUFeature>)
        ensures
            r@ == spec_active_features(CPUIDRequest::Features, features) + spec_active_features(
                CPUIDRequest::ExtendedFeatures1,
                extended1,
            ) + spec_active_features(CPUIDRequest::ExtendedFeatures2, extended2)
                + spec_active_features(CPUIDRequest::ExtendedFeatures3, extended3)
                + spec_active_features(CPUIDRequest::ExtendedFeatures4, extended4),
    {
        let mut enabled: Vec<CPUFeature> = Vec::new();
        CPUFeature::enabled_features_by(CPUIDRequest::Features, features, &mut enabled);
        CPUFeature::enabled_features_by(CPUIDRequest::ExtendedFeatures1, extended1, &mut enabled);
        CPUFeature::enabled_features_by(CPUIDRequest::ExtendedFeatures2, extended2, &mut enabled);
        CPUFeature::enabled_features_by(CPUIDRequest::ExtendedFeatures3, extended3, &mut enabled);
        CPUFeature::enabled_features_by(CPUIDRequest::ExtendedFeatures4, extended4, &mut enabled);
        proof {
            assert(Seq::<CPUFeature>::empty() + spec_active_features(CPUIDRequest::Features, features)
                =~= spec_active_features(CPUIDRequest::Features, features));
        }
        enabled
    }
}

/// The catalog rows reported under the Features query, as ground facts
/// about [`CPUFeature::spec_info`].
pub proof fn lemma_spec_info_features()
    ensures
        CPUFeature::SSE3.spec_info() == (FeatureInfo {
            register: OutputRegister::ECX,
            request: CPUIDRequest::Features,
            mask: 1u32 << 0,
        }),
        CPUFeature::PCLMUL.spec_info() == (FeatureInfo {
            register: OutputRegister::ECX,
            request: CPUIDRequest::Features,
            mask: 1u32 << 1,
        }),
        CPUFeature::DTES64.spec_info() == (FeatureInfo {
            register: OutputRegister::ECX,
            request: CPUIDRequest::Features,
            mask: 1u32 << 2,
        }),
        CPUFeature::MONITOR.spec_info() == (FeatureInfo {
            register: OutputRegister::ECX,
            request: CPUIDRequest::Features,
            mask: 1u32 << 3,
        }),
        CPUFeature::DS_CPL.spec_info() == (FeatureInfo {
            register: OutputRegister::ECX,
            request: CPUIDRequest::Features,
            mask: 1u32 << 4,
        }),
        CPUFeature::VMX.spec_info() == (FeatureInfo {
            register: OutputRegister::ECX,
            request: CPUIDRequest::Features,
            mask: 1u32 << 5,
        }),
        CPUFeature::SMX.spec_info() == (FeatureInfo {
            register: OutputRegister::ECX,
            request: CPUIDRequest::Features,
            mask: 1u32 << 6,
        }),
        CPUFeature::EST.spec_info() == (FeatureInfo {
            register: OutputRegister::ECX,
            request: CPUIDRequest::Features,
            mask: 1u32 << 7,
        }),
        CPUFeature::TM2.spec_info() == (FeatureInfo {
            register: OutputRegister::ECX,
            request: CPUIDRequest::Features,
            mask: 1u32 << 8,
        }),
        CPUFeature::SSSE3.spec_info() == (FeatureInfo {
            register: OutputRegister::ECX,
            request: CPUIDRequest::Features,
            mask: 1u32 << 9,
        }),
        CPUFeature::CID.spec_info() == (FeatureInfo {
            register: OutputRegister::ECX,
            request: CPUIDRequest::Features,
            mask: 1u32 << 10,
        }),
        CPUFeature::SDBG.spec_info() == (FeatureInfo {
            register: OutputRegister::ECX,
            request: CPUIDRequest::Features,
            mask: 1u32 << 11,
        }),
        CPUFeature::FMA.spec_info() == (FeatureInfo {
            register: OutputRegister::ECX,
            request: CPUIDRequest::Features,
            mask: 1u32 << 12,
        }),
        CPUFeature::CX16.spec_info() == (FeatureInfo {
            register: OutputRegister::ECX,
            request: CPUIDRequest::Features,
            mask: 1u32 << 13,
        }),
        CPUFeature::XTPR.spec_info() == (FeatureInfo {
            register: OutputRegister::ECX,
            request: CPUIDRequest::Features,
            mask: 1u32 << 14,
        }),
        CPUFeature::PDCM.spec_info() == (FeatureInfo {
            register: OutputRegister::ECX,
            request: CPUIDRequest::Features,
            mask: 1u32 << 15,
        }),
        CPUFeature::PCID.spec_info() == (FeatureInfo {
            register: OutputRegister::ECX,
            request: CPUIDRequest::Features,
            mask: 1u32 << 17,
        }),
        CPUFeature::DCA.spec_info() == (FeatureInfo {
            register: OutputRegister::ECX,
            request: CPUIDRequest::Features,
            mask: 1u32 << 18,
        }),
        CPUFeature::SSE4_1.spec_info() == (FeatureInfo {
            register: OutputRegister::ECX,
            request: CPUIDRequest::Features,
            mask: 1u32 << 19,
        }),
        CPUFeature::SSE4_2.spec_info() == (FeatureInfo {
            register: OutputRegister::ECX,
            request: CPUIDRequest::Features,
            mask: 1u32 << 20,
        }),
        CPUFeature::X2APIC.spec_info() == (FeatureInfo {
            register: OutputRegister::ECX,
            request: CPUIDRequest::Features,
            mask: 1u32 << 21,
        }),
        CPUFeature::MOVBE.spec_info() == (FeatureInfo {
            register: OutputRegister::ECX,
            request: CPUIDRequest::Features,
            mask: 1u32 << 22,
        }),
        CPUFeature::POPCNT.spec_info() == (FeatureInfo {
            register: OutputRegister::ECX,
            request: CPUIDRequest::Features,
            mask: 1u32 << 23,
        }),
        CPUFeature::TSCDeadline.spec_info() == (FeatureInfo {
            register: OutputRegister::ECX,
            request: CPUIDRequest::Features,
            mask: 1u32 << 24,
        }),
        CPUFeature::AES.spec_info() == (FeatureInfo {
            register: OutputRegister::ECX,
            request: CPUIDRequest::Features,
            mask: 1u32 << 25,
        }),
        CPUFeature::XSAVE.spec_info() == (FeatureInfo {
            register: OutputRegister::ECX,
            request: CPUIDRequest::Features,
            mask: 1u32 << 26,
        }),
        CPUFeature::OSXSAVE.spec_info() == (FeatureInfo {
            register: OutputRegister::ECX,
            request: CPUIDRequest::Features,
            mask: 1u32 << 27,
        }),
        CPUFeature::AVX.spec_info() == (FeatureInfo {
            register: OutputRegister::ECX,
            request: CPUIDRequest::Features,
            mask: 1u32 << 28,
        }),
        CPUFeature::F16C.spec_info() == (FeatureInfo {
            register: OutputRegister::ECX,
            request: CPUIDRequest::Features,
            mask: 1u32 << 29,
        }),
        CPUFeature::RDRAND.spec_info() == (FeatureInfo {
            register: OutputRegister::ECX,
            request: CPUIDRequest::Features,
            mask: 1u32 << 30,
        }),
        CPUFeature::HYPERVISOR.spec_info() == (FeatureInfo {
            register: OutputRegister::ECX,
            request: CPUIDRequest::Features,
            mask: 1u32 << 31,
        }),
        CPUFeature::FPU.spec_info() == (FeatureInfo {
            register: OutputRegister::EDX,
            request: CPUIDRequest::Features,
            mask: 1u32 << 0,
        }),
        CPUFeature::VME.spec_info() == (FeatureInfo {
            register: OutputRegister::EDX,
            request: CPUIDRequest::Features,
            mask: 1u32 << 1,
        }),
        CPUFeature::DE.spec_info() == (FeatureInfo {
            register: OutputRegister::EDX,
            request: CPUIDRequest::Features,
            mask: 1u32 << 2,
        }),
        CPUFeature::PSE.spec_info() == (FeatureInfo {
            register: OutputRegister::EDX,
            request: CPUIDRequest::Features,
            mask: 1u32 << 3,
        }),
        CPUFeature::TSC.spec_info() == (FeatureInfo {
            register: OutputRegister::EDX,
            request: CPUIDRequest::Features,
            mask: 1u32 << 4,
        }),
        CPUFeature::MSR.spec_info() == (FeatureInfo {
            register: OutputRegister::EDX,
            request: CPUIDRequest::Features,
            mask: 1u32 << 5,
        }),
        CPUFeature::PAE.spec_info() == (FeatureInfo {
            register: OutputRegister::EDX,
            request: CPUIDRequest::Features,
            mask: 1u32 << 6,
        }),
        CPUFeature::MCE.spec_info() == (FeatureInfo {
            register: OutputRegister::EDX,
            request: CPUIDRequest::Features,
            mask: 1u32 << 7,
        }),
        CPUFeature::CX8.spec_info() == (FeatureInfo {
            register: OutputRegister::EDX,
            request: CPUIDRequest::Features,
            mask: 1u32 << 8,
        }),
        CPUFeature::APIC.spec_info() == (FeatureInfo {
            register: OutputRegister::EDX,
            request: CPUIDRequest::Features,
            mask: 1u32 << 9,
        }),
        CPUFeature::SEP.spec_info() == (FeatureInfo {
            register: OutputRegister::EDX,
            request: CPUIDRequest::Features,
            mask: 1u32 << 11,
        }),
        CPUFeature::MTRR.spec_info() == (FeatureInfo {
            register: OutputRegister::EDX,
            request: CPUIDRequest::Features,
            mask: 1u32 << 12,
        }),
        CPUFeature::PGE.spec_info() == (FeatureInfo {
            register: OutputRegister::EDX,
            request: CPUIDRequest::Features,
            mask: 1u32 << 13,
        }),
        CPUFeature::MCA.spec_info() == (FeatureInfo {
            register: OutputRegister::EDX,
            request: CPUIDRequest::Features,
            mask: 1u32 << 14,
        }),
        CPUFeature::CMOV.spec_info() == (FeatureInfo {
            register: OutputRegister::EDX,
            request: CPUIDRequest::Features,
            mask: 1u32 << 15,
        }),
        CPUFeature::PAT.spec_info() == (FeatureInfo {
            register: OutputRegister::EDX,
            request: CPUIDRequest::Features,
            mask: 1u32 << 16,
        }),
        CPUFeature::PSE36.spec_info() == (FeatureInfo {
            register: OutputRegister::EDX,
            request: CPUIDRequest::Features,
            mask: 1u32 << 17,
        }),
        CPUFeature::PSN.spec_info() == (FeatureInfo {
            register: OutputRegister::EDX,
            request: CPUIDRequest::Features,
            mask: 1u32 << 18,
        }),
        CPUFeature::CLFLUSH.spec_info() == (FeatureInfo {
            register: OutputRegister::EDX,
            request: CPUIDRequest::Features,
            mask: 1u32 << 19,
        }),
        CPUFeature::NX_Itanium.spec_info() == (FeatureInfo {
            register: OutputRegister::EDX,
            request: CPUIDRequest::Features,
            mask: 1u32 << 20,
        }),
        CPUFeature::DS.spec_info() == (FeatureInfo {
            register: OutputRegister::EDX,
            request: CPUIDRequest::Features,
            mask: 1u32 << 21,
        }),
        CPUFeature::ACPI.spec_info() == (FeatureInfo {
            register: OutputRegister::EDX,
            request: CPUIDRequest::Features,
            mask: 1u32 << 22,
        }),
        CPUFeature::MMX.spec_info() == (FeatureInfo {
            register: OutputRegister::EDX,
            request: CPUIDRequest::Features,
            mask: 1u32 << 23,
        }),
        CPUFeature::FXSR.spec_info() == (FeatureInfo {
            register: OutputRegister::EDX,
            request: CPUIDRequest::Features,
            mask: 1u32 << 24,
        }),
        CPUFeature::SSE.spec_info() == (FeatureInfo {
            register: OutputRegister::EDX,
            request: CPUIDRequest::Features,
            mask: 1u32 << 25,
        }),
        CPUFeature::SSE2.spec_info() == (FeatureInfo {
            register: OutputRegister::EDX,
            request: CPUIDRequest::Features,
            mask: 1u32 << 26,
        }),
        CPUFeature::SS.spec_info() == (FeatureInfo {
            register: OutputRegister::EDX,
            request: CPUIDRequest::Features,
            mask: 1u32 << 27,
        }),
        CPUFeature::HTT.spec_info() == (FeatureInfo {
            register: OutputRegister::EDX,
            request: CPUIDRequest::Features,
            mask: 1u32 << 28,
        }),
        CPUFeature::TM.spec_info() == (FeatureInfo {
            register: OutputRegister::EDX,
            request: CPUIDRequest::Features,
            mask: 1u32 << 29,
        }),
        CPUFeature::IA64.spec_info() == (FeatureInfo {
            register: OutputRegister::EDX,
            request: CPUIDRequest::Features,
            mask: 1u32 << 30,
        }),
        CPUFeature::PBE.spec_info() == (FeatureInfo {
            register: OutputRegister::EDX,
            request: CPUIDRequest::Features,
            mask: 1u32 << 31,
        }),
{
    reveal(CPUFeature::spec_info);
}

/// The catalog rows reported under the ExtendedFeatures1 query, as ground facts
/// about [`CPUFeature::spec_info`].
pub proof fn lemma_spec_info_extended1()
    ensures
        CPUFeature::FSGSBase.spec_info() == (FeatureInfo {
            register: OutputRegister::EBX,
            request: CPUIDRequest::ExtendedFeatures1,
            mask: 1u32 << 0,
        }),
        CPUFeature::SGX.spec_info() == (FeatureInfo {
            register: OutputRegister::EBX,
            request: CPUIDRequest::ExtendedFeatures1,
            mask: 1u32 << 2,
        }),
        CPUFeature::BMI1.spec_info() == (FeatureInfo {
            register: OutputRegister::EBX,
            request: CPUIDRequest::ExtendedFeatures1,
            mask: 1u32 << 3,
        }),
        CPUFeature::HLE.spec_info() == (FeatureInfo {
            register: OutputRegister::EBX,
            request: CPUIDRequest::ExtendedFeatures1,
            mask: 1u32 << 4,
        }),
        CPUFeature::AVX2.spec_info() == (FeatureInfo {
            register: OutputRegister::EBX,
            request: CPUIDRequest::ExtendedFeatures1,
            mask: 1u32 << 5,
        }),
        CPUFeature::FDP_EXCPTN_ONLY.spec_info() == (FeatureInfo {
            register: OutputRegister::EBX,
            request: CPUIDRequest::ExtendedFeatures1,
            mask: 1u32 << 6,
        }),
        CPUFeature::SMEP.spec_info() == (FeatureInfo {
            register: OutputRegister::EBX,
            request: CPUIDRequest::ExtendedFeatures1,
            mask: 1u32 << 7,
        }),
        CPUFeature::BMI2.spec_info() == (FeatureInfo {
            register: OutputRegister::EBX,
            request: CPUIDRequest::ExtendedFeatures1,
            mask: 1u32 << 8,
        }),
        CPUFeature::ERMS.spec_info() == (FeatureInfo {
            register: OutputRegister::EBX,
            request: CPUIDRequest::ExtendedFeatures1,
            mask: 1u32 << 9,
        }),
        CPUFeature::INVPCID.spec_info() == (FeatureInfo {
            register: OutputRegister::EBX,
            request: CPUIDRequest::ExtendedFeatures1,
            mask: 1u32 << 10,
        }),
        CPUFeature::RTM.spec_info() == (FeatureInfo {
            register: OutputRegister::EBX,
            request: CPUIDRequest::ExtendedFeatures1,
            mask: 1u32 << 11,
        }),
        CPUFeature::PQM.spec_info() == (FeatureInfo {
            register: OutputRegister::EBX,
            request: CPUIDRequest::ExtendedFeatures1,
            mask: 1u32 << 12,
        }),
        CPUFeature::MPX.spec_info() == (FeatureInfo {
            register: OutputRegister::EBX,
            request: CPUIDRequest::ExtendedFeatures1,
            mask: 1u32 << 14,
        }),
        CPUFeature::AVX512F.spec_info() == (FeatureInfo {
            register: OutputRegister::EBX,
            request: CPUIDRequest::ExtendedFeatures1,
            mask: 1u32 << 16,
        }),
        CPUFeature::AVX512DQ.spec_info() == (FeatureInfo {
            register: OutputRegister::EBX,
            request: CPUIDRequest::ExtendedFeatures1,
            mask: 1u32 << 17,
        }),
        CPUFeature::RDSEED.spec_info() == (FeatureInfo {
            register: OutputRegister::EBX,
            request: CPUIDRequest::ExtendedFeatures1,
            mask: 1u32 << 18,
        }),
        CPUFeature::ADX.spec_info() == (FeatureInfo {
            register: OutputRegister::EBX,
            request: CPUIDRequest::ExtendedFeatures1,
            mask: 1u32 << 19,
        }),
        CPUFeature::SMAP.spec_info() == (FeatureInfo {
            register: OutputRegister::EBX,
            request: CPUIDRequest::ExtendedFeatures1,
            mask: 1u32 << 20,
        }),
        CPUFeature::AVX512_IFMA.spec_info() == (FeatureInfo {
            register: OutputRegister::EBX,
            request: CPUIDRequest::ExtendedFeatures1,
            mask: 1u32 << 21,
        }),
        CPUFeature::PCOMMIT.spec_info() == (FeatureInfo {
            register: OutputRegister::EBX,
            request: CPUIDRequest::ExtendedFeatures1,
            mask: 1u32 << 22,
        }),
        CPUFeature::CFLUSHOPT.spec_info() == (FeatureInfo {
            register: OutputRegister::EBX,
            request: CPUIDRequest::ExtendedFeatures1,
            mask: 1u32 << 23,
        }),
        CPUFeature::CLWB.spec_info() == (FeatureInfo {
            register: OutputRegister::EBX,
            request: CPUIDRequest::ExtendedFeatures1,
            mask: 1u32 << 24,
        }),
        CPUFeature::PT.spec_info() == (FeatureInfo {
            register: OutputRegister::EBX,
            request: CPUIDRequest::ExtendedFeatures1,
            mask: 1u32 << 25,
        }),
        CPUFeature::AVX512PF.spec_info() == (FeatureInfo {
            register: OutputRegister::EBX,
            request: CPUIDRequest::ExtendedFeatures1,
            mask: 1u32 << 26,
        }),
        CPUFeature::AVX512ER.spec_info() == (FeatureInfo {
            register: OutputRegister::EBX,
            request: CPUIDRequest::ExtendedFeatures1,
            mask: 1u32 << 27,
        }),
        CPUFeature::AVX512CD.spec_info() == (FeatureInfo {
            register: OutputRegister::EBX,
            request: CPUIDRequest::ExtendedFeatures1,
            mask: 1u32 << 28,
        }),
        CPUFeature::SHA.spec_info() == (FeatureInfo {
            register: OutputRegister::EBX,
            request: CPUIDRequest::ExtendedFeatures1,
            mask: 1u32 << 29,
        }),
        CPUFeature::AVX512BW.spec_info() == (FeatureInfo {
            register: OutputRegister::EBX,
            request: CPUIDRequest::ExtendedFeatures1,
            mask: 1u32 << 30,
        }),
        CPUFeature::AVX512VI.spec_info() == (FeatureInfo {
            register: OutputRegister::EBX,
            request: CPUIDRequest::ExtendedFeatures1,
            mask: 1u32 << 31,
        }),
        CPUFeature::PreFetchWT1.spec_info() == (FeatureInfo {
            register: OutputRegister::ECX,
            request: CPUIDRequest::ExtendedFeatures1,
            mask: 1u32 << 0,
        }),
        CPUFeature::AVX512VBMI.spec_info() == (FeatureInfo {
            register: OutputRegister::ECX,
            request: CPUIDRequest::ExtendedFeatures1,
            mask: 1u32 << 1,
        }),
        CPUFeature::UMIP.spec_info() == (FeatureInfo {
            register: OutputRegister::ECX,
            request: CPUIDRequest::ExtendedFeatures1,
            mask: 1u32 << 2,
        }),
        CPUFeature::PKU.spec_info() == (FeatureInfo {
            register: OutputRegister::ECX,
            request: CPUIDRequest::ExtendedFeatures1,
            mask: 1u32 << 3,
        }),
        CPUFeature::OSPKE.spec_info() == (FeatureInfo {
            register: OutputRegister::ECX,
            request: CPUIDRequest::ExtendedFeatures1,
            mask: 1u32 << 4,
        }),
        CPUFeature::WAITKG.spec_info() == (FeatureInfo {
            register: OutputRegister::ECX,
            request: CPUIDRequest::ExtendedFeatures1,
            mask: 1u32 << 5,
        }),
        CPUFeature::AVX512VBMI2.spec_info() == (FeatureInfo {
            register: OutputRegister::ECX,
            request: CPUIDRequest::ExtendedFeatures1,
            mask: 1u32 << 6,
        }),
        CPUFeature::ShadowStack.spec_info() == (FeatureInfo {
            register: OutputRegister::ECX,
            request: CPUIDRequest::ExtendedFeatures1,
            mask: 1u32 << 7,
        }),
        CPUFeature::GFNI.spec_info() == (FeatureInfo {
            register: OutputRegister::ECX,
            request: CPUIDRequest::ExtendedFeatures1,
            mask: 1u32 << 8,
        }),
        CPUFeature::VAES.spec_info() == (FeatureInfo {
            register: OutputRegister::ECX,
            request: CPUIDRequest::ExtendedFeatures1,
            mask: 1u32 << 9,
        }),
        CPUFeature::VPCLMULQDQ.spec_info() == (FeatureInfo {
            register: OutputRegister::ECX,
            request: CPUIDRequest::ExtendedFeatures1,
            mask: 1u32 << 10,
        }),
        CPUFeature::AVX512VNNI.spec_info() == (FeatureInfo {
            register: OutputRegister::ECX,
            request: CPUIDRequest::ExtendedFeatures1,
            mask: 1u32 << 11,
        }),
        CPUFeature::AVX512BITALG.spec_info() == (FeatureInfo {
            register: OutputRegister::ECX,
            request: CPUIDRequest::ExtendedFeatures1,
            mask: 1u32 << 12,
        }),
        CPUFeature::TME.spec_info() == (FeatureInfo {
            register: OutputRegister::ECX,
            request: CPUIDRequest::ExtendedFeatures1,
            mask: 1u32 << 13,
        }),
        CPUFeature::AVX512VPOPCNTDQ.spec_info() == (FeatureInfo {
            register: OutputRegister::ECX,
            request: CPUIDRequest::ExtendedFeatures1,
            mask: 1u32 << 14,
        }),
        CPUFeature::LA57.spec_info() == (FeatureInfo {
            register: OutputRegister::ECX,
            request: CPUIDRequest::ExtendedFeatures1,
            mask: 1u32 << 16,
        }),
        CPUFeature::RDPID.spec_info() == (FeatureInfo {
            register: OutputRegister::ECX,
            request: CPUIDRequest::ExtendedFeatures1,
            mask: 1u32 << 22,
        }),
        CPUFeature::KL.spec_info() == (FeatureInfo {
            register: OutputRegister::ECX,
            request: CPUIDRequest::ExtendedFeatures1,
            mask: 1u32 << 23,
        }),
        CPUFeature::BusLockDetect.spec_info() == (FeatureInfo {
            register: OutputRegister::ECX,
            request: CPUIDRequest::ExtendedFeatures1,
            mask: 1u32 << 24,
        }),
        CPUFeature::CIDEMOTE.spec_info() == (FeatureInfo {
            register: OutputRegister::ECX,
            request: CPUIDRequest::ExtendedFeatures1,
            mask: 1u32 << 25,
        }),
        CPUFeature::MOVDIRI.spec_info() == (FeatureInfo {
            register: OutputRegister::ECX,
            request: CPUIDRequest::ExtendedFeatures1,
            mask: 1u32 << 27,
        }),
        CPUFeature::MOBDIR64B.spec_info() == (FeatureInfo {
            register: OutputRegister::ECX,
            request: CPUIDRequest::ExtendedFeatures1,
            mask: 1u32 << 28,
        }),
        CPUFeature::ENQCMD.spec_info() == (FeatureInfo {
            register: OutputRegister::ECX,
            request: CPUIDRequest::ExtendedFeatures1,
            mask: 1u32 << 29,
        }),
        CPUFeature::SGXLC.spec_info() == (FeatureInfo {
            register: OutputRegister::ECX,
            request: CPUIDRequest::ExtendedFeatures1,
            mask: 1u32 << 30,
        }),
        CPUFeature::PKS.spec_info() == (FeatureInfo {
            register: OutputRegister::ECX,
            request: CPUIDRequest::ExtendedFeatures1,
            mask: 1u32 << 31,
        }),
        CPUFeature::SGXKeys.spec_info() == (FeatureInfo {
            register: OutputRegister::EDX,
            request: CPUIDRequest::ExtendedFeatures1,
            mask: 1u32 << 1,
        }),
        CPUFeature::AVX512_4VNNIW.spec_info() == (FeatureInfo {
            register: OutputRegister::EDX,
            request: CPUIDRequest::ExtendedFeatures1,
            mask: 1u32 << 2,
        }),
        CPUFeature::AVX512_4FMAPS.spec_info() == (FeatureInfo {
            register: OutputRegister::EDX,
            request: CPUIDRequest::ExtendedFeatures1,
            mask: 1u32 << 3,
        }),
        CPUFeature::FSRM.spec_info() == (FeatureInfo {
            register: OutputRegister::EDX,
            request: CPUIDRequest::ExtendedFeatures1,
            mask: 1u32 << 4,
        }),
        CPUFeature::UINTR.spec_info() == (FeatureInfo {
            register: OutputRegister::EDX,
            request: CPUIDRequest::ExtendedFeatures1,
            mask: 1u32 << 5,
        }),
        CPUFeature::AVX512VP2INTERSECT.spec_info() == (FeatureInfo {
            register: OutputRegister::EDX,
            request: CPUIDRequest::ExtendedFeatures1,
            mask: 1u32 << 8,
        }),
        CPUFeature::SRDBS_CTRL.spec_info() == (FeatureInfo {
            register: OutputRegister::EDX,
            request: CPUIDRequest::ExtendedFeatures1,
            mask: 1u32 << 9,
        }),
        CPUFeature::MCClear.spec_info() == (FeatureInfo {
            register: OutputRegister::EDX,
            request: CPUIDRequest::ExtendedFeatures1,
            mask: 1u32 << 10,
        }),
        CPUFeature::RTMAlwaysAbort.spec_info() == (FeatureInfo {
            register: OutputRegister::EDX,
            request: CPUIDRequest::ExtendedFeatures1,
            mask: 1u32 << 11,
        }),
        CPUFeature::TSXForceAbort.spec_info() == (FeatureInfo {
            register: OutputRegister::EDX,
            request: CPUIDRequest::ExtendedFeatures1,
            mask: 1u32 << 13,
        }),
        CPUFeature::SERIALIZE.spec_info() == (FeatureInfo {
            register: OutputRegister::EDX,
            request: CPUIDRequest::ExtendedFeatures1,
            mask: 1u32 << 14,
        }),
        CPUFeature::HYBRID.spec_info() == (FeatureInfo {
            register: OutputRegister::EDX,
            request: CPUIDRequest::ExtendedFeatures1,
            mask: 1u32 << 15,
        }),
        CPUFeature::TSXLDTRK.spec_info() == (FeatureInfo {
            register: OutputRegister::EDX,
            request: CPUIDRequest::ExtendedFeatures1,
            mask: 1u32 << 16,
        }),
        CPUFeature::PCONFIG.spec_info() == (FeatureInfo {
            register: OutputRegister::EDX,
            request: CPUIDRequest::ExtendedFeatures1,
            mask: 1u32 << 18,
        }),
        CPUFeature::IBR.spec_info() == (FeatureInfo {
            register: OutputRegister::EDX,
            request: CPUIDRequest::ExtendedFeatures1,
            mask: 1u32 << 19,
        }),
        CPUFeature::CET_IBT.spec_info() == (FeatureInfo {
            register: OutputRegister::EDX,
            request: CPUIDRequest::ExtendedFeatures1,
            mask: 1u32 << 20,
        }),
        CPUFeature::AMXBF16.spec_info() == (FeatureInfo {
            register: OutputRegister::EDX,
            request: CPUIDRequest::ExtendedFeatures1,
            mask: 1u32 << 22,
        }),
        CPUFeature::AVS512FP16.spec_info() == (FeatureInfo {
            register: OutputRegister::EDX,
            request: CPUIDRequest::ExtendedFeatures1,
            mask: 1u32 << 23,
        }),
        CPUFeature::AMXTile.spec_info() == (FeatureInfo {
            register: OutputRegister::EDX,
            request: CPUIDRequest::ExtendedFeatures1,
            mask: 1u32 << 24,
        }),
        CPUFeature::AMXInt8.spec_info() == (FeatureInfo {
            register: OutputRegister::EDX,
            request: CPUIDRequest::ExtendedFeatures1,
            mask: 1u32 << 25,
        }),
        CPUFeature::SpecControl.spec_info() == (FeatureInfo {
            register: OutputRegister::EDX,
            request: CPUIDRequest::ExtendedFeatures1,
            mask: 1u32 << 26,
        }),
        CPUFeature::STIBP.spec_info() == (FeatureInfo {
            register: OutputRegister::EDX,
            request: CPUIDRequest::ExtendedFeatures1,
            mask: 1u32 << 27,
        }),
        CPUFeature::L1DFlush.spec_info() == (FeatureInfo {
            register: OutputRegister::EDX,
            request: CPUIDRequest::ExtendedFeatures1,
            mask: 1u32 << 28,
        }),
        CPUFeature::SSBD.spec_info() == (FeatureInfo {
            register: OutputRegister::EDX,
            request: CPUIDRequest::ExtendedFeatures1,
            mask: 1u32 << 31,
        }),
{
    reveal(CPUFeature::spec_info);
}

/// The catalog rows reported under the ExtendedFeatures2 query, as ground facts
/// about [`CPUFeature::spec_info`].
pub proof fn lemma_spec_info_extended2()
    ensures
        CPUFeature::SHA512Extensions.spec_info() == (FeatureInfo {
            register: OutputRegister::EAX,
            request: CPUIDRequest::ExtendedFeatures2,
            mask: 1u32 << 0,
        }),
        CPUFeature::SM3.spec_info() == (FeatureInfo {
            register: OutputRegister::EAX,
            request: CPUIDRequest::ExtendedFeatures2,
            mask: 1u32 << 1,
        }),
        CPUFeature::SM4.spec_info() == (FeatureInfo {
            register: OutputRegister::EAX,
            request: CPUIDRequest::ExtendedFeatures2,
            mask: 1u32 << 2,
        }),
        CPUFeature::RAO_INT.spec_info() == (FeatureInfo {
            register: OutputRegister::EAX,
            request: CPUIDRequest::ExtendedFeatures2,
            mask: 1u32 << 3,
        }),
        CPUFeature::AVX_VNNI.spec_info() == (FeatureInfo {
            register: OutputRegister::EAX,
            request: CPUIDRequest::ExtendedFeatures2,
            mask: 1u32 << 4,
        }),
        CPUFeature::AVX512BF16.spec_info() == (FeatureInfo {
            register: OutputRegister::EAX,
            request: CPUIDRequest::ExtendedFeatures2,
            mask: 1u32 << 5,
        }),
        CPUFeature::LASS.spec_info() == (FeatureInfo {
            register: OutputRegister::EAX,
            request: CPUIDRequest::ExtendedFeatures2,
            mask: 1u32 << 6,
        }),
        CPUFeature::CMPCCXADD.spec_info() == (FeatureInfo {
            register: OutputRegister::EAX,
            request: CPUIDRequest::ExtendedFeatures2,
            mask: 1u32 << 7,
        }),
        CPUFeature::ARCHPerfMonExt.spec_info() == (FeatureInfo {
            register: OutputRegister::EAX,
            request: CPUIDRequest::ExtendedFeatures2,
            mask: 1u32 << 8,
        }),
        CPUFeature::FastZeroRepMOVSB.spec_info() == (FeatureInfo {
            register: OutputRegister::EAX,
            request: CPUIDRequest::ExtendedFeatures2,
            mask: 1u32 << 10,
        }),
        CPUFeature::FastShortRepSTOSB.spec_info() == (FeatureInfo {
            register: OutputRegister::EAX,
            request: CPUIDRequest::ExtendedFeatures2,
            mask: 1u32 << 11,
        }),
        CPUFeature::FastShortRepCMPSB.spec_info() == (FeatureInfo {
            register: OutputRegister::EAX,
            request: CPUIDRequest::ExtendedFeatures2,
            mask: 1u32 << 12,
        }),
        CPUFeature::FRED.spec_info() == (FeatureInfo {
            register: OutputRegister::EAX,
            request: CPUIDRequest::ExtendedFeatures2,
            mask: 1u32 << 17,
        }),
        CPUFeature::LKGS.spec_info() == (FeatureInfo {
            register: OutputRegister::EAX,
            request: CPUIDRequest::ExtendedFeatures2,
            mask: 1u32 << 18,
        }),
        CPUFeature::WRMSRNS.spec_info() == (FeatureInfo {
            register: OutputRegister::EAX,
            request: CPUIDRequest::ExtendedFeatures2,
            mask: 1u32 << 19,
        }),
        CPUFeature::AMXFP16.spec_info() == (FeatureInfo {
            register: OutputRegister::EAX,
            request: CPUIDRequest::ExtendedFeatures2,
            mask: 1u32 << 21,
        }),
        CPUFeature::HReset.spec_info() == (FeatureInfo {
            register: OutputRegister::EAX,
            request: CPUIDRequest::ExtendedFeatures2,
            mask: 1u32 << 22,
        }),
        CPUFeature::LAM.spec_info() == (FeatureInfo {
            register: OutputRegister::EAX,
            request: CPUIDRequest::ExtendedFeatures2,
            mask: 1u32 << 26,
        }),
        CPUFeature::MSRList.spec_info() == (FeatureInfo {
            register: OutputRegister::EAX,
            request: CPUIDRequest::ExtendedFeatures2,
            mask: 1u32 << 27,
        }),
        CPUFeature::PPIN.spec_info() == (FeatureInfo {
            register: OutputRegister::EBX,
            request: CPUIDRequest::ExtendedFeatures2,
            mask: 1u32 << 0,
        }),
        CPUFeature::PKNDKB.spec_info() == (FeatureInfo {
            register: OutputRegister::EBX,
            request: CPUIDRequest::ExtendedFeatures2,
            mask: 1u32 << 1,
        }),
        CPUFeature::AVX_VNNI_INT8.spec_info() == (FeatureInfo {
            register: OutputRegister::EDX,
            request: CPUIDRequest::ExtendedFeatures2,
            mask: 1u32 << 4,
        }),
        CPUFeature::AVX_NE_CONVERT.spec_info() == (FeatureInfo {
            register: OutputRegister::EDX,
            request: CPUIDRequest::ExtendedFeatures2,
            mask: 1u32 << 5,
        }),
        CPUFeature::AMXComplex.spec_info() == (FeatureInfo {
            register: OutputRegister::EDX,
            request: CPUIDRequest::ExtendedFeatures2,
            mask: 1u32 << 8,
        }),
        CPUFeature::AVX_VNNI_INT16.spec_info() == (FeatureInfo {
            register: OutputRegister::EDX,
            request: CPUIDRequest::ExtendedFeatures2,
            mask: 1u32 << 10,
        }),
        CPUFeature::PREFETCHI.spec_info() == (FeatureInfo {
            register: OutputRegister::EDX,
            request: CPUIDRequest::ExtendedFeatures2,
            mask: 1u32 << 14,
        }),
        CPUFeature::UserMSR.spec_info() == (FeatureInfo {
            register: OutputRegister::EDX,
            request: CPUIDRequest::ExtendedFeatures2,
            mask: 1u32 << 15,
        }),
        CPUFeature::UIRetUIFFromRFlags.spec_info() == (FeatureInfo {
            register: OutputRegister::EDX,
            request: CPUIDRequest::ExtendedFeatures2,
            mask: 1u32 << 17,
        }),
        CPUFeature::CET_SSS.spec_info() == (FeatureInfo {
            register: OutputRegister::EDX,
            request: CPUIDRequest::ExtendedFeatures2,
            mask: 1u32 << 18,
        }),
        CPUFeature::AVX10.spec_info() == (FeatureInfo {
            register: OutputRegister::EDX,
            request: CPUIDRequest::ExtendedFeatures2,
            mask: 1u32 << 19,
        }),
        CPUFeature::APX_F.spec_info() == (FeatureInfo {
            register: OutputRegister::EDX,
            request: CPUIDRequest::ExtendedFeatures2,
            mask: 1u32 << 21,
        }),
{
    reveal(CPUFeature::spec_info);
}

/// The catalog rows reported under the ExtendedFeatures3 query, as ground facts
/// about [`CPUFeature::spec_info`].
pub proof fn lemma_spec_info_extended3()
    ensures
        CPUFeature::PFSD.spec_info() == (FeatureInfo {
            register: OutputRegister::EDX,
            request: CPUIDRequest::ExtendedFeatures3,
            mask: 1u32 << 0,
        }),
        CPUFeature::IPREDDIS.spec_info() == (FeatureInfo {
            register: OutputRegister::EDX,
            request: CPUIDRequest::ExtendedFeatures3,
            mask: 1u32 << 1,
        }),
        CPUFeature::RRSBACtrl.spec_info() == (FeatureInfo {
            register: OutputRegister::EDX,
            request: CPUIDRequest::ExtendedFeatures3,
            mask: 1u32 << 2,
        }),
        CPUFeature::DPPDU.spec_info() == (FeatureInfo {
            register: OutputRegister::EDX,
            request: CPUIDRequest::ExtendedFeatures3,
            mask: 1u32 << 3,
        }),
        CPUFeature::BHICtrl.spec_info() == (FeatureInfo {
            register: OutputRegister::EDX,
            request: CPUIDRequest::ExtendedFeatures3,
            mask: 1u32 << 4,
        }),
        CPUFeature::MCDT_NO.spec_info() == (FeatureInfo {
            register: OutputRegister::EDX,
            request: CPUIDRequest::ExtendedFeatures3,
            mask: 1u32 << 5,
        }),
{
    reveal(CPUFeature::spec_info);
}

/// The catalog rows reported under the ExtendedFeatures4 query, as ground facts
/// about [`CPUFeature::spec_info`].
pub proof fn lemma_spec_info_extended4()
    ensures
        CPUFeature::Syscall.spec_info() == (FeatureInfo {
            register: OutputRegister::EDX,
            request: CPUIDRequest::ExtendedFeatures4,
            mask: 1u32 << 11,
        }),
        CPUFeature::NX.spec_info() == (FeatureInfo {
            register: OutputRegister::EDX,
            request: CPUIDRequest::ExtendedFeatures4,
            mask: 1u32 << 20,
        }),
        CPUFeature::FXSROpt.spec_info() == (FeatureInfo {
            register: OutputRegister::EDX,
            request: CPUIDRequest::ExtendedFeatures4,
            mask: 1u32 << 25,
        }),
        CPUFeature::GigabytePages.spec_info() == (FeatureInfo {
            register: OutputRegister::EDX,
            request: CPUIDRequest::ExtendedFeatures4,
            mask: 1u32 << 26,
        }),
        CPUFeature::RDTSCP.spec_info() == (FeatureInfo {
            register: OutputRegister::EDX,
            request: CPUIDRequest::ExtendedFeatures4,
            mask: 1u32 << 27,
        }),
        CPUFeature::LongMode.spec_info() == (FeatureInfo {
            register: OutputRegister::EDX,
            request: CPUIDRequest::ExtendedFeatures4,
            mask: 1u32 << 29,
        }),
        CPUFeature::Ext3dNow.spec_info() == (FeatureInfo {
            register: OutputRegister::EDX,
            request: CPUIDRequest::ExtendedFeatures4,
            mask: 1u32 << 30,
        }),
        CPUFeature::F3DNow.spec_info() == (FeatureInfo {
            register: OutputRegister::EDX,
            request: CPUIDRequest::ExtendedFeatures4,
            mask: 1u32 << 31,
        }),
        CPUFeature::LAHF_LM.spec_info() == (FeatureInfo {
            register: OutputRegister::ECX,
            request: CPUIDRequest::ExtendedFeatures4,
            mask: 1u32 << 0,
        }),
        CPUFeature::CmpLegacy.spec_info() == (FeatureInfo {
            register: OutputRegister::ECX,
            request: CPUIDRequest::ExtendedFeatures4,
            mask: 1u32 << 1,
        }),
        CPUFeature::SecureVM.spec_info() == (FeatureInfo {
            register: OutputRegister::ECX,
            request: CPUIDRequest::ExtendedFeatures4,
            mask: 1u32 << 2,
        }),
        CPUFeature::ExtendedAPIC.spec_info() == (FeatureInfo {
            register: OutputRegister::ECX,
            request: CPUIDRequest::ExtendedFeatures4,
            mask: 1u32 << 3,
        }),
        CPUFeature::CR8Legacy.spec_info() == (FeatureInfo {
            register: OutputRegister::ECX,
            request: CPUIDRequest::ExtendedFeatures4,
            mask: 1u32 << 4,
        }),
        CPUFeature::ABM.spec_info() == (FeatureInfo {
            register: OutputRegister::ECX,
            request: CPUIDRequest::ExtendedFeatures4,
            mask: 1u32 << 5,
        }),
        CPUFeature::SSE4a.spec_info() == (FeatureInfo {
            register: OutputRegister::ECX,
            request: CPUIDRequest::ExtendedFeatures4,
            mask: 1u32 << 6,
        }),
        CPUFeature::MisalignedSSE.spec_info() == (FeatureInfo {
            register: OutputRegister::ECX,
            request: CPUIDRequest::ExtendedFeatures4,
            mask: 1u32 << 7,
        }),
        CPUFeature::Prefetch3DNow.spec_info() == (FeatureInfo {
            register: OutputRegister::ECX,
            request: CPUIDRequest::ExtendedFeatures4,
            mask: 1u32 << 8,
        }),
        CPUFeature::OSVW.spec_info() == (FeatureInfo {
            register: OutputRegister::ECX,
            request: CPUIDRequest::ExtendedFeatures4,
            mask: 1u32 << 9,
        }),
        CPUFeature::IBS.spec_info() == (FeatureInfo {
            register: OutputRegister::ECX,
            request: CPUIDRequest::ExtendedFeatures4,
            mask: 1u32 << 10,
        }),
        CPUFeature::XOP.spec_info() == (FeatureInfo {
            register: OutputRegister::ECX,
            request: CPUIDRequest::ExtendedFeatures4,
            mask: 1u32 << 11,
        }),
        CPUFeature::SKINIT.spec_info() == (FeatureInfo {
            register: OutputRegister::ECX,
            request: CPUIDRequest::ExtendedFeatures4,
            mask: 1u32 << 12,
        }),
        CPUFeature::WatchdogTimer.spec_info() == (FeatureInfo {
            register: OutputRegister::ECX,
            request: CPUIDRequest::ExtendedFeatures4,
            mask: 1u32 << 13,
        }),
        CPUFeature::LWP.spec_info() == (FeatureInfo {
            register: OutputRegister::ECX,
            request: CPUIDRequest::ExtendedFeatures4,
            mask: 1u32 << 15,
        }),
        CPUFeature::FMA4.spec_info() == (FeatureInfo {
            register: OutputRegister::ECX,
            request: CPUIDRequest::ExtendedFeatures4,
            mask: 1u32 << 16,
        }),
        CPUFeature::TCE.spec_info() == (FeatureInfo {
            register: OutputRegister::ECX,
            request: CPUIDRequest::ExtendedFeatures4,
            mask: 1u32 << 17,
        }),
        CPUFeature::NodeIdMSR.spec_info() == (FeatureInfo {
            register: OutputRegister::ECX,
            request: CPUIDRequest::ExtendedFeatures4,
            mask: 1u32 << 19,
        }),
        CPUFeature::TBM.spec_info() == (FeatureInfo {
            register: OutputRegister::ECX,
            request: CPUIDRequest::ExtendedFeatures4,
            mask: 1u32 << 20,
        }),
        CPUFeature::TopoExt.spec_info() == (FeatureInfo {
            register: OutputRegister::ECX,
            request: CPUIDRequest::ExtendedFeatures4,
            mask: 1u32 << 22,
        }),
        CPUFeature::PrefCtrCoe.spec_info() == (FeatureInfo {
            register: OutputRegister::ECX,
            request: CPUIDRequest::ExtendedFeatures4,
            mask: 1u32 << 23,
        }),
        CPUFeature::PrefCtrNb.spec_info() == (FeatureInfo {
            register: OutputRegister::ECX,
            request: CPUIDRequest::ExtendedFeatures4,
            mask: 1u32 << 24,
        }),
        CPUFeature::StreamPerfMon.spec_info() == (FeatureInfo {
            register: OutputRegister::ECX,
            request: CPUIDRequest::ExtendedFeatures4,
            mask: 1u32 << 25,
        }),
        CPUFeature::DBX.spec_info() == (FeatureInfo {
            register: OutputRegister::ECX,
            request: CPUIDRequest::ExtendedFeatures4,
            mask: 1u32 << 26,
        }),
        CPUFeature::PerfTSC.spec_info() == (FeatureInfo {
            register: OutputRegister::ECX,
            request: CPUIDRequest::ExtendedFeatures4,
            mask: 1u32 << 27,
        }),
        CPUFeature::PCXL2I.spec_info() == (FeatureInfo {
            register: OutputRegister::ECX,
            request: CPUIDRequest::ExtendedFeatures4,
            mask: 1u32 << 28,
        }),
        CPUFeature::MonitorX.spec_info() == (FeatureInfo {
            register: OutputRegister::ECX,
            request: CPUIDRequest::ExtendedFeatures4,
            mask: 1u32 << 29,
        }),
        CPUFeature::AddrMaskExt.spec_info() == (FeatureInfo {
            register: OutputRegister::ECX,
            request: CPUIDRequest::ExtendedFeatures4,
            mask: 1u32 << 30,
        }),
{
    reveal(CPUFeature::spec_info);
}

/// Whether the given response reports the feature as active: the feature's
/// request must be the one issued, and every bit of the feature's mask
/// must be set in its designated output field. A partial match is not
/// active.
pub open spec fn feature_active(f: CPUFeature, request: CPUIDRequest, response: CPUIDResponse) -> bool {
    f.spec_info().request == request && response.register(f.spec_info().register)
        & f.spec_info().mask == f.spec_info().mask
}

/// The active entries among the first `n` catalog entries, in declaration
/// order.
pub open spec fn spec_active_features_prefix(
    request: CPUIDRequest,
    response: CPUIDResponse,
    n: int,
) -> Seq<CPUFeature>
    decreases n,
{
    if n <= 0 {
        Seq::empty()
    } else {
        let rest = spec_active_features_prefix(request, response, n - 1);
        if feature_active(CPUFeature::spec_catalog_at(n - 1), request, response) {
            rest.push(CPUFeature::spec_catalog_at(n - 1))
        } else {
            rest
        }
    }
}

/// The active entries of the whole catalog for one request and its
/// response, in declaration order.
pub open spec fn spec_active_features(request: CPUIDRequest, response: CPUIDResponse) -> Seq<
    CPUFeature,
> {
    spec_active_features_prefix(request, response, FEATURE_COUNT as int)
}

/// Catalog positions are faithful: the entry at each position carries that
/// position as its index, and every feature sits at its own index. The
/// two directions make the position map a bijection between features and
/// positions.
pub proof fn lemma_catalog_positions()
    ensures
        forall|i: int|
            0 <= i < FEATURE_COUNT ==> (#[trigger] CPUFeature::spec_catalog_at(
                i,
            )).catalog_index() == i,
        forall|f: CPUFeature|
            {
                &&& 0 <= #[trigger] f.catalog_index() < FEATURE_COUNT
                &&& CPUFeature::spec_catalog_at(f.catalog_index()) == f
            },
{
    reveal(CPUFeature::spec_catalog_at);
    reveal(CPUFeature::catalog_index);
}

/// Catalog completeness: the catalog's length equals the number of
/// declared features, every feature occurs in it, and none occurs twice,
/// independent of any hardware state.
pub proof fn lemma_catalog_exact()
    ensures
        CPUFeature::spec_catalog().len() == FEATURE_COUNT,
        forall|f: CPUFeature| #[trigger] CPUFeature::spec_catalog().contains(f),
        CPUFeature::spec_catalog().no_duplicates(),
{
    lemma_catalog_positions();
    assert forall|f: CPUFeature| #[trigger] CPUFeature::spec_catalog().contains(f) by {
        assert(CPUFeature::spec_catalog()[f.catalog_index()] == f);
    }
    assert forall|i: int, j: int|
        0 <= i < CPUFeature::spec_catalog().len() && 0 <= j < CPUFeature::spec_catalog().len() && i
            != j implies CPUFeature::spec_catalog()[i] != CPUFeature::spec_catalog()[j] by {
        assert(CPUFeature::spec_catalog()[i].catalog_index() == i);
        assert(CPUFeature::spec_catalog()[j].catalog_index() == j);
    }
}

/// The membership of an active-feature prefix, by induction over the
/// prefix length: a feature is in it exactly when it is active and sits at
/// a catalog position below the prefix length.
proof fn lemma_active_prefix_contains(
    request: CPUIDRequest,
    response: CPUIDResponse,
    f: CPUFeature,
    n: int,
)
    requires
        0 <= n <= FEATURE_COUNT,
    ensures
        spec_active_features_prefix(request, response, n).contains(f) <==> ((exists|k: int|
            0 <= k < n && CPUFeature::spec_catalog_at(k) == f) && feature_active(
            f,
            request,
            response,
        )),
    decreases n,
{
    if n > 0 {
        lemma_active_prefix_contains(request, response, f, n - 1);
        let rest = spec_active_features_prefix(request, response, n - 1);
        let at = CPUFeature::spec_catalog_at(n - 1);
        if feature_active(at, request, response) {
            assert(spec_active_features_prefix(request, response, n) == rest.push(at));
            assert forall|g: CPUFeature| rest.push(at).contains(g) implies rest.contains(g) || g
                == at by {
                let k = choose|k: int| 0 <= k < rest.push(at).len() && rest.push(at)[k] == g;
                if k < rest.len() {
                    assert(rest[k] == g);
                }
            }
            if rest.contains(f) || f == at {
                assert(rest.push(at)[rest.push(at).len() - 1] == at);
                if rest.contains(f) {
                    let k = choose|k: int| 0 <= k < rest.len() && rest[k] == f;
                    assert(rest.push(at)[k] == f);
                }
            }
            if f == at && feature_active(f, request, response) {
                assert(CPUFeature::spec_catalog_at(n - 1) == f);
            }
        }
    }
}

/// Feature matching is exact-mask: the result of matching one request's
/// response holds a feature exactly when that feature's request is the
/// one issued and all of its mask bits are set in its output field; a
/// response with only some of the mask bits set does not report it.
pub proof fn lemma_feature_matching_exact(
    request: CPUIDRequest,
    response: CPUIDResponse,
    f: CPUFeature,
)
    ensures
        spec_active_features(request, response).contains(f) <==> feature_active(
            f,
            request,
            response,
        ),
{
    lemma_catalog_positions();
    lemma_active_prefix_contains(request, response, f, FEATURE_COUNT as int);
    if feature_active(f, request, response) {
        assert(0 <= f.catalog_index() < FEATURE_COUNT && CPUFeature::spec_catalog_at(
            f.catalog_index(),
        ) == f);
    }
}

} // verus!
