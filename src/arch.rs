//! Architecture capability flags for the 68000 family and ColdFire.
//!
//! The classic flags live in `M68K_MASK`, the ColdFire flags in `MCF_MASK`;
//! the two ranges are disjoint.
use vstd::prelude::*;

verus! {

pub const M68000: u32 = 0x001;
pub const M68010: u32 = 0x002;
pub const M68020: u32 = 0x004;
pub const M68030: u32 = 0x008;
pub const M68040: u32 = 0x010;
pub const M68060: u32 = 0x020;
pub const M68881: u32 = 0x040;
pub const M68851: u32 = 0x080;
/// e.g. the 68332.
pub const CPU32: u32 = 0x100;
pub const FIDO_A: u32 = 0x200;
pub const M68K_MASK: u32 = 0x3ff;
/// ColdFire MAC.
pub const MCFMAC: u32 = 0x400;
/// ColdFire EMAC.
pub const MCFEMAC: u32 = 0x800;
/// ColdFire FPU.
pub const CFLOAT: u32 = 0x1000;
/// ColdFire hardware divide.
pub const MCFHWDIV: u32 = 0x2000;
/// ColdFire ISA_A.
pub const MCFISA_A: u32 = 0x4000;
/// ColdFire ISA_A+.
pub const MCFISA_AA: u32 = 0x8000;
/// ColdFire ISA_B.
pub const MCFISA_B: u32 = 0x10000;
/// ColdFire ISA_C.
pub const MCFISA_C: u32 = 0x20000;
/// ColdFire USP instructions.
pub const MCFUSP: u32 = 0x40000;
pub const MCF_MASK: u32 = 0x7e400;
/// Every named flag, classic and ColdFire.
pub const ALL_FLAGS: u32 = M68K_MASK | MCFMAC | MCFEMAC | CFLOAT | MCFHWDIV | MCFISA_A | MCFISA_AA
    | MCFISA_B | MCFISA_C | MCFUSP;

/// 68040 | 68060.
pub const M68040UP: u32 = M68040 | M68060;
/// 68030 | 68040 | 68060.
pub const M68030UP: u32 = M68030 | M68040UP;
/// 68020 | 68030 | 68040 | 68060.
pub const M68020UP: u32 = M68020 | M68030UP;
/// 68010 | CPU32 | FIDO_A | 68020 | 68030 | 68040 | 68060.
pub const M68010UP: u32 = M68010 | CPU32 | FIDO_A | M68020UP;
/// 68000 | 68010 | CPU32 | FIDO_A | 68020 | 68030 | 68040 | 68060.
pub const M68000UP: u32 = M68000 | M68010UP;
/// 68881 | 68040 | 68060: a floating-point unit is present.
pub const MFLOAT: u32 = M68881 | M68040 | M68060;
/// 68851 | 68030 | 68040 | 68060: a memory-management unit is present.
pub const MMMU: u32 = M68851 | M68030 | M68040 | M68060;

/// A set of CPU variants and optional units, one bit per flag above.
#[derive(Clone, Copy, Debug, PartialEq, Eq, Structural)]
pub struct ArchitectureSet {
    pub bits: u32,
}

impl ArchitectureSet {
    /// True iff the two sets share a variant.
    pub open spec fn spec_has_any(self, other: ArchitectureSet) -> bool {
        self.bits & other.bits != 0
    }

    pub fn new(bits: u32) -> (r: ArchitectureSet)
        ensures
            r.bits == bits,
    {
        ArchitectureSet { bits }
    }

    /// The empty set: selects no variant.
    pub fn none() -> (r: ArchitectureSet)
        ensures
            r.bits == 0,
    {
        ArchitectureSet { bits: 0 }
    }

    pub fn union(self, other: ArchitectureSet) -> (r: ArchitectureSet)
        ensures
            r.bits == self.bits | other.bits,
    {
        ArchitectureSet { bits: self.bits | other.bits }
    }

    pub fn has_any(self, other: ArchitectureSet) -> (r: bool)
        ensures
            r == self.spec_has_any(other),
    {
        self.bits & other.bits != 0
    }

    pub fn is_empty(self) -> (r: bool)
        ensures
            r == (self.bits == 0),
    {
        self.bits == 0
    }
}

/// The derived unions nest (68000 and up contains 68010 and up, which
/// contains 68020 and up, and so on), each holds the variant it is named
/// after, the classic and ColdFire ranges share no bit, and every ColdFire
/// ISA flag lies in the ColdFire range.
pub proof fn lemma_union_algebra()
    ensures
        M68010UP & M68000UP == M68010UP,
        M68020UP & M68010UP == M68020UP,
        M68030UP & M68020UP == M68030UP,
        M68040UP & M68030UP == M68040UP,
        M68000UP & M68000 != 0,
        M68010UP & M68010 != 0,
        M68020UP & M68020 != 0,
        M68030UP & M68030 != 0,
        M68040UP & M68040 != 0,
        M68000UP & M68K_MASK == M68000UP,
        M68K_MASK & MCF_MASK == 0,
        M68000UP & MCF_MASK == 0,
        MFLOAT & M68K_MASK == MFLOAT,
        MMMU & M68K_MASK == MMMU,
        (MCFISA_A | MCFISA_AA | MCFISA_B | MCFISA_C) & MCF_MASK == MCFISA_A | MCFISA_AA | MCFISA_B
            | MCFISA_C,
{
    assert(M68010UP & M68000UP == M68010UP) by (bit_vector);
    assert(M68020UP & M68010UP == M68020UP) by (bit_vector);
    assert(M68030UP & M68020UP == M68030UP) by (bit_vector);
    assert(M68040UP & M68030UP == M68040UP) by (bit_vector);
    assert(M68000UP & M68000 != 0) by (bit_vector);
    assert(M68010UP & M68010 != 0) by (bit_vector);
    assert(M68020UP & M68020 != 0) by (bit_vector);
    assert(M68030UP & M68030 != 0) by (bit_vector);
    assert(M68040UP & M68040 != 0) by (bit_vector);
    assert(M68000UP & M68K_MASK == M68000UP) by (bit_vector);
    assert(M68K_MASK & MCF_MASK == 0) by (bit_vector);
    assert(M68000UP & MCF_MASK == 0) by (bit_vector);
    assert(MFLOAT & M68K_MASK == MFLOAT) by (bit_vector);
    assert(MMMU & M68K_MASK == MMMU) by (bit_vector);
    assert((MCFISA_A | MCFISA_AA | MCFISA_B | MCFISA_C) & MCF_MASK == MCFISA_A | MCFISA_AA
        | MCFISA_B | MCFISA_C) by (bit_vector);
}

} // verus!
