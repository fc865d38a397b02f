//! Instruction definitions: a fixed bit pattern, the mask of its significant
//! bits, the length in bytes and the variants it applies to.
//!
//! Patterns and masks share one 32-bit shape: the opcode word in the upper
//! half and, for two-word encodings, the extension word in the lower half.
use vstd::prelude::*;

use crate::arch::{ArchitectureSet, ALL_FLAGS};

verus! {

/// One row of the definition table.
#[derive(Clone, Copy, Debug)]
pub struct OpCode {
    pub name: &'static str,
    /// One character per operand addressing-mode category, kept verbatim.
    pub args: &'static str,
    pub opcode: u32,
    pub mask: u32,
    pub arch: u32,
    /// Total length of the instruction in bytes, extension words included.
    pub size: u16,
}

/// Why a definition cannot stand in a table.
#[derive(Clone, Copy, Debug, PartialEq, Eq, Structural)]
pub enum DefinitionFault {
    /// The mask selects no bit, so the row would match every word.
    EmptyMask,
    /// The pattern sets a bit that the mask leaves out, so it can never match.
    BitsOutsideMask,
    /// The row applies to no variant.
    NoArchitecture,
    /// The row's architecture holds a bit that names no flag.
    UnnamedArchitecture,
}

/// The first malformed row of a table: its position, mnemonic and fault.
#[derive(Clone, Copy, Debug)]
pub struct TableError {
    pub row: usize,
    pub name: &'static str,
    pub fault: DefinitionFault,
}

/// Number of 16-bit words a mask spans: two when its lower half selects a bit.
pub open spec fn spec_word_count(mask: u32) -> nat {
    if mask & 0xffff == 0 {
        1
    } else {
        2
    }
}

/// What is wrong with a row, checked in this order, or `None`.
pub open spec fn spec_fault(op: OpCode) -> Option<DefinitionFault> {
    if op.mask == 0 {
        Some(DefinitionFault::EmptyMask)
    } else if op.opcode & !op.mask != 0 {
        Some(DefinitionFault::BitsOutsideMask)
    } else if op.arch == 0 {
        Some(DefinitionFault::NoArchitecture)
    } else if op.arch & !ALL_FLAGS != 0 {
        Some(DefinitionFault::UnnamedArchitecture)
    } else {
        None
    }
}

impl OpCode {
    /// The row has a non-empty mask, no fixed bit outside it, and an
    /// architecture made of named flags, at least one.
    pub open spec fn well_formed(self) -> bool {
        &&& self.mask != 0
        &&& self.opcode & !self.mask == 0
        &&& self.arch != 0
        &&& self.arch & !ALL_FLAGS == 0
    }

    pub fn new(name: &'static str, args: &'static str, opcode: u32, mask: u32, arch: u32, size: u16) -> (r: OpCode)
        ensures
            r.name == name,
            r.args == args,
            r.opcode == opcode,
            r.mask == mask,
            r.arch == arch,
            r.size == size,
    {
        OpCode { name, args, opcode, mask, arch, size }
    }

    pub fn fault(&self) -> (r: Option<DefinitionFault>)
        ensures
            r == spec_fault(*self),
            r.is_none() == self.well_formed(),
    {
        if self.mask == 0 {
            Some(DefinitionFault::EmptyMask)
        } else if self.opcode & !self.mask != 0 {
            Some(DefinitionFault::BitsOutsideMask)
        } else if self.arch == 0 {
            Some(DefinitionFault::NoArchitecture)
        } else if self.arch & !ALL_FLAGS != 0 {
            Some(DefinitionFault::UnnamedArchitecture)
        } else {
            None
        }
    }

    /// Words of the stream that the pattern covers: 1 or 2.
    pub fn required_word_count(&self) -> (r: usize)
        ensures
            r == spec_word_count(self.mask),
    {
        if self.mask & 0xffff == 0 {
            1
        } else {
            2
        }
    }

    pub fn architecture(&self) -> (r: ArchitectureSet)
        ensures
            r.bits == self.arch,
    {
        ArchitectureSet { bits: self.arch }
    }

    /// Human-readable rendering for diagnostics: mnemonic, operands, pattern,
    /// mask, size and architecture.
    pub fn describe(&self) -> (r: String)
        ensures
            r@ == rendered(self.name@, self.args@, self.opcode, self.mask, self.size, self.arch),
    {
        render(self.name, self.args, self.opcode, self.mask, self.size, self.arch)
    }
}

/// The text that `render` lays out for the six fields of a row.
pub uninterp spec fn rendered(
    name: Seq<char>,
    args: Seq<char>,
    opcode: u32,
    mask: u32,
    size: u16,
    arch: u32,
) -> Seq<char>;

/// Relies on std's `format!` to lay the fields out as text; the text depends
/// on the six values alone.
#[verifier::external_body]
fn render(name: &str, args: &str, opcode: u32, mask: u32, size: u16, arch: u32) -> (r: String)
    ensures
        r@ == rendered(name@, args@, opcode, mask, size, arch),
{
    format!("{}: {}, {:#04X}, mask: {:#04X} size: {} arch: {}", name, args, opcode, mask, size, arch)
}

/// Pattern or mask of a one-word encoding: the word in the upper half.
pub open spec fn spec_one(x: u32) -> u32 {
    x << 16u32
}

/// Pattern or mask of a two-word encoding.
pub open spec fn spec_two(x: u32, y: u32) -> u32 {
    ((x << 16u32) + y) as u32
}

/// Pattern or mask of a one-word encoding: the word in the upper half.
#[verifier::when_used_as_spec(spec_one)]
pub fn one(x: u32) -> (r: u32)
    requires
        x <= 0xffff,
    ensures
        r == spec_one(x),
        r == x * 0x10000,
        r & 0xffff == 0,
{
    assert(x <= 0xffff ==> (x << 16u32) == x * 0x10000 && (x << 16u32) & 0xffff == 0) by (bit_vector);
    x << 16
}

/// Pattern or mask of a two-word encoding: the opcode word in the upper
/// half, the extension word in the lower half.
#[verifier::when_used_as_spec(spec_two)]
pub fn two(x: u32, y: u32) -> (r: u32)
    requires
        x <= 0xffff,
        y <= 0xffff,
    ensures
        r == spec_two(x, y),
        r == x * 0x10000 + y,
        r & 0xffff == y,
{
    assert(x <= 0xffff && y <= 0xffff ==> (x << 16u32) == x * 0x10000 && (((x << 16u32) + y) as u32) & 0xffff
        == y) by (bit_vector);
    (x << 16) + y
}

/// Checks every row and reports the first malformed one.
pub fn validate_table(table: &[OpCode]) -> (r: Result<(), TableError>)
    ensures
        r is Ok <==> forall|i: int| 0 <= i < table@.len() ==> #[trigger] table@[i].well_formed(),
        r matches Err(e) ==> {
            &&& e.row < table@.len()
            &&& e.name == table@[e.row as int].name
            &&& spec_fault(table@[e.row as int]) == Some(e.fault)
            &&& forall|j: int| 0 <= j < e.row ==> #[trigger] table@[j].well_formed()
        },
{
    let mut i: usize = 0;
    while i < table.len()
        invariant
            i <= table@.len(),
            forall|j: int| 0 <= j < i ==> #[trigger] table@[j].well_formed(),
        decreases table@.len() - i,
    {
        match table[i].fault() {
            Some(fault) => {
                return Err(TableError { row: i, name: table[i].name, fault });
            },
            None => {},
        }
        i += 1;
    }
    Ok(())
}

/// The table made of `rows`, in their order, once every row is well formed;
/// otherwise the first malformed row.
pub fn build_table(rows: Vec<OpCode>) -> (r: Result<Vec<OpCode>, TableError>)
    ensures
        r is Ok <==> forall|i: int| 0 <= i < rows@.len() ==> #[trigger] rows@[i].well_formed(),
        r matches Ok(t) ==> t@ == rows@,
        r matches Err(e) ==> {
            &&& e.row < rows@.len()
            &&& e.name == rows@[e.row as int].name
            &&& spec_fault(rows@[e.row as int]) == Some(e.fault)
            &&& forall|j: int| 0 <= j < e.row ==> #[trigger] rows@[j].well_formed()
        },
{
    match validate_table(rows.as_slice()) {
        Ok(()) => Ok(rows),
        Err(e) => Err(e),
    }
}

} // verus!
