//! Relocation records: when a function body is compiled to machine code, the
//! places in it that must be patched with final addresses are recorded here,
//! so a frontend can apply them when it lays the code out in memory.

use vstd::prelude::*;
use crate::indexes::{FuncIndex, JumpTable};

verus! {

/// An offset in bytes from the start of a compiled function.
pub type CodeOffset = u32;

/// A number to add to the value a relocation resolves to.
pub type Addend = i64;

/// Relocation kinds for every ISA.
#[derive(Copy, Clone, Debug, PartialEq, Eq, Structural)]
pub enum RelocationKind {
    /// Absolute 4-byte.
    Abs4,
    /// Absolute 8-byte.
    Abs8,
    /// x86 PC-relative 4-byte.
    X86PCRel4,
    /// x86 PC-relative 4-byte offset to trailing rodata.
    X86PCRelRodata4,
    /// x86 call to PC-relative 4-byte.
    X86CallPCRel4,
}

impl RelocationKind {
    /// The short name this kind prints as. The names drop the architecture,
    /// since they are used where the architecture is already unambiguous.
    pub open spec fn spec_display_name(self) -> Seq<char> {
        match self {
            RelocationKind::Abs4 => "Abs4"@,
            RelocationKind::Abs8 => "Abs8"@,
            RelocationKind::X86PCRel4 => "PCRel4"@,
            RelocationKind::X86PCRelRodata4 => "PCRelRodata4"@,
            RelocationKind::X86CallPCRel4 => "CallPCRel4"@,
        }
    }

    /// The short name this kind prints as.
    pub fn display_name(&self) -> (r: &'static str)
        ensures
            r@ == self.spec_display_name(),
    {
        match *self {
            RelocationKind::Abs4 => "Abs4",
            RelocationKind::Abs8 => "Abs8",
            RelocationKind::X86PCRel4 => "PCRel4",
            RelocationKind::X86PCRelRodata4 => "PCRelRodata4",
            RelocationKind::X86CallPCRel4 => "CallPCRel4",
        }
    }
}

/// A runtime helper the compiler may emit a call to, such as the
/// implementation of `memory.grow` or of a float rounding operation.
#[derive(Copy, Clone, Debug, PartialEq, Eq, Structural)]
pub enum LibCall {
    /// The ceiling of a 32-bit float.
    CeilF32,
    /// The ceiling of a 64-bit float.
    CeilF64,
    /// The floor of a 32-bit float.
    FloorF32,
    /// The floor of a 64-bit float.
    FloorF64,
    /// A 32-bit float rounded to the nearest integer.
    NearestF32,
    /// A 64-bit float rounded to the nearest integer.
    NearestF64,
    /// A 32-bit float truncated toward zero.
    TruncF32,
    /// A 64-bit float truncated toward zero.
    TruncF64,
    /// The stack probe inserted ahead of large frames.
    Probestack,
}

/// Destination of a relocation: a user function, a compiler-generated
/// libcall, or a jump table.
#[derive(Copy, Clone, Debug, PartialEq, Eq, Structural)]
pub enum RelocationTarget {
    /// The user function index.
    UserFunc(FuncIndex),
    /// A compiler-generated libcall.
    LibCall(LibCall),
    /// A jump table of a function.
    JumpTable(FuncIndex, JumpTable),
}

/// A record of a relocation to perform.
#[derive(Copy, Clone, Debug, PartialEq, Eq, Structural)]
pub struct Relocation {
    /// The relocation kind.
    pub kind: RelocationKind,
    /// Relocation target.
    pub reloc_target: RelocationTarget,
    /// The offset where to apply the relocation.
    pub offset: CodeOffset,
    /// The addend to add to the relocation value.
    pub addend: Addend,
}

/// Relocations to apply to function bodies, one list per defined function.
pub type Relocations = Vec<Vec<Relocation>>;

} // verus!
