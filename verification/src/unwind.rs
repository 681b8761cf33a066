//! Unwind information of a compiled function.
//!
//! The unwind information is used to determine which function called the
//! function that raised an exception, and which function called that one,
//! and so forth. Windows represents this data in its own UNWIND_INFO form,
//! so it is kept apart from the Unix frame-layout form.

use vstd::prelude::*;
use crate::relocation::{Addend, CodeOffset};

verus! {

/// One relocation entry of a frame-description entry: the addend, the offset
/// it applies at, and the width of the slot in bytes.
#[derive(Debug, Clone, Copy, PartialEq, Eq, Structural)]
pub struct FDERelocEntry(pub i64, pub usize, pub u8);

/// Relocation entry for unwind info.
#[derive(Debug, Clone, Copy, PartialEq, Eq, Structural)]
pub struct FunctionTableReloc {
    /// Entry offset in the code block.
    pub offset: CodeOffset,
    /// Entry addend relative to the code block.
    pub addend: Addend,
}

/// Compiled function unwind information: nothing, a Windows UNWIND_INFO
/// record, or a Unix frame layout with its frame-description-entry offset
/// and relocations.
#[derive(Debug, Clone, PartialEq, Eq)]
pub enum CompiledFunctionUnwindInfo {
    /// No unwind information.
    NoInfo,
    /// Windows UNWIND_INFO.
    Windows(Vec<u8>),
    /// Unix frame layout info: the encoded bytes, the offset of the
    /// frame-description entry within them, and the relocations to apply.
    FrameLayout(Vec<u8>, usize, Vec<FDERelocEntry>),
}

impl CompiledFunctionUnwindInfo {
    /// The encoded bytes this unwind information serializes to.
    pub open spec fn spec_bytes(self) -> Seq<u8> {
        match self {
            CompiledFunctionUnwindInfo::NoInfo => Seq::<u8>::empty(),
            CompiledFunctionUnwindInfo::Windows(d) => d@,
            CompiledFunctionUnwindInfo::FrameLayout(c, _, _) => c@,
        }
    }

    /// Returns true where there is no unwind info data.
    pub fn is_empty(&self) -> (r: bool)
        ensures
            r == (self.spec_bytes().len() == 0),
    {
        match self {
            CompiledFunctionUnwindInfo::NoInfo => true,
            CompiledFunctionUnwindInfo::Windows(d) => d.len() == 0,
            CompiledFunctionUnwindInfo::FrameLayout(c, _, _) => c.len() == 0,
        }
    }

    /// Returns the size of the serialized unwind info.
    pub fn len(&self) -> (r: usize)
        ensures
            r == self.spec_bytes().len(),
    {
        match self {
            CompiledFunctionUnwindInfo::NoInfo => 0,
            CompiledFunctionUnwindInfo::Windows(d) => d.len(),
            CompiledFunctionUnwindInfo::FrameLayout(c, _, _) => c.len(),
        }
    }

    /// Serialize the unwind info into `dest`, and append one
    /// `FunctionTableReloc` per frame-layout relocation entry. Where there
    /// is unwind data, `dest` must hold exactly its length; where there is
    /// none, `dest` may be anything and is left untouched. Every
    /// frame-layout entry must describe an eight-byte slot.
    pub fn serialize(&self, dest: &mut Vec<u8>, relocs: &mut Vec<FunctionTableReloc>)
        requires
            self is NoInfo || old(dest)@.len() == self.spec_bytes().len(),
            match self {
                CompiledFunctionUnwindInfo::FrameLayout(_, _, r) => forall|i: int|
                    0 <= i < r@.len() ==> (#[trigger] r@[i]).2 == 8,
                _ => true,
            },
        ensures
            self is NoInfo ==> final(dest)@ == old(dest)@,
            !(self is NoInfo) ==> final(dest)@ == self.spec_bytes(),
            ({
                match self {
                    CompiledFunctionUnwindInfo::FrameLayout(_, _, r) => {
                        &&& final(relocs)@.len() == old(relocs)@.len() + r@.len()
                        &&& forall|i: int|
                            0 <= i < old(relocs)@.len() ==> final(relocs)@[i] == old(relocs)@[i]
                        &&& forall|i: int|
                            0 <= i < r@.len() ==> final(relocs)@[old(relocs)@.len() + i]
                                == (FunctionTableReloc {
                                offset: r@[i].1 as u32,
                                addend: r@[i].0,
                            })
                    },
                    _ => final(relocs)@ == old(relocs)@,
                }
            }),
    {
        match self {
            CompiledFunctionUnwindInfo::NoInfo => {},
            CompiledFunctionUnwindInfo::Windows(d) => {
                dest.clear();
                dest.extend_from_slice(d.as_slice());
                proof {
                    assert(dest@ =~= d@);
                }
            },
            CompiledFunctionUnwindInfo::FrameLayout(code, _fde_offset, r) => {
                dest.clear();
                dest.extend_from_slice(code.as_slice());
                proof {
                    assert(dest@ =~= code@);
                }
                let mut i: usize = 0;
                while i < r.len()
                    invariant
                        i <= r@.len(),
                        forall|j: int| 0 <= j < r@.len() ==> (#[trigger] r@[j]).2 == 8,
                        relocs@.len() == old(relocs)@.len() + i,
                        forall|j: int|
                            0 <= j < old(relocs)@.len() ==> relocs@[j] == old(relocs)@[j],
                        forall|j: int|
                            0 <= j < i ==> relocs@[old(relocs)@.len() + j] == (FunctionTableReloc {
                                offset: r@[j].1 as u32,
                                addend: r@[j].0,
                            }),
                    decreases r@.len() - i,
                {
                    let entry = r[i];
                    #[verifier::truncate]
                    let offset = entry.1 as u32;
                    relocs.push(FunctionTableReloc { offset, addend: entry.0 });
                    i = i + 1;
                }
            },
        }
    }
}

} // verus!
