//! A `Compilation` holds the compiled function bodies of a module: each
//! `CompiledFunction` carries machine code bytes, the relocations to patch
//! into them, the trap records, the jump-table offsets, and the unwind
//! information. A frontend — a JIT or a native-object writer — consumes it.

use vstd::prelude::*;
use vstd::slice::slice_subrange;
use vstd::slice::slice_to_vec;
use crate::errors::TrapCode;
use crate::indexes::DefinedFuncIndex;
use crate::relocation::{CodeOffset, Relocation};
use crate::sourceloc::SourceLoc;
use crate::unwind::CompiledFunctionUnwindInfo;

verus! {

/// One trap site of a compiled function: where in the code it is, which
/// source location it came from, and why it traps.
#[derive(Debug, Clone, Copy, PartialEq, Eq, Structural)]
pub struct TrapInformation {
    /// The offset of the trapping instruction in the function body.
    pub code_offset: CodeOffset,
    /// The source location of the trapping instruction.
    pub srcloc: SourceLoc,
    /// Why the instruction traps.
    pub trap_code: TrapCode,
}

/// The offsets of a function's jump tables inside its body, one per table.
pub type JumpTableOffsets = Vec<CodeOffset>;

/// The result of compiling a WebAssembly function: the function body bytes
/// and the metadata a frontend needs to install and run them.
#[derive(Debug, Clone, PartialEq, Eq)]
pub struct CompiledFunction {
    /// The function body.
    pub body: Vec<u8>,
    /// The relocations (in the body).
    pub relocations: Vec<Relocation>,
    /// The traps (in the body).
    pub traps: Vec<TrapInformation>,
    /// The jump tables offsets (in the body).
    pub jt_offsets: JumpTableOffsets,
    /// The unwind information.
    pub unwind_info: CompiledFunctionUnwindInfo,
}

/// The compiled functions, in defined-function index order.
pub type Functions = Vec<CompiledFunction>;

/// The result of compiling a WebAssembly module's functions.
#[derive(Debug, Clone, PartialEq, Eq)]
pub struct Compilation {
    /// Compiled code for the function bodies.
    functions: Functions,
}

/// The ranges and metadata `Compilation::from_buffer` turns into one
/// compiled function: the body's range in the buffer, the jump-table
/// offsets, the unwind info's range in the buffer, the relocations, and the
/// traps.
pub struct FunctionExtent {
    /// The range of the body in the buffer.
    pub body: core::ops::Range<usize>,
    /// The function's jump-table offsets.
    pub jt_offsets: JumpTableOffsets,
    /// The range of the Windows unwind info in the buffer.
    pub unwind_info: core::ops::Range<usize>,
    /// The function's relocations.
    pub relocations: Vec<Relocation>,
    /// The function's traps.
    pub traps: Vec<TrapInformation>,
}

impl Compilation {
    /// The compiled functions, in index order.
    pub closed spec fn spec_functions(self) -> Seq<CompiledFunction> {
        self.functions@
    }

    /// Creates a compilation result from the given functions.
    pub fn new(functions: Functions) -> (r: Self)
        ensures
            r.spec_functions() == functions@,
    {
        Compilation { functions }
    }

    /// Allocates the compilation result with function bodies and Windows
    /// unwind records copied out of one contiguous buffer.
    pub fn from_buffer(buffer: Vec<u8>, functions: Vec<FunctionExtent>) -> (r: Self)
        requires
            forall|i: int|
                0 <= i < functions@.len() ==> {
                    &&& (#[trigger] functions@[i]).body.start <= functions@[i].body.end
                    &&& functions@[i].body.end <= buffer@.len()
                    &&& functions@[i].unwind_info.start <= functions@[i].unwind_info.end
                    &&& functions@[i].unwind_info.end <= buffer@.len()
                },
        ensures
            r.spec_functions().len() == functions@.len(),
            forall|i: int|
                0 <= i < functions@.len() ==> {
                    &&& (#[trigger] r.spec_functions()[i]).body@ == buffer@.subrange(
                        functions@[i].body.start as int,
                        functions@[i].body.end as int,
                    )
                    &&& r.spec_functions()[i].jt_offsets == functions@[i].jt_offsets
                    &&& r.spec_functions()[i].unwind_info is Windows
                    &&& r.spec_functions()[i].unwind_info.spec_bytes() == buffer@.subrange(
                        functions@[i].unwind_info.start as int,
                        functions@[i].unwind_info.end as int,
                    )
                    &&& r.spec_functions()[i].relocations == functions@[i].relocations
                    &&& r.spec_functions()[i].traps == functions@[i].traps
                },
    {
        let ghost orig = functions@;
        let mut inputs = functions;
        let n = inputs.len();
        let mut compiled: Vec<CompiledFunction> = Vec::new();
        let mut i: usize = 0;
        while i < n
            invariant
                i <= n,
                n == orig.len(),
                inputs@ == orig.subrange(i as int, n as int),
                compiled@.len() == i,
                forall|k: int|
                    0 <= k < orig.len() ==> {
                        &&& (#[trigger] orig[k]).body.start <= orig[k].body.end
                        &&& orig[k].body.end <= buffer@.len()
                        &&& orig[k].unwind_info.start <= orig[k].unwind_info.end
                        &&& orig[k].unwind_info.end <= buffer@.len()
                    },
                forall|k: int|
                    0 <= k < i ==> {
                        &&& (#[trigger] compiled@[k]).body@ == buffer@.subrange(
                            orig[k].body.start as int,
                            orig[k].body.end as int,
                        )
                        &&& compiled@[k].jt_offsets == orig[k].jt_offsets
                        &&& compiled@[k].unwind_info is Windows
                        &&& compiled@[k].unwind_info.spec_bytes() == buffer@.subrange(
                            orig[k].unwind_info.start as int,
                            orig[k].unwind_info.end as int,
                        )
                        &&& compiled@[k].relocations == orig[k].relocations
                        &&& compiled@[k].traps == orig[k].traps
                    },
            decreases n - i,
        {
            proof {
                assert(inputs@[0] == orig[i as int]);
            }
            let extent = inputs.remove(0);
            let body = slice_to_vec(
                slice_subrange(buffer.as_slice(), extent.body.start, extent.body.end),
            );
            let unwind_bytes = slice_to_vec(
                slice_subrange(buffer.as_slice(), extent.unwind_info.start, extent.unwind_info.end),
            );
            compiled.push(
                CompiledFunction {
                    body,
                    relocations: extent.relocations,
                    traps: extent.traps,
                    jt_offsets: extent.jt_offsets,
                    unwind_info: CompiledFunctionUnwindInfo::Windows(unwind_bytes),
                },
            );
            proof {
                assert(inputs@ =~= orig.subrange(i + 1, n as int));
            }
            i = i + 1;
        }
        Compilation { functions: compiled }
    }

    /// Gets one compiled function.
    pub fn get(&self, func: DefinedFuncIndex) -> (r: &CompiledFunction)
        requires
            func.0 < self.spec_functions().len(),
        ensures
            *r == self.spec_functions()[func.0 as int],
    {
        &self.functions[func.0 as usize]
    }

    /// Gets the number of functions defined.
    pub fn len(&self) -> (r: usize)
        ensures
            r == self.spec_functions().len(),
    {
        self.functions.len()
    }

    /// Returns whether there are no functions defined.
    pub fn is_empty(&self) -> (r: bool)
        ensures
            r == (self.spec_functions().len() == 0),
    {
        self.functions.len() == 0
    }

    /// Gets every function's jump-table offsets.
    pub fn get_jt_offsets(&self) -> (r: Vec<JumpTableOffsets>)
        ensures
            r@.len() == self.spec_functions().len(),
            forall|i: int|
                0 <= i < r@.len() ==> (#[trigger] r@[i])@ == self.spec_functions()[i].jt_offsets@,
    {
        let mut out: Vec<JumpTableOffsets> = Vec::new();
        let mut i: usize = 0;
        while i < self.functions.len()
            invariant
                i <= self.functions@.len(),
                out@.len() == i,
                forall|k: int|
                    0 <= k < i ==> (#[trigger] out@[k])@ == self.functions@[k].jt_offsets@,
            decreases self.functions@.len() - i,
        {
            out.push(slice_to_vec(self.functions[i].jt_offsets.as_slice()));
            i = i + 1;
        }
        out
    }

    /// Gets every function's relocations.
    pub fn get_relocations(&self) -> (r: Vec<Vec<Relocation>>)
        ensures
            r@.len() == self.spec_functions().len(),
            forall|i: int|
                0 <= i < r@.len() ==> (#[trigger] r@[i])@ == self.spec_functions()[i].relocations@,
    {
        let mut out: Vec<Vec<Relocation>> = Vec::new();
        let mut i: usize = 0;
        while i < self.functions.len()
            invariant
                i <= self.functions@.len(),
                out@.len() == i,
                forall|k: int|
                    0 <= k < i ==> (#[trigger] out@[k])@ == self.functions@[k].relocations@,
            decreases self.functions@.len() - i,
        {
            out.push(slice_to_vec(self.functions[i].relocations.as_slice()));
            i = i + 1;
        }
        out
    }

    /// Gets every function's traps.
    pub fn get_traps(&self) -> (r: Vec<Vec<TrapInformation>>)
        ensures
            r@.len() == self.spec_functions().len(),
            forall|i: int|
                0 <= i < r@.len() ==> (#[trigger] r@[i])@ == self.spec_functions()[i].traps@,
    {
        let mut out: Vec<Vec<TrapInformation>> = Vec::new();
        let mut i: usize = 0;
        while i < self.functions.len()
            invariant
                i <= self.functions@.len(),
                out@.len() == i,
                forall|k: int| 0 <= k < i ==> (#[trigger] out@[k])@ == self.functions@[k].traps@,
            decreases self.functions@.len() - i,
        {
            out.push(slice_to_vec(self.functions[i].traps.as_slice()));
            i = i + 1;
        }
        out
    }
}

} // verus!
