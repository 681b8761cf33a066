//! The translated module: entity descriptors keyed by dense typed indices,
//! import/export records, segments, and the memory and table plans resolved
//! against the tunables.
//!
//! Invariant: imported items occupy the low end of each index space. The
//! count of imported entries of a class never exceeds the length of that
//! class's list, and every recorded import points below that count.

use vstd::prelude::*;
use crate::indexes::{
    DataIndex, ElemIndex, ExportIndex, FuncIndex, GlobalIndex, ImportIndex, SignatureIndex,
    TableIndex,
};
use crate::tunables::Tunables;
use crate::types::{FuncType, GlobalType, MemoryType, TableType};

verus! {

/// How a linear memory is allocated: grown on demand, or pre-reserved up to a
/// static page bound with guard pages.
#[derive(Debug, Clone, Copy, PartialEq, Eq, Structural)]
pub enum MemoryStyle {
    /// The memory is grown on demand.
    Dynamic,
    /// The address space is reserved up front for `bound` pages.
    Static {
        /// The number of pages reserved up front.
        bound: u32,
    },
}

/// A linear memory descriptor together with the allocation strategy and guard
/// size chosen for it.
#[derive(Debug, Clone, Copy, PartialEq, Eq, Structural)]
pub struct MemoryPlan {
    /// The memory descriptor from the module.
    pub memory: MemoryType,
    /// The chosen allocation style.
    pub style: MemoryStyle,
    /// The size in bytes of the offset guard region.
    pub offset_guard_size: u64,
}

impl MemoryPlan {
    /// The plan the tunables assign to a memory: static allocation when the
    /// memory's declared maximum fits under the static bound, dynamic
    /// otherwise, each with the matching guard size.
    pub open spec fn spec_for_memory(memory: MemoryType, tunables: Tunables) -> MemoryPlan {
        if memory.maximum is Some && memory.maximum->0 <= tunables.static_memory_bound {
            MemoryPlan {
                memory,
                style: MemoryStyle::Static { bound: tunables.static_memory_bound },
                offset_guard_size: tunables.static_memory_offset_guard_size,
            }
        } else {
            MemoryPlan {
                memory,
                style: MemoryStyle::Dynamic,
                offset_guard_size: tunables.dynamic_memory_offset_guard_size,
            }
        }
    }

    /// Draw up a plan for the given memory under the given tunables.
    pub fn for_memory(memory: MemoryType, tunables: &Tunables) -> (r: Self)
        ensures
            r == Self::spec_for_memory(memory, *tunables),
    {
        let use_static = match memory.maximum {
            Some(max) => max <= tunables.static_memory_bound,
            None => false,
        };
        if use_static {
            MemoryPlan {
                memory,
                style: MemoryStyle::Static { bound: tunables.static_memory_bound },
                offset_guard_size: tunables.static_memory_offset_guard_size,
            }
        } else {
            MemoryPlan {
                memory,
                style: MemoryStyle::Dynamic,
                offset_guard_size: tunables.dynamic_memory_offset_guard_size,
            }
        }
    }
}

/// How a table's element accesses are checked.
#[derive(Debug, Clone, Copy, PartialEq, Eq, Structural)]
pub enum TableStyle {
    /// Signatures are checked at the call site against the caller's
    /// expectation.
    CallerChecksSignature,
}

/// A table descriptor together with the implementation style chosen for it.
#[derive(Debug, Clone, Copy, PartialEq, Eq, Structural)]
pub struct TablePlan {
    /// The table descriptor from the module.
    pub table: TableType,
    /// The chosen implementation style.
    pub style: TableStyle,
}

impl TablePlan {
    /// Draw up a plan for the given table under the given tunables.
    pub fn for_table(table: TableType, _tunables: &Tunables) -> (r: Self)
        ensures
            r == (TablePlan { table, style: TableStyle::CallerChecksSignature }),
    {
        TablePlan { table, style: TableStyle::CallerChecksSignature }
    }
}

/// An active element segment: function indices written into a table at
/// instantiation time, at `offset` plus the value of an optional base global.
#[derive(Debug, Clone)]
pub struct TableElements {
    /// The table the segment targets.
    pub table_index: TableIndex,
    /// An optional global whose value is added to the offset.
    pub base: Option<GlobalIndex>,
    /// The literal offset into the table.
    pub offset: usize,
    /// The function indices to write.
    pub elements: Vec<FuncIndex>,
}

/// The part of the module needed by the VMContext layout: entity descriptors
/// in index order and the counts of imported entries at the low end of each
/// space.
#[derive(Debug)]
pub struct ModuleLocal {
    /// Unprocessed function signatures, in type-section order.
    pub signatures: Vec<FuncType>,
    /// The number of imported functions.
    pub num_imported_funcs: usize,
    /// The number of imported tables.
    pub num_imported_tables: usize,
    /// The number of imported memories.
    pub num_imported_memories: usize,
    /// The number of imported globals.
    pub num_imported_globals: usize,
    /// The signature of each function, imports first.
    pub functions: Vec<SignatureIndex>,
    /// The plan of each table, imports first.
    pub table_plans: Vec<TablePlan>,
    /// The plan of each memory, imports first.
    pub memory_plans: Vec<MemoryPlan>,
    /// The descriptor of each global, imports first.
    pub globals: Vec<GlobalType>,
}

impl ModuleLocal {
    /// Imported entries occupy the low end of each index space: no import
    /// count exceeds its list's length, and every function's signature index
    /// points into the signature list.
    pub open spec fn wf(self) -> bool {
        &&& self.num_imported_funcs <= self.functions@.len()
        &&& self.num_imported_tables <= self.table_plans@.len()
        &&& self.num_imported_memories <= self.memory_plans@.len()
        &&& self.num_imported_globals <= self.globals@.len()
        &&& forall|i: int|
            0 <= i < self.functions@.len() ==> (#[trigger] self.functions@[i]).0
                < self.signatures@.len()
    }

    /// An empty module-local store.
    pub fn new() -> (r: Self)
        ensures
            r.signatures@.len() == 0,
            r.num_imported_funcs == 0,
            r.num_imported_tables == 0,
            r.num_imported_memories == 0,
            r.num_imported_globals == 0,
            r.functions@.len() == 0,
            r.table_plans@.len() == 0,
            r.memory_plans@.len() == 0,
            r.globals@.len() == 0,
            r.wf(),
    {
        ModuleLocal {
            signatures: Vec::new(),
            num_imported_funcs: 0,
            num_imported_tables: 0,
            num_imported_memories: 0,
            num_imported_globals: 0,
            functions: Vec::new(),
            table_plans: Vec::new(),
            memory_plans: Vec::new(),
            globals: Vec::new(),
        }
    }
}

/// Every memory plan was drawn by the tunables from an un-shared memory
/// type: no shared memory survives, and each plan's style and guard size
/// follow the tunables policy for its memory type.
pub open spec fn spec_memory_plans_wf(plans: Seq<MemoryPlan>, tunables: Tunables) -> bool {
    forall|i: int|
        0 <= i < plans.len() ==> {
            &&& !(#[trigger] plans[i]).memory.shared
            &&& plans[i] == MemoryPlan::spec_for_memory(plans[i].memory, tunables)
        }
}

/// A translated WebAssembly module: the entity lists plus imports, exports,
/// segments and names.
#[derive(Debug)]
pub struct Module {
    /// The module name from the name custom section, if any.
    pub name: Option<String>,
    /// Imported entities: (module, field, import ordinal) in declaration
    /// order, each pointing at the imported slot of its index space.
    pub imports: Vec<((String, String, u32), ImportIndex)>,
    /// Exported entities by name, in declaration order, names unique.
    pub exports: Vec<(String, ExportIndex)>,
    /// The start function, at most one.
    pub start_func: Option<FuncIndex>,
    /// Active element segments.
    pub table_elements: Vec<TableElements>,
    /// Passive element segments by segment index, indices unique.
    pub passive_elements: Vec<(ElemIndex, Vec<FuncIndex>)>,
    /// Passive data segments by segment index, indices unique.
    pub passive_data: Vec<(DataIndex, Vec<u8>)>,
    /// Function names from the name custom section, indices unique.
    pub func_names: Vec<(FuncIndex, String)>,
    /// The entity lists and import counts.
    pub local: ModuleLocal,
}

impl Module {
    /// Every recorded import points below the import count of its class, the
    /// entity lists obey the imported-first invariant, and keyed lists carry
    /// each key at most once.
    pub open spec fn wf(self) -> bool {
        &&& self.local.wf()
        &&& forall|i: int|
            0 <= i < self.imports@.len() ==> match (#[trigger] self.imports@[i]).1 {
                ImportIndex::Function(f) => f.0 < self.local.num_imported_funcs,
                ImportIndex::Table(t) => t.0 < self.local.num_imported_tables,
                ImportIndex::Memory(m) => m.0 < self.local.num_imported_memories,
                ImportIndex::Global(g) => g.0 < self.local.num_imported_globals,
            }
        &&& match self.start_func {
            Some(f) => f.0 < self.local.functions@.len(),
            None => true,
        }
        &&& forall|i: int, j: int|
            0 <= i < j < self.passive_elements@.len() ==> (#[trigger] self.passive_elements@[i]).0
                != (#[trigger] self.passive_elements@[j]).0
        &&& forall|i: int, j: int|
            0 <= i < j < self.passive_data@.len() ==> (#[trigger] self.passive_data@[i]).0
                != (#[trigger] self.passive_data@[j]).0
        &&& forall|i: int, j: int|
            0 <= i < j < self.exports@.len() ==> (#[trigger] self.exports@[i]).0@
                != (#[trigger] self.exports@[j]).0@
        &&& forall|i: int, j: int|
            0 <= i < j < self.func_names@.len() ==> (#[trigger] self.func_names@[i]).0
                != (#[trigger] self.func_names@[j]).0
    }

    /// An empty module.
    pub fn new() -> (r: Self)
        ensures
            r.name is None,
            r.imports@.len() == 0,
            r.exports@.len() == 0,
            r.start_func is None,
            r.table_elements@.len() == 0,
            r.passive_elements@.len() == 0,
            r.passive_data@.len() == 0,
            r.func_names@.len() == 0,
            r.local.signatures@.len() == 0,
            r.local.num_imported_funcs == 0,
            r.local.num_imported_tables == 0,
            r.local.num_imported_memories == 0,
            r.local.num_imported_globals == 0,
            r.local.functions@.len() == 0,
            r.local.table_plans@.len() == 0,
            r.local.memory_plans@.len() == 0,
            r.local.globals@.len() == 0,
            r.wf(),
    {
        Module {
            name: None,
            imports: Vec::new(),
            exports: Vec::new(),
            start_func: None,
            table_elements: Vec::new(),
            passive_elements: Vec::new(),
            passive_data: Vec::new(),
            func_names: Vec::new(),
            local: ModuleLocal::new(),
        }
    }
}

} // verus!
