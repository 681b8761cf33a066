//! The translation environment: the object the module decoder drives with
//! `reserve_*` and `declare_*` calls while it walks the sections of a Wasm
//! binary, and the `ModuleTranslation` it produces.

use vstd::prelude::*;
use crate::errors::{WasmError, WasmResult};
use crate::indexes::{
    DataIndex, ElemIndex, ExportIndex, FuncIndex, GlobalIndex, ImportIndex, MemoryIndex,
    SignatureIndex, TableIndex,
};
use crate::module::{MemoryPlan, Module, TableElements, TablePlan};
use crate::tunables::Tunables;
use crate::types::{FuncType, GlobalType, MemoryType, TableType};

verus! {

/// Contains function data: bytecode and its offset in the module.
#[derive(Debug, Clone)]
pub struct FunctionBodyData {
    /// Function body bytecode.
    pub data: Vec<u8>,
    /// Body offset relative to the module file.
    pub module_offset: usize,
}

/// Where an active data segment writes its bytes: a memory, an optional base
/// global whose value is added to the offset, and the literal offset.
#[derive(Debug, Clone)]
pub struct DataInitializerLocation {
    /// The memory the segment targets.
    pub memory_index: MemoryIndex,
    /// An optional global whose value is added to the offset.
    pub base: Option<GlobalIndex>,
    /// The literal offset into the memory.
    pub offset: usize,
}

/// An active data segment: a location and the bytes written there at
/// instantiation time.
#[derive(Debug, Clone)]
pub struct DataInitializer {
    /// Where the bytes are written.
    pub location: DataInitializerLocation,
    /// The bytes to write.
    pub data: Vec<u8>,
}

/// Type information the decoder accumulates for the compiler backend. The
/// per-function signatures live in the module's signature list.
#[derive(Debug, Clone)]
pub struct ModuleTranslationState {
    /// How many function bodies the code section carried.
    pub num_translated_functions: u32,
}

/// The result of translating via `ModuleEnvironment`. Function bodies are not
/// yet compiled; a compiler backend does that later.
#[derive(Debug)]
pub struct ModuleTranslation {
    /// Module information.
    pub module: Module,
    /// The function bodies, indexed by defined-function index.
    pub function_body_inputs: Vec<FunctionBodyData>,
    /// The active data initializers.
    pub data_initializers: Vec<DataInitializer>,
    /// Tunable parameters.
    pub tunables: Tunables,
    /// The decoded type information for the module, present once translation
    /// has run.
    pub module_translation: Option<ModuleTranslationState>,
}

/// Object containing the standalone environment information.
pub struct ModuleEnvironment {
    /// The result to be filled in.
    pub result: ModuleTranslation,
    /// How many imports have been declared so far.
    pub imports: u32,
}

/// `n` is `o` with the entry for `name` set to `export`: either the one
/// existing entry with that name replaced, or, where none existed, the new
/// entry appended. All other entries are unchanged.
pub open spec fn spec_inserted_export(
    o: Seq<(String, ExportIndex)>,
    n: Seq<(String, ExportIndex)>,
    name: Seq<char>,
    export: ExportIndex,
) -> bool {
    &&& n.len() == if exists|i: int| 0 <= i < o.len() && (#[trigger] o[i]).0@ == name {
        o.len()
    } else {
        o.len() + 1
    }
    &&& forall|j: int| 0 <= j < o.len() && (#[trigger] o[j]).0@ != name ==> n[j] == o[j]
    &&& forall|j: int|
        0 <= j < o.len() && (#[trigger] o[j]).0@ == name ==> n[j].0@ == name && n[j].1 == export
    &&& n.len() > o.len() ==> n[o.len() as int].0@ == name && n[o.len() as int].1 == export
}

/// `n` is `o` with the name of function `key` set to `name`, replacing the
/// one existing entry or appending a new one.
pub open spec fn spec_inserted_func_name(
    o: Seq<(FuncIndex, String)>,
    n: Seq<(FuncIndex, String)>,
    key: FuncIndex,
    name: Seq<char>,
) -> bool {
    &&& n.len() == if exists|i: int| 0 <= i < o.len() && (#[trigger] o[i]).0 == key {
        o.len()
    } else {
        o.len() + 1
    }
    &&& forall|j: int| 0 <= j < o.len() && (#[trigger] o[j]).0 != key ==> n[j] == o[j]
    &&& forall|j: int|
        0 <= j < o.len() && (#[trigger] o[j]).0 == key ==> n[j].0 == key && n[j].1@ == name
    &&& n.len() > o.len() ==> n[o.len() as int].0 == key && n[o.len() as int].1@ == name
}

/// Set the export `name` to `export`, replacing an existing entry of that
/// name or appending a new one, keeping names unique.
fn insert_export(
    exports: &mut Vec<(String, ExportIndex)>,
    name: &str,
    export: ExportIndex,
)
    requires
        forall|i: int, j: int|
            0 <= i < j < old(exports)@.len() ==> (#[trigger] old(exports)@[i]).0@
                != (#[trigger] old(exports)@[j]).0@,
    ensures
        spec_inserted_export(old(exports)@, final(exports)@, name@, export),
        forall|i: int, j: int|
            0 <= i < j < final(exports)@.len() ==> (#[trigger] final(exports)@[i]).0@
                != (#[trigger] final(exports)@[j]).0@,
{
    let name_string = name.to_owned();
    let n = exports.len();
    let mut i: usize = 0;
    while i < n
        invariant
            exports@ == old(exports)@,
            n == exports@.len(),
            i <= n,
            name_string@ == name@,
            forall|j: int| 0 <= j < i ==> (#[trigger] old(exports)@[j]).0@ != name@,
            forall|a: int, b: int|
                0 <= a < b < old(exports)@.len() ==> (#[trigger] old(exports)@[a]).0@
                    != (#[trigger] old(exports)@[b]).0@,
        decreases n - i,
    {
        if exports[i].0 == name_string {
            proof {
                assert(old(exports)@[i as int].0@ == name@);
            }
            let _ = exports.remove(i);
            exports.insert(i, (name_string, export));
            proof {
                let ghost o = old(exports)@;
                assert forall|j: int|
                    0 <= j < o.len() && (#[trigger] o[j]).0@ == name@ implies j == i by {
                    if j < i as int {
                        assert(o[j].0@ != o[i as int].0@);
                    } else if j > i as int {
                        assert(o[i as int].0@ != o[j].0@);
                    }
                }
                assert(exports@ =~= o.update(i as int, (exports@[i as int].0, export)));
                assert(forall|k: int|
                    0 <= k < o.len() ==> (#[trigger] exports@[k]).0@ == o[k].0@);
            }
            return;
        }
        i = i + 1;
    }
    exports.push((name_string, export));
}

/// Set the name of function `key` to `name`, replacing an existing entry for
/// that function or appending a new one, keeping keys unique.
fn insert_func_name(names: &mut Vec<(FuncIndex, String)>, key: FuncIndex, name: &str)
    requires
        forall|i: int, j: int|
            0 <= i < j < old(names)@.len() ==> (#[trigger] old(names)@[i]).0
                != (#[trigger] old(names)@[j]).0,
    ensures
        spec_inserted_func_name(old(names)@, final(names)@, key, name@),
        forall|i: int, j: int|
            0 <= i < j < final(names)@.len() ==> (#[trigger] final(names)@[i]).0
                != (#[trigger] final(names)@[j]).0,
{
    let name_string = name.to_owned();
    let n = names.len();
    let mut i: usize = 0;
    while i < n
        invariant
            names@ == old(names)@,
            n == names@.len(),
            i <= n,
            name_string@ == name@,
            forall|j: int| 0 <= j < i ==> (#[trigger] old(names)@[j]).0 != key,
            forall|a: int, b: int|
                0 <= a < b < old(names)@.len() ==> (#[trigger] old(names)@[a]).0
                    != (#[trigger] old(names)@[b]).0,
        decreases n - i,
    {
        if names[i].0 == key {
            proof {
                assert(old(names)@[i as int].0 == key);
            }
            let _ = names.remove(i);
            names.insert(i, (key, name_string));
            proof {
                let ghost o = old(names)@;
                assert forall|j: int|
                    0 <= j < o.len() && (#[trigger] o[j]).0 == key implies j == i by {
                    if j < i as int {
                        assert(o[j].0 != o[i as int].0);
                    } else if j > i as int {
                        assert(o[i as int].0 != o[j].0);
                    }
                }
                assert(names@ =~= o.update(i as int, (key, names@[i as int].1)));
                assert(forall|k: int| 0 <= k < o.len() ==> (#[trigger] names@[k]).0 == o[k].0);
            }
            return;
        }
        i = i + 1;
    }
    names.push((key, name_string));
}

impl ModuleEnvironment {
    /// How many imports have been declared so far.
    pub open spec fn spec_imports(self) -> u32 {
        self.imports
    }

    /// The module under construction is well formed and the import counter
    /// matches the number of recorded imports.
    pub open spec fn wf(self) -> bool {
        &&& self.result.module.wf()
        &&& self.spec_imports() as int == self.result.module.imports@.len()
    }

    /// Everything outside `result.module` and the import counter is unchanged.
    pub open spec fn same_translation_rest(pre: Self, post: Self) -> bool {
        &&& post.result.function_body_inputs == pre.result.function_body_inputs
        &&& post.result.data_initializers == pre.result.data_initializers
        &&& post.result.tunables == pre.result.tunables
        &&& post.result.module_translation == pre.result.module_translation
    }

    /// Everything but the module's local entity lists is unchanged.
    pub open spec fn same_but_local(pre: Self, post: Self) -> bool {
        &&& Self::same_translation_rest(pre, post)
        &&& post.imports == pre.imports
        &&& post.result.module.name == pre.result.module.name
        &&& post.result.module.imports == pre.result.module.imports
        &&& post.result.module.exports == pre.result.module.exports
        &&& post.result.module.start_func == pre.result.module.start_func
        &&& post.result.module.table_elements == pre.result.module.table_elements
        &&& post.result.module.passive_elements == pre.result.module.passive_elements
        &&& post.result.module.passive_data == pre.result.module.passive_data
        &&& post.result.module.func_names == pre.result.module.func_names
    }

    /// Allocates the environment data structures.
    pub fn new(tunables: Tunables) -> (r: Self)
        ensures
            r.wf(),
            r.result.module.imports@.len() == 0,
            r.result.module.exports@.len() == 0,
            r.result.module.start_func is None,
            r.result.module.local.signatures@.len() == 0,
            r.result.module.local.functions@.len() == 0,
            r.result.module.local.table_plans@.len() == 0,
            r.result.module.local.memory_plans@.len() == 0,
            r.result.module.local.globals@.len() == 0,
            r.result.module.local.num_imported_funcs == 0,
            r.result.module.local.num_imported_tables == 0,
            r.result.module.local.num_imported_memories == 0,
            r.result.module.local.num_imported_globals == 0,
            r.result.module.table_elements@.len() == 0,
            r.result.module.passive_elements@.len() == 0,
            r.result.module.passive_data@.len() == 0,
            r.result.module.func_names@.len() == 0,
            r.result.function_body_inputs@.len() == 0,
            r.result.data_initializers@.len() == 0,
            r.result.tunables == tunables,
            r.result.module_translation is None,
    {
        ModuleEnvironment {
            result: ModuleTranslation {
                module: Module::new(),
                function_body_inputs: Vec::new(),
                data_initializers: Vec::new(),
                tunables,
                module_translation: None,
            },
            imports: 0,
        }
    }

    /// Record an export of `export` under `name`, replacing an earlier export
    /// of the same name.
    pub fn declare_export(&mut self, export: ExportIndex, name: &str) -> (r: WasmResult<()>)
        requires
            old(self).wf(),
        ensures
            r is Ok,
            final(self).wf(),
            spec_inserted_export(
                old(self).result.module.exports@,
                final(self).result.module.exports@,
                name@,
                export,
            ),
            Self::same_translation_rest(*old(self), *final(self)),
            final(self).imports == old(self).imports,
            final(self).result.module.name == old(self).result.module.name,
            final(self).result.module.imports == old(self).result.module.imports,
            final(self).result.module.start_func == old(self).result.module.start_func,
            final(self).result.module.table_elements == old(self).result.module.table_elements,
            final(self).result.module.passive_elements == old(self).result.module.passive_elements,
            final(self).result.module.passive_data == old(self).result.module.passive_data,
            final(self).result.module.func_names == old(self).result.module.func_names,
            final(self).result.module.local == old(self).result.module.local,
    {
        insert_export(&mut self.result.module.exports, name, export);
        Ok(())
    }

    /// Record an import of `import` from `(module, field)`. The caller
    /// declares the imported entity itself and advances the import counter.
    pub fn declare_import(&mut self, import: ImportIndex, module: &str, field: &str) -> (r:
        WasmResult<()>)
        requires
            old(self).result.module.imports@.len() < u32::MAX,
        ensures
            r is Ok,
            ({
                let o = old(self).result.module.imports@;
                let n = final(self).result.module.imports@;
                &&& n.len() == o.len() + 1
                &&& n[o.len() as int].0.0@ == module@
                &&& n[o.len() as int].0.1@ == field@
                &&& n[o.len() as int].0.2 == old(self).spec_imports()
                &&& n[o.len() as int].1 == import
                &&& forall|j: int| 0 <= j < o.len() ==> n[j] == o[j]
            }),
            Self::same_translation_rest(*old(self), *final(self)),
            final(self).imports == old(self).imports,
            final(self).result.module.name == old(self).result.module.name,
            final(self).result.module.exports == old(self).result.module.exports,
            final(self).result.module.start_func == old(self).result.module.start_func,
            final(self).result.module.table_elements == old(self).result.module.table_elements,
            final(self).result.module.passive_elements == old(self).result.module.passive_elements,
            final(self).result.module.passive_data == old(self).result.module.passive_data,
            final(self).result.module.func_names == old(self).result.module.func_names,
            final(self).result.module.local == old(self).result.module.local,
    {
        self.result.module.imports.push(
            ((module.to_owned(), field.to_owned(), self.imports), import),
        );
        Ok(())
    }

    /// Reserve space for `num` signature declarations.
    pub fn reserve_signatures(&mut self, _num: u32) -> (r: WasmResult<()>)
        ensures
            r is Ok,
            *final(self) == *old(self),
    {
        Ok(())
    }

    /// Record a declared function signature.
    pub fn declare_signature(&mut self, sig: FuncType) -> (r: WasmResult<()>)
        requires
            old(self).wf(),
        ensures
            r is Ok,
            final(self).wf(),
            final(self).result.module.local.signatures@ == old(
                self,
            ).result.module.local.signatures@.push(sig),
            final(self).result.module.local.num_imported_funcs == old(
                self,
            ).result.module.local.num_imported_funcs,
            final(self).result.module.local.num_imported_tables == old(
                self,
            ).result.module.local.num_imported_tables,
            final(self).result.module.local.num_imported_memories == old(
                self,
            ).result.module.local.num_imported_memories,
            final(self).result.module.local.num_imported_globals == old(
                self,
            ).result.module.local.num_imported_globals,
            final(self).result.module.local.functions == old(self).result.module.local.functions,
            final(self).result.module.local.table_plans == old(self).result.module.local.table_plans,
            final(self).result.module.local.memory_plans == old(self).result.module.local.memory_plans,
            final(self).result.module.local.globals == old(self).result.module.local.globals,
            Self::same_but_local(*old(self), *final(self)),
    {
        // Signatures are recorded as they come; callers may later fold equal
        // ones to one canonical signature index.
        self.result.module.local.signatures.push(sig);
        Ok(())
    }

    /// Record an imported function of signature `sig_index` from
    /// `(module, field)`. Imported functions must be declared before any
    /// local function.
    pub fn declare_func_import(
        &mut self,
        sig_index: SignatureIndex,
        module: &str,
        field: &str,
    ) -> (r: WasmResult<()>)
        requires
            old(self).wf(),
            old(self).result.module.local.functions@.len() == old(
                self,
            ).result.module.local.num_imported_funcs,
            old(self).result.module.local.num_imported_funcs < u32::MAX,
            old(self).spec_imports() < u32::MAX,
            sig_index.0 < old(self).result.module.local.signatures@.len(),
        ensures
            r is Ok,
            final(self).wf(),
            final(self).result.module.local.functions@ == old(
                self,
            ).result.module.local.functions@.push(sig_index),
            final(self).result.module.local.num_imported_funcs == old(
                self,
            ).result.module.local.num_imported_funcs + 1,
            final(self).result.module.imports@.len() == old(self).result.module.imports@.len() + 1,
            ({
                let o = old(self).result.module.imports@;
                let n = final(self).result.module.imports@;
                &&& n[o.len() as int].0.0@ == module@
                &&& n[o.len() as int].0.1@ == field@
                &&& n[o.len() as int].1 == ImportIndex::Function(
                    FuncIndex(old(self).result.module.local.num_imported_funcs as u32),
                )
                &&& forall|j: int| 0 <= j < o.len() ==> n[j] == o[j]
            }),
            final(self).spec_imports() == old(self).spec_imports() + 1,
            Self::same_translation_rest(*old(self), *final(self)),
            final(self).result.module.local.signatures == old(self).result.module.local.signatures,
            final(self).result.module.local.table_plans == old(self).result.module.local.table_plans,
            final(self).result.module.local.memory_plans == old(self).result.module.local.memory_plans,
            final(self).result.module.local.globals == old(self).result.module.local.globals,
            final(self).result.module.local.num_imported_tables == old(
                self,
            ).result.module.local.num_imported_tables,
            final(self).result.module.local.num_imported_memories == old(
                self,
            ).result.module.local.num_imported_memories,
            final(self).result.module.local.num_imported_globals == old(
                self,
            ).result.module.local.num_imported_globals,
            final(self).result.module.name == old(self).result.module.name,
            final(self).result.module.exports == old(self).result.module.exports,
            final(self).result.module.start_func == old(self).result.module.start_func,
            final(self).result.module.table_elements == old(self).result.module.table_elements,
            final(self).result.module.passive_elements == old(self).result.module.passive_elements,
            final(self).result.module.passive_data == old(self).result.module.passive_data,
            final(self).result.module.func_names == old(self).result.module.func_names,
    {
        let num = self.result.module.local.num_imported_funcs;
        let idx = FuncIndex::from_u32(num as u32);
        let res = self.declare_import(ImportIndex::Function(idx), module, field);
        match res {
            Ok(()) => (),
            Err(_) => unreached(),
        }
        self.result.module.local.functions.push(sig_index);
        self.result.module.local.num_imported_funcs = num + 1;
        self.imports = self.imports + 1;
        Ok(())
    }

    /// Record an imported table from `(module, field)`. Imported tables must
    /// be declared before any local table.
    pub fn declare_table_import(&mut self, table: TableType, module: &str, field: &str) -> (r:
        WasmResult<()>)
        requires
            old(self).wf(),
            old(self).result.module.local.table_plans@.len() == old(
                self,
            ).result.module.local.num_imported_tables,
            old(self).result.module.local.num_imported_tables < u32::MAX,
            old(self).spec_imports() < u32::MAX,
        ensures
            r is Ok,
            final(self).wf(),
            final(self).result.module.local.table_plans@ == old(
                self,
            ).result.module.local.table_plans@.push(
                TablePlan { table, style: crate::module::TableStyle::CallerChecksSignature },
            ),
            final(self).result.module.local.num_imported_tables == old(
                self,
            ).result.module.local.num_imported_tables + 1,
            final(self).result.module.imports@.len() == old(self).result.module.imports@.len() + 1,
            ({
                let o = old(self).result.module.imports@;
                let n = final(self).result.module.imports@;
                &&& n[o.len() as int].0.0@ == module@
                &&& n[o.len() as int].0.1@ == field@
                &&& n[o.len() as int].1 == ImportIndex::Table(
                    TableIndex(old(self).result.module.local.num_imported_tables as u32),
                )
                &&& forall|j: int| 0 <= j < o.len() ==> n[j] == o[j]
            }),
            final(self).spec_imports() == old(self).spec_imports() + 1,
            Self::same_translation_rest(*old(self), *final(self)),
            final(self).result.module.local.signatures == old(self).result.module.local.signatures,
            final(self).result.module.local.functions == old(self).result.module.local.functions,
            final(self).result.module.local.memory_plans == old(self).result.module.local.memory_plans,
            final(self).result.module.local.globals == old(self).result.module.local.globals,
            final(self).result.module.local.num_imported_funcs == old(
                self,
            ).result.module.local.num_imported_funcs,
            final(self).result.module.local.num_imported_memories == old(
                self,
            ).result.module.local.num_imported_memories,
            final(self).result.module.local.num_imported_globals == old(
                self,
            ).result.module.local.num_imported_globals,
            final(self).result.module.name == old(self).result.module.name,
            final(self).result.module.exports == old(self).result.module.exports,
            final(self).result.module.start_func == old(self).result.module.start_func,
            final(self).result.module.table_elements == old(self).result.module.table_elements,
            final(self).result.module.passive_elements == old(self).result.module.passive_elements,
            final(self).result.module.passive_data == old(self).result.module.passive_data,
            final(self).result.module.func_names == old(self).result.module.func_names,
    {
        let num = self.result.module.local.num_imported_tables;
        let idx = TableIndex::from_u32(num as u32);
        let res = self.declare_import(ImportIndex::Table(idx), module, field);
        match res {
            Ok(()) => (),
            Err(_) => unreached(),
        }
        let plan = TablePlan::for_table(table, &self.result.tunables);
        self.result.module.local.table_plans.push(plan);
        self.result.module.local.num_imported_tables = num + 1;
        self.imports = self.imports + 1;
        Ok(())
    }

    /// Record an imported memory from `(module, field)`. Imported memories
    /// must be declared before any local memory. A shared memory is refused.
    pub fn declare_memory_import(&mut self, memory: MemoryType, module: &str, field: &str) -> (r:
        WasmResult<()>)
        requires
            old(self).wf(),
            old(self).result.module.local.memory_plans@.len() == old(
                self,
            ).result.module.local.num_imported_memories,
            old(self).result.module.local.num_imported_memories < u32::MAX,
            old(self).spec_imports() < u32::MAX,
        ensures
            final(self).wf(),
            r is Ok <==> !memory.shared,
            memory.shared ==> *final(self) == *old(self) && match r {
                Err(WasmError::Unsupported(msg)) => msg@
                    == "shared memories are not supported yet"@,
                _ => false,
            },
            !memory.shared ==> {
                &&& final(self).result.module.local.memory_plans@ == old(
                    self,
                ).result.module.local.memory_plans@.push(
                    MemoryPlan::spec_for_memory(memory, old(self).result.tunables),
                )
                &&& final(self).result.module.local.num_imported_memories == old(
                    self,
                ).result.module.local.num_imported_memories + 1
                &&& final(self).result.module.imports@.len() == old(self).result.module.imports@.len()
                    + 1
                &&& ({
                    let o = old(self).result.module.imports@;
                    let n = final(self).result.module.imports@;
                    &&& n[o.len() as int].0.0@ == module@
                    &&& n[o.len() as int].0.1@ == field@
                    &&& n[o.len() as int].1 == ImportIndex::Memory(
                        MemoryIndex(old(self).result.module.local.num_imported_memories as u32),
                    )
                    &&& forall|j: int| 0 <= j < o.len() ==> n[j] == o[j]
                })
                &&& final(self).spec_imports() == old(self).spec_imports() + 1
                &&& Self::same_translation_rest(*old(self), *final(self))
                &&& final(self).result.module.local.signatures == old(
                    self,
                ).result.module.local.signatures
                &&& final(self).result.module.local.functions == old(self).result.module.local.functions
                &&& final(self).result.module.local.table_plans == old(
                    self,
                ).result.module.local.table_plans
                &&& final(self).result.module.local.globals == old(self).result.module.local.globals
                &&& final(self).result.module.local.num_imported_funcs == old(
                    self,
                ).result.module.local.num_imported_funcs
                &&& final(self).result.module.local.num_imported_tables == old(
                    self,
                ).result.module.local.num_imported_tables
                &&& final(self).result.module.local.num_imported_globals == old(
                    self,
                ).result.module.local.num_imported_globals
                &&& final(self).result.module.name == old(self).result.module.name
                &&& final(self).result.module.exports == old(self).result.module.exports
                &&& final(self).result.module.start_func == old(self).result.module.start_func
                &&& final(self).result.module.table_elements == old(self).result.module.table_elements
                &&& final(self).result.module.passive_elements == old(
                    self,
                ).result.module.passive_elements
                &&& final(self).result.module.passive_data == old(self).result.module.passive_data
                &&& final(self).result.module.func_names == old(self).result.module.func_names
            },
    {
        if memory.shared {
            return Err(WasmError::Unsupported("shared memories are not supported yet".to_owned()));
        }
        let num = self.result.module.local.num_imported_memories;
        let idx = MemoryIndex::from_u32(num as u32);
        let res = self.declare_import(ImportIndex::Memory(idx), module, field);
        match res {
            Ok(()) => (),
            Err(_) => unreached(),
        }
        let plan = MemoryPlan::for_memory(memory, &self.result.tunables);
        self.result.module.local.memory_plans.push(plan);
        self.result.module.local.num_imported_memories = num + 1;
        self.imports = self.imports + 1;
        Ok(())
    }

    /// Record an imported global from `(module, field)`. Imported globals
    /// must be declared before any local global.
    pub fn declare_global_import(&mut self, global: GlobalType, module: &str, field: &str) -> (r:
        WasmResult<()>)
        requires
            old(self).wf(),
            old(self).result.module.local.globals@.len() == old(
                self,
            ).result.module.local.num_imported_globals,
            old(self).result.module.local.num_imported_globals < u32::MAX,
            old(self).spec_imports() < u32::MAX,
        ensures
            r is Ok,
            final(self).wf(),
            final(self).result.module.local.globals@ == old(self).result.module.local.globals@.push(
                global,
            ),
            final(self).result.module.local.num_imported_globals == old(
                self,
            ).result.module.local.num_imported_globals + 1,
            final(self).result.module.imports@.len() == old(self).result.module.imports@.len() + 1,
            ({
                let o = old(self).result.module.imports@;
                let n = final(self).result.module.imports@;
                &&& n[o.len() as int].0.0@ == module@
                &&& n[o.len() as int].0.1@ == field@
                &&& n[o.len() as int].1 == ImportIndex::Global(
                    GlobalIndex(old(self).result.module.local.num_imported_globals as u32),
                )
                &&& forall|j: int| 0 <= j < o.len() ==> n[j] == o[j]
            }),
            final(self).spec_imports() == old(self).spec_imports() + 1,
            Self::same_translation_rest(*old(self), *final(self)),
            final(self).result.module.local.signatures == old(self).result.module.local.signatures,
            final(self).result.module.local.functions == old(self).result.module.local.functions,
            final(self).result.module.local.table_plans == old(self).result.module.local.table_plans,
            final(self).result.module.local.memory_plans == old(self).result.module.local.memory_plans,
            final(self).result.module.local.num_imported_funcs == old(
                self,
            ).result.module.local.num_imported_funcs,
            final(self).result.module.local.num_imported_tables == old(
                self,
            ).result.module.local.num_imported_tables,
            final(self).result.module.local.num_imported_memories == old(
                self,
            ).result.module.local.num_imported_memories,
            final(self).result.module.name == old(self).result.module.name,
            final(self).result.module.exports == old(self).result.module.exports,
            final(self).result.module.start_func == old(self).result.module.start_func,
            final(self).result.module.table_elements == old(self).result.module.table_elements,
            final(self).result.module.passive_elements == old(self).result.module.passive_elements,
            final(self).result.module.passive_data == old(self).result.module.passive_data,
            final(self).result.module.func_names == old(self).result.module.func_names,
    {
        let num = self.result.module.local.num_imported_globals;
        let idx = GlobalIndex::from_u32(num as u32);
        let res = self.declare_import(ImportIndex::Global(idx), module, field);
        match res {
            Ok(()) => (),
            Err(_) => unreached(),
        }
        self.result.module.local.globals.push(global);
        self.result.module.local.num_imported_globals = num + 1;
        self.imports = self.imports + 1;
        Ok(())
    }

    /// Notifies the environment that all imports have been declared.
    pub fn finish_imports(&mut self) -> (r: WasmResult<()>)
        ensures
            r is Ok,
            *final(self) == *old(self),
    {
        Ok(())
    }

    /// Reserve space for `num` local function declarations.
    pub fn reserve_func_types(&mut self, _num: u32) -> (r: WasmResult<()>)
        ensures
            r is Ok,
            *final(self) == *old(self),
    {
        Ok(())
    }

    /// Record a local function of signature `sig_index`.
    pub fn declare_func_type(&mut self, sig_index: SignatureIndex) -> (r: WasmResult<()>)
        requires
            old(self).wf(),
            sig_index.0 < old(self).result.module.local.signatures@.len(),
        ensures
            r is Ok,
            final(self).wf(),
            final(self).result.module.local.functions@ == old(
                self,
            ).result.module.local.functions@.push(sig_index),
            final(self).result.module.local.signatures == old(self).result.module.local.signatures,
            final(self).result.module.local.table_plans == old(self).result.module.local.table_plans,
            final(self).result.module.local.memory_plans == old(self).result.module.local.memory_plans,
            final(self).result.module.local.globals == old(self).result.module.local.globals,
            final(self).result.module.local.num_imported_funcs == old(
                self,
            ).result.module.local.num_imported_funcs,
            final(self).result.module.local.num_imported_tables == old(
                self,
            ).result.module.local.num_imported_tables,
            final(self).result.module.local.num_imported_memories == old(
                self,
            ).result.module.local.num_imported_memories,
            final(self).result.module.local.num_imported_globals == old(
                self,
            ).result.module.local.num_imported_globals,
            Self::same_but_local(*old(self), *final(self)),
    {
        self.result.module.local.functions.push(sig_index);
        Ok(())
    }

    /// Reserve space for `num` local table declarations.
    pub fn reserve_tables(&mut self, _num: u32) -> (r: WasmResult<()>)
        ensures
            r is Ok,
            *final(self) == *old(self),
    {
        Ok(())
    }

    /// Record a local table.
    pub fn declare_table(&mut self, table: TableType) -> (r: WasmResult<()>)
        requires
            old(self).wf(),
        ensures
            r is Ok,
            final(self).wf(),
            final(self).result.module.local.table_plans@ == old(
                self,
            ).result.module.local.table_plans@.push(
                TablePlan { table, style: crate::module::TableStyle::CallerChecksSignature },
            ),
            final(self).result.module.local.signatures == old(self).result.module.local.signatures,
            final(self).result.module.local.functions == old(self).result.module.local.functions,
            final(self).result.module.local.memory_plans == old(self).result.module.local.memory_plans,
            final(self).result.module.local.globals == old(self).result.module.local.globals,
            final(self).result.module.local.num_imported_funcs == old(
                self,
            ).result.module.local.num_imported_funcs,
            final(self).result.module.local.num_imported_tables == old(
                self,
            ).result.module.local.num_imported_tables,
            final(self).result.module.local.num_imported_memories == old(
                self,
            ).result.module.local.num_imported_memories,
            final(self).result.module.local.num_imported_globals == old(
                self,
            ).result.module.local.num_imported_globals,
            Self::same_but_local(*old(self), *final(self)),
    {
        let plan = TablePlan::for_table(table, &self.result.tunables);
        self.result.module.local.table_plans.push(plan);
        Ok(())
    }

    /// Reserve space for `num` local memory declarations.
    pub fn reserve_memories(&mut self, _num: u32) -> (r: WasmResult<()>)
        ensures
            r is Ok,
            *final(self) == *old(self),
    {
        Ok(())
    }

    /// Record a local memory. A shared memory is refused with an
    /// `Unsupported` error.
    pub fn declare_memory(&mut self, memory: MemoryType) -> (r: WasmResult<()>)
        requires
            old(self).wf(),
        ensures
            final(self).wf(),
            r is Ok <==> !memory.shared,
            memory.shared ==> *final(self) == *old(self) && match r {
                Err(WasmError::Unsupported(msg)) => msg@
                    == "shared memories are not supported yet"@,
                _ => false,
            },
            !memory.shared ==> {
                &&& final(self).result.module.local.memory_plans@ == old(
                    self,
                ).result.module.local.memory_plans@.push(
                    MemoryPlan::spec_for_memory(memory, old(self).result.tunables),
                )
                &&& final(self).result.module.local.signatures == old(
                    self,
                ).result.module.local.signatures
                &&& final(self).result.module.local.functions == old(self).result.module.local.functions
                &&& final(self).result.module.local.table_plans == old(
                    self,
                ).result.module.local.table_plans
                &&& final(self).result.module.local.globals == old(self).result.module.local.globals
                &&& final(self).result.module.local.num_imported_funcs == old(
                    self,
                ).result.module.local.num_imported_funcs
                &&& final(self).result.module.local.num_imported_tables == old(
                    self,
                ).result.module.local.num_imported_tables
                &&& final(self).result.module.local.num_imported_memories == old(
                    self,
                ).result.module.local.num_imported_memories
                &&& final(self).result.module.local.num_imported_globals == old(
                    self,
                ).result.module.local.num_imported_globals
                &&& Self::same_but_local(*old(self), *final(self))
            },
    {
        if memory.shared {
            return Err(WasmError::Unsupported("shared memories are not supported yet".to_owned()));
        }
        let plan = MemoryPlan::for_memory(memory, &self.result.tunables);
        self.result.module.local.memory_plans.push(plan);
        Ok(())
    }

    /// Reserve space for `num` local global declarations.
    pub fn reserve_globals(&mut self, _num: u32) -> (r: WasmResult<()>)
        ensures
            r is Ok,
            *final(self) == *old(self),
    {
        Ok(())
    }

    /// Record a local global.
    pub fn declare_global(&mut self, global: GlobalType) -> (r: WasmResult<()>)
        requires
            old(self).wf(),
        ensures
            r is Ok,
            final(self).wf(),
            final(self).result.module.local.globals@ == old(self).result.module.local.globals@.push(
                global,
            ),
            final(self).result.module.local.signatures == old(self).result.module.local.signatures,
            final(self).result.module.local.functions == old(self).result.module.local.functions,
            final(self).result.module.local.table_plans == old(self).result.module.local.table_plans,
            final(self).result.module.local.memory_plans == old(self).result.module.local.memory_plans,
            final(self).result.module.local.num_imported_funcs == old(
                self,
            ).result.module.local.num_imported_funcs,
            final(self).result.module.local.num_imported_tables == old(
                self,
            ).result.module.local.num_imported_tables,
            final(self).result.module.local.num_imported_memories == old(
                self,
            ).result.module.local.num_imported_memories,
            final(self).result.module.local.num_imported_globals == old(
                self,
            ).result.module.local.num_imported_globals,
            Self::same_but_local(*old(self), *final(self)),
    {
        self.result.module.local.globals.push(global);
        Ok(())
    }

    /// Reserve space for `num` exports.
    pub fn reserve_exports(&mut self, _num: u32) -> (r: WasmResult<()>)
        ensures
            r is Ok,
            *final(self) == *old(self),
    {
        Ok(())
    }

    /// Record an export of function `func_index` under `name`.
    pub fn declare_func_export(&mut self, func_index: FuncIndex, name: &str) -> (r: WasmResult<()>)
        requires
            old(self).wf(),
        ensures
            r is Ok,
            final(self).wf(),
            spec_inserted_export(
                old(self).result.module.exports@,
                final(self).result.module.exports@,
                name@,
                ExportIndex::Function(func_index),
            ),
            Self::same_translation_rest(*old(self), *final(self)),
            final(self).imports == old(self).imports,
            final(self).result.module.name == old(self).result.module.name,
            final(self).result.module.imports == old(self).result.module.imports,
            final(self).result.module.start_func == old(self).result.module.start_func,
            final(self).result.module.table_elements == old(self).result.module.table_elements,
            final(self).result.module.passive_elements == old(self).result.module.passive_elements,
            final(self).result.module.passive_data == old(self).result.module.passive_data,
            final(self).result.module.func_names == old(self).result.module.func_names,
            final(self).result.module.local == old(self).result.module.local,
    {
        self.declare_export(ExportIndex::Function(func_index), name)
    }

    /// Record an export of table `table_index` under `name`.
    pub fn declare_table_export(&mut self, table_index: TableIndex, name: &str) -> (r: WasmResult<
        (),
    >)
        requires
            old(self).wf(),
        ensures
            r is Ok,
            final(self).wf(),
            spec_inserted_export(
                old(self).result.module.exports@,
                final(self).result.module.exports@,
                name@,
                ExportIndex::Table(table_index),
            ),
            Self::same_translation_rest(*old(self), *final(self)),
            final(self).imports == old(self).imports,
            final(self).result.module.name == old(self).result.module.name,
            final(self).result.module.imports == old(self).result.module.imports,
            final(self).result.module.start_func == old(self).result.module.start_func,
            final(self).result.module.table_elements == old(self).result.module.table_elements,
            final(self).result.module.passive_elements == old(self).result.module.passive_elements,
            final(self).result.module.passive_data == old(self).result.module.passive_data,
            final(self).result.module.func_names == old(self).result.module.func_names,
            final(self).result.module.local == old(self).result.module.local,
    {
        self.declare_export(ExportIndex::Table(table_index), name)
    }

    /// Record an export of memory `memory_index` under `name`.
    pub fn declare_memory_export(&mut self, memory_index: MemoryIndex, name: &str) -> (r:
        WasmResult<()>)
        requires
            old(self).wf(),
        ensures
            r is Ok,
            final(self).wf(),
            spec_inserted_export(
                old(self).result.module.exports@,
                final(self).result.module.exports@,
                name@,
                ExportIndex::Memory(memory_index),
            ),
            Self::same_translation_rest(*old(self), *final(self)),
            final(self).imports == old(self).imports,
            final(self).result.module.name == old(self).result.module.name,
            final(self).result.module.imports == old(self).result.module.imports,
            final(self).result.module.start_func == old(self).result.module.start_func,
            final(self).result.module.table_elements == old(self).result.module.table_elements,
            final(self).result.module.passive_elements == old(self).result.module.passive_elements,
            final(self).result.module.passive_data == old(self).result.module.passive_data,
            final(self).result.module.func_names == old(self).result.module.func_names,
            final(self).result.module.local == old(self).result.module.local,
    {
        self.declare_export(ExportIndex::Memory(memory_index), name)
    }

    /// Record an export of global `global_index` under `name`.
    pub fn declare_global_export(&mut self, global_index: GlobalIndex, name: &str) -> (r:
        WasmResult<()>)
        requires
            old(self).wf(),
        ensures
            r is Ok,
            final(self).wf(),
            spec_inserted_export(
                old(self).result.module.exports@,
                final(self).result.module.exports@,
                name@,
                ExportIndex::Global(global_index),
            ),
            Self::same_translation_rest(*old(self), *final(self)),
            final(self).imports == old(self).imports,
            final(self).result.module.name == old(self).result.module.name,
            final(self).result.module.imports == old(self).result.module.imports,
            final(self).result.module.start_func == old(self).result.module.start_func,
            final(self).result.module.table_elements == old(self).result.module.table_elements,
            final(self).result.module.passive_elements == old(self).result.module.passive_elements,
            final(self).result.module.passive_data == old(self).result.module.passive_data,
            final(self).result.module.func_names == old(self).result.module.func_names,
            final(self).result.module.local == old(self).result.module.local,
    {
        self.declare_export(ExportIndex::Global(global_index), name)
    }

    /// Record the start function. A module has at most one.
    pub fn declare_start_func(&mut self, func_index: FuncIndex) -> (r: WasmResult<()>)
        requires
            old(self).wf(),
            old(self).result.module.start_func is None,
            func_index.0 < old(self).result.module.local.functions@.len(),
        ensures
            r is Ok,
            final(self).wf(),
            final(self).result.module.start_func == Some(func_index),
            Self::same_translation_rest(*old(self), *final(self)),
            final(self).imports == old(self).imports,
            final(self).result.module.name == old(self).result.module.name,
            final(self).result.module.imports == old(self).result.module.imports,
            final(self).result.module.exports == old(self).result.module.exports,
            final(self).result.module.table_elements == old(self).result.module.table_elements,
            final(self).result.module.passive_elements == old(self).result.module.passive_elements,
            final(self).result.module.passive_data == old(self).result.module.passive_data,
            final(self).result.module.func_names == old(self).result.module.func_names,
            final(self).result.module.local == old(self).result.module.local,
    {
        self.result.module.start_func = Some(func_index);
        Ok(())
    }

    /// Reserve space for `num` active element segments.
    pub fn reserve_table_elements(&mut self, _num: u32) -> (r: WasmResult<()>)
        ensures
            r is Ok,
            *final(self) == *old(self),
    {
        Ok(())
    }

    /// Record an active element segment.
    pub fn declare_table_elements(
        &mut self,
        table_index: TableIndex,
        base: Option<GlobalIndex>,
        offset: usize,
        elements: Vec<FuncIndex>,
    ) -> (r: WasmResult<()>)
        requires
            old(self).wf(),
        ensures
            r is Ok,
            final(self).wf(),
            final(self).result.module.table_elements@.len() == old(
                self,
            ).result.module.table_elements@.len() + 1,
            ({
                let o = old(self).result.module.table_elements@;
                let n = final(self).result.module.table_elements@;
                &&& n[o.len() as int].table_index == table_index
                &&& n[o.len() as int].base == base
                &&& n[o.len() as int].offset == offset
                &&& n[o.len() as int].elements == elements
                &&& forall|j: int| 0 <= j < o.len() ==> n[j] == o[j]
            }),
            Self::same_translation_rest(*old(self), *final(self)),
            final(self).imports == old(self).imports,
            final(self).result.module.name == old(self).result.module.name,
            final(self).result.module.imports == old(self).result.module.imports,
            final(self).result.module.exports == old(self).result.module.exports,
            final(self).result.module.start_func == old(self).result.module.start_func,
            final(self).result.module.passive_elements == old(self).result.module.passive_elements,
            final(self).result.module.passive_data == old(self).result.module.passive_data,
            final(self).result.module.func_names == old(self).result.module.func_names,
            final(self).result.module.local == old(self).result.module.local,
    {
        self.result.module.table_elements.push(
            TableElements { table_index, base, offset, elements },
        );
        Ok(())
    }

    /// Record a passive element segment. A segment index is declared at most
    /// once; a duplicate would be a bug in the decoder.
    pub fn declare_passive_element(&mut self, elem_index: ElemIndex, segments: Vec<FuncIndex>) -> (
        r: WasmResult<()>)
        requires
            old(self).wf(),
            forall|i: int|
                0 <= i < old(self).result.module.passive_elements@.len() ==> (#[trigger] old(
                    self,
                ).result.module.passive_elements@[i]).0 != elem_index,
        ensures
            r is Ok,
            final(self).wf(),
            final(self).result.module.passive_elements@ == old(
                self,
            ).result.module.passive_elements@.push((elem_index, segments)),
            Self::same_translation_rest(*old(self), *final(self)),
            final(self).imports == old(self).imports,
            final(self).result.module.name == old(self).result.module.name,
            final(self).result.module.imports == old(self).result.module.imports,
            final(self).result.module.exports == old(self).result.module.exports,
            final(self).result.module.start_func == old(self).result.module.start_func,
            final(self).result.module.table_elements == old(self).result.module.table_elements,
            final(self).result.module.passive_data == old(self).result.module.passive_data,
            final(self).result.module.func_names == old(self).result.module.func_names,
            final(self).result.module.local == old(self).result.module.local,
    {
        self.result.module.passive_elements.push((elem_index, segments));
        Ok(())
    }

    /// Record one function body.
    pub fn define_function_body(
        &mut self,
        _module_translation: &ModuleTranslationState,
        body_bytes: Vec<u8>,
        body_offset: usize,
    ) -> (r: WasmResult<()>)
        requires
            old(self).wf(),
        ensures
            r is Ok,
            final(self).wf(),
            final(self).result.function_body_inputs@.len() == old(
                self,
            ).result.function_body_inputs@.len() + 1,
            ({
                let o = old(self).result.function_body_inputs@;
                let n = final(self).result.function_body_inputs@;
                &&& n[o.len() as int].data == body_bytes
                &&& n[o.len() as int].module_offset == body_offset
                &&& forall|j: int| 0 <= j < o.len() ==> n[j] == o[j]
            }),
            final(self).result.module == old(self).result.module,
            final(self).imports == old(self).imports,
            final(self).result.data_initializers == old(self).result.data_initializers,
            final(self).result.tunables == old(self).result.tunables,
            final(self).result.module_translation == old(self).result.module_translation,
    {
        self.result.function_body_inputs.push(
            FunctionBodyData { data: body_bytes, module_offset: body_offset },
        );
        Ok(())
    }

    /// Reserve space for `num` active data segments.
    pub fn reserve_data_initializers(&mut self, _num: u32) -> (r: WasmResult<()>)
        ensures
            r is Ok,
            *final(self) == *old(self),
    {
        Ok(())
    }

    /// Record an active data segment.
    pub fn declare_data_initialization(
        &mut self,
        memory_index: MemoryIndex,
        base: Option<GlobalIndex>,
        offset: usize,
        data: Vec<u8>,
    ) -> (r: WasmResult<()>)
        requires
            old(self).wf(),
        ensures
            r is Ok,
            final(self).wf(),
            final(self).result.data_initializers@.len() == old(self).result.data_initializers@.len() + 1,
            ({
                let o = old(self).result.data_initializers@;
                let n = final(self).result.data_initializers@;
                &&& n[o.len() as int].location.memory_index == memory_index
                &&& n[o.len() as int].location.base == base
                &&& n[o.len() as int].location.offset == offset
                &&& n[o.len() as int].data == data
                &&& forall|j: int| 0 <= j < o.len() ==> n[j] == o[j]
            }),
            final(self).result.module == old(self).result.module,
            final(self).imports == old(self).imports,
            final(self).result.function_body_inputs == old(self).result.function_body_inputs,
            final(self).result.tunables == old(self).result.tunables,
            final(self).result.module_translation == old(self).result.module_translation,
    {
        self.result.data_initializers.push(
            DataInitializer {
                location: DataInitializerLocation { memory_index, base, offset },
                data,
            },
        );
        Ok(())
    }

    /// Reserve space for `count` passive data segments.
    pub fn reserve_passive_data(&mut self, _count: u32) -> (r: WasmResult<()>)
        ensures
            r is Ok,
            *final(self) == *old(self),
    {
        Ok(())
    }

    /// Record a passive data segment. A segment index is declared at most
    /// once; a duplicate would be a bug in the decoder.
    pub fn declare_passive_data(&mut self, data_index: DataIndex, data: Vec<u8>) -> (r: WasmResult<
        (),
    >)
        requires
            old(self).wf(),
            forall|i: int|
                0 <= i < old(self).result.module.passive_data@.len() ==> (#[trigger] old(
                    self,
                ).result.module.passive_data@[i]).0 != data_index,
        ensures
            r is Ok,
            final(self).wf(),
            final(self).result.module.passive_data@ == old(self).result.module.passive_data@.push(
                (data_index, data),
            ),
            Self::same_translation_rest(*old(self), *final(self)),
            final(self).imports == old(self).imports,
            final(self).result.module.name == old(self).result.module.name,
            final(self).result.module.imports == old(self).result.module.imports,
            final(self).result.module.exports == old(self).result.module.exports,
            final(self).result.module.start_func == old(self).result.module.start_func,
            final(self).result.module.table_elements == old(self).result.module.table_elements,
            final(self).result.module.passive_elements == old(self).result.module.passive_elements,
            final(self).result.module.func_names == old(self).result.module.func_names,
            final(self).result.module.local == old(self).result.module.local,
    {
        self.result.module.passive_data.push((data_index, data));
        Ok(())
    }

    /// Record the module's own name from the name custom section.
    pub fn declare_module_name(&mut self, name: &str) -> (r: WasmResult<()>)
        requires
            old(self).wf(),
        ensures
            r is Ok,
            final(self).wf(),
            match final(self).result.module.name {
                Some(n) => n@ == name@,
                None => false,
            },
            Self::same_translation_rest(*old(self), *final(self)),
            final(self).imports == old(self).imports,
            final(self).result.module.imports == old(self).result.module.imports,
            final(self).result.module.exports == old(self).result.module.exports,
            final(self).result.module.start_func == old(self).result.module.start_func,
            final(self).result.module.table_elements == old(self).result.module.table_elements,
            final(self).result.module.passive_elements == old(self).result.module.passive_elements,
            final(self).result.module.passive_data == old(self).result.module.passive_data,
            final(self).result.module.func_names == old(self).result.module.func_names,
            final(self).result.module.local == old(self).result.module.local,
    {
        self.result.module.name = Some(name.to_owned());
        Ok(())
    }

    /// Record the name of one function from the name custom section,
    /// replacing an earlier name for the same function.
    pub fn declare_func_name(&mut self, func_index: FuncIndex, name: &str) -> (r: WasmResult<()>)
        requires
            old(self).wf(),
        ensures
            r is Ok,
            final(self).wf(),
            spec_inserted_func_name(
                old(self).result.module.func_names@,
                final(self).result.module.func_names@,
                func_index,
                name@,
            ),
            Self::same_translation_rest(*old(self), *final(self)),
            final(self).imports == old(self).imports,
            final(self).result.module.name == old(self).result.module.name,
            final(self).result.module.imports == old(self).result.module.imports,
            final(self).result.module.exports == old(self).result.module.exports,
            final(self).result.module.start_func == old(self).result.module.start_func,
            final(self).result.module.table_elements == old(self).result.module.table_elements,
            final(self).result.module.passive_elements == old(self).result.module.passive_elements,
            final(self).result.module.passive_data == old(self).result.module.passive_data,
            final(self).result.module.local == old(self).result.module.local,
    {
        insert_func_name(&mut self.result.module.func_names, func_index, name);
        Ok(())
    }

    /// Provides the number of imports up front. The environment needs no
    /// preallocation for them.
    pub fn reserve_imports(&mut self, _num: u32) -> (r: WasmResult<()>)
        ensures
            r is Ok,
            *final(self) == *old(self),
    {
        Ok(())
    }

    /// Notifies the environment that all exports have been declared.
    pub fn finish_exports(&mut self) -> (r: WasmResult<()>)
        ensures
            r is Ok,
            *final(self) == *old(self),
    {
        Ok(())
    }

    /// Translate a wasm module using this environment. This consumes the
    /// `ModuleEnvironment` and produces a `ModuleTranslation`. The
    /// environment must be freshly created.
    pub fn translate(self, data: &[u8]) -> (r: WasmResult<ModuleTranslation>)
        requires
            self.wf(),
            self.result.module_translation is None,
            self.result.module.local.signatures@.len() == 0,
            self.result.module.local.functions@.len() == 0,
            self.result.module.local.table_plans@.len() == 0,
            self.result.module.local.memory_plans@.len() == 0,
            self.result.module.local.globals@.len() == 0,
            self.result.module.local.num_imported_funcs == 0,
            self.result.module.local.num_imported_tables == 0,
            self.result.module.local.num_imported_memories == 0,
            self.result.module.local.num_imported_globals == 0,
            self.result.module.start_func is None,
            self.result.module.passive_elements@.len() == 0,
            self.result.module.passive_data@.len() == 0,
        ensures
            match r {
                Ok(t) => {
                    &&& t.module.wf()
                    &&& t.module_translation is Some
                    &&& t.tunables == self.result.tunables
                    &&& crate::module::spec_memory_plans_wf(
                        t.module.local.memory_plans@,
                        t.tunables,
                    )
                },
                Err(_) => true,
            },
            !crate::decode::spec_header_ok(data@) ==> r is Err,
            data@.len() == 8 && crate::decode::spec_header_ok(data@) ==> r is Ok,
    {
        let mut environ = self;
        let state = match crate::decode::translate_module(data, &mut environ) {
            Ok(s) => s,
            Err(e) => {
                return Err(e);
            },
        };
        environ.result.module_translation = Some(state);
        Ok(environ.result)
    }

    /// Indicates that a custom section other than the name section has been
    /// found in the wasm file. Such sections are kept out of the translation.
    pub fn custom_section(&mut self, _name: &str, _data: &[u8]) -> (r: WasmResult<()>)
        ensures
            r is Ok,
            *final(self) == *old(self),
    {
        Ok(())
    }
}

} // verus!
