//! The artifact and its instantiation protocol: resolving imports against a
//! resolver, creating the runtime state for memories, tables and globals,
//! building an instance handle, and driving the initializers and the start
//! function to a live instance.
//!
//! The executable pages themselves, and the unwinding that carries a start
//! trap out of machine code, belong to the embedder; the protocol here
//! decides, step by step, what a resolver must supply, what state is
//! created, and which error each failure yields.

use vstd::prelude::*;
use vstd::slice::{slice_subrange, slice_to_vec};
use crate::environ::DataInitializer;
use crate::errors::{InstantiationError, LinkError, RuntimeError, TrapCode};
use crate::indexes::ImportIndex;
use crate::module::{Module, TableElements};
use crate::native::FunctionBody;
use crate::types::{FuncType, GlobalType, MemoryType, TableType, Value};
use crate::vm::TargetSharedSignatureIndex;

verus! {

/// A value an embedder supplies for one import: the host side of the link.
pub enum Extern {
    /// A function: its Wasm type and its raw callable handle.
    Function {
        /// The function's Wasm type.
        ty: FuncType,
        /// The raw callable handle.
        body: FunctionBody,
    },
    /// A table, described by its type.
    Table(TableType),
    /// A linear memory, described by its type.
    Memory(MemoryType),
    /// A global: its type and its current value.
    Global(GlobalType, Value<u32>),
}

/// A resolver from (module, field) names to externs, first entry wins.
pub struct ImportObject {
    /// The registered externs: (module, field, extern), in registration
    /// order.
    pub entries: Vec<(String, String, Extern)>,
}

/// The extern the resolver supplies for `(module, field)`: the first entry
/// whose names match.
pub open spec fn spec_lookup(
    s: Seq<(String, String, Extern)>,
    module: Seq<char>,
    field: Seq<char>,
) -> Option<Extern>
    decreases s.len(),
{
    if s.len() == 0 {
        None
    } else if s[0].0@ == module && s[0].1@ == field {
        Some(s[0].2)
    } else {
        spec_lookup(s.drop_first(), module, field)
    }
}

/// Find the first entry for `(module, field)` in a slice of entries.
fn lookup_in<'a>(
    entries: &'a [(String, String, Extern)],
    module: &String,
    field: &String,
) -> (r: Option<&'a Extern>)
    ensures
        match r {
            Some(e) => spec_lookup(entries@, module@, field@) == Some(*e),
            None => spec_lookup(entries@, module@, field@) is None,
        },
    decreases entries@.len(),
{
    if entries.len() == 0 {
        None
    } else {
        let entry = &entries[0];
        if entry.0 == *module && entry.1 == *field {
            Some(&entry.2)
        } else {
            proof {
                assert(entries@.subrange(1, entries@.len() as int) =~= entries@.drop_first());
            }
            lookup_in(slice_subrange(entries, 1, entries.len()), module, field)
        }
    }
}

impl ImportObject {
    /// An empty resolver.
    pub fn new() -> (r: Self)
        ensures
            r.entries@.len() == 0,
    {
        ImportObject { entries: Vec::new() }
    }

    /// Register `ext` under `(module, field)`. An earlier entry of the same
    /// names keeps priority.
    pub fn register(&mut self, module: &str, field: &str, ext: Extern)
        ensures
            final(self).entries@.len() == old(self).entries@.len() + 1,
            final(self).entries@[old(self).entries@.len() as int].0@ == module@,
            final(self).entries@[old(self).entries@.len() as int].1@ == field@,
            final(self).entries@[old(self).entries@.len() as int].2 == ext,
            forall|j: int|
                0 <= j < old(self).entries@.len() ==> final(self).entries@[j] == old(
                    self,
                ).entries@[j],
    {
        self.entries.push((module.to_owned(), field.to_owned(), ext));
    }

    /// The extern registered for `(module, field)`, where there is one.
    pub fn lookup(&self, module: &String, field: &String) -> (r: Option<&Extern>)
        ensures
            match r {
                Some(e) => spec_lookup(self.entries@, module@, field@) == Some(*e),
                None => spec_lookup(self.entries@, module@, field@) is None,
            },
    {
        lookup_in(self.entries.as_slice(), module, field)
    }
}

/// Whether `ext` satisfies the import `imp` declares in `module`: a function
/// must carry the declared signature; a table or memory must have the right
/// element type and limits at least as permissive as declared; a global must
/// match in value type and mutability.
pub open spec fn spec_import_matches(module: Module, imp: ImportIndex, ext: Extern) -> bool {
    match imp {
        ImportIndex::Function(f) => match ext {
            Extern::Function { ty, body } => {
                let sig = module.local.functions@[f.0 as int];
                ty.spec_eq(module.local.signatures@[sig.0 as int])
            },
            _ => false,
        },
        ImportIndex::Table(t) => match ext {
            Extern::Table(given) => {
                let want = module.local.table_plans@[t.0 as int].table;
                &&& given.ty == want.ty
                &&& given.minimum >= want.minimum
                &&& (want.maximum is None || (given.maximum is Some && given.maximum->0
                    <= want.maximum->0))
            },
            _ => false,
        },
        ImportIndex::Memory(m) => match ext {
            Extern::Memory(given) => {
                let want = module.local.memory_plans@[m.0 as int].memory;
                &&& given.minimum >= want.minimum
                &&& (want.maximum is None || (given.maximum is Some && given.maximum->0
                    <= want.maximum->0))
                &&& given.shared == want.shared
            },
            _ => false,
        },
        ImportIndex::Global(g) => match ext {
            Extern::Global(given, _) => {
                let want = module.local.globals@[g.0 as int];
                given.ty == want.ty && given.mutability == want.mutability
            },
            _ => false,
        },
    }
}

/// Check one resolved extern against the import it is meant to satisfy.
fn import_matches(module: &Module, imp: ImportIndex, ext: &Extern) -> (r: bool)
    requires
        match imp {
            ImportIndex::Function(f) => f.0 < module.local.functions@.len() && (
            module.local.functions@[f.0 as int].0 < module.local.signatures@.len()),
            ImportIndex::Table(t) => t.0 < module.local.table_plans@.len(),
            ImportIndex::Memory(m) => m.0 < module.local.memory_plans@.len(),
            ImportIndex::Global(g) => g.0 < module.local.globals@.len(),
        },
    ensures
        r == spec_import_matches(*module, imp, *ext),
{
    match imp {
        ImportIndex::Function(f) => match ext {
            Extern::Function { ty, body: _ } => {
                let sig = module.local.functions[f.0 as usize];
                *ty == module.local.signatures[sig.0 as usize]
            },
            _ => false,
        },
        ImportIndex::Table(t) => match ext {
            Extern::Table(given) => {
                let want = module.local.table_plans[t.0 as usize].table;
                let max_ok = match want.maximum {
                    Some(want_max) => match given.maximum {
                        Some(given_max) => given_max <= want_max,
                        None => false,
                    },
                    None => true,
                };
                given.ty == want.ty && given.minimum >= want.minimum && max_ok
            },
            _ => false,
        },
        ImportIndex::Memory(m) => match ext {
            Extern::Memory(given) => {
                let want = module.local.memory_plans[m.0 as usize].memory;
                let max_ok = match want.maximum {
                    Some(want_max) => match given.maximum {
                        Some(given_max) => given_max <= want_max,
                        None => false,
                    },
                    None => true,
                };
                given.minimum >= want.minimum && max_ok && given.shared == want.shared
            },
            _ => false,
        },
        ImportIndex::Global(g) => match ext {
            Extern::Global(given, _) => {
                let want = &module.local.globals[g.0 as usize];
                given.ty == want.ty && given.mutability == want.mutability
            },
            _ => false,
        },
    }
}

/// The resolver entry for import `k` of the module resolves and matches.
pub open spec fn spec_import_ok(module: Module, resolver: ImportObject, k: int) -> bool {
    let entry = module.imports@[k];
    match spec_lookup(resolver.entries@, entry.0.0@, entry.0.1@) {
        Some(ext) => spec_import_matches(module, entry.1, ext),
        None => false,
    }
}

/// The raw callable handles the resolver supplies for the function imports
/// among `imports`, in declaration order.
pub open spec fn spec_resolved_functions(
    imports: Seq<((String, String, u32), ImportIndex)>,
    resolver: ImportObject,
) -> Seq<FunctionBody>
    decreases imports.len(),
{
    if imports.len() == 0 {
        Seq::empty()
    } else {
        let prefix = spec_resolved_functions(imports.drop_last(), resolver);
        match spec_lookup(resolver.entries@, imports.last().0.0@, imports.last().0.1@) {
            Some(ext) => match ext {
                Extern::Function { ty, body } => prefix.push(body),
                _ => prefix,
            },
            None => prefix,
        }
    }
}

/// The table types the resolver supplies for the table imports among
/// `imports`, in declaration order.
pub open spec fn spec_resolved_tables(
    imports: Seq<((String, String, u32), ImportIndex)>,
    resolver: ImportObject,
) -> Seq<TableType>
    decreases imports.len(),
{
    if imports.len() == 0 {
        Seq::empty()
    } else {
        let prefix = spec_resolved_tables(imports.drop_last(), resolver);
        match spec_lookup(resolver.entries@, imports.last().0.0@, imports.last().0.1@) {
            Some(ext) => match ext {
                Extern::Table(t) => prefix.push(t),
                _ => prefix,
            },
            None => prefix,
        }
    }
}

/// The memory types the resolver supplies for the memory imports among
/// `imports`, in declaration order.
pub open spec fn spec_resolved_memories(
    imports: Seq<((String, String, u32), ImportIndex)>,
    resolver: ImportObject,
) -> Seq<MemoryType>
    decreases imports.len(),
{
    if imports.len() == 0 {
        Seq::empty()
    } else {
        let prefix = spec_resolved_memories(imports.drop_last(), resolver);
        match spec_lookup(resolver.entries@, imports.last().0.0@, imports.last().0.1@) {
            Some(ext) => match ext {
                Extern::Memory(m) => prefix.push(m),
                _ => prefix,
            },
            None => prefix,
        }
    }
}

/// The global types and values the resolver supplies for the global imports
/// among `imports`, in declaration order.
pub open spec fn spec_resolved_globals(
    imports: Seq<((String, String, u32), ImportIndex)>,
    resolver: ImportObject,
) -> Seq<(GlobalType, Value<u32>)>
    decreases imports.len(),
{
    if imports.len() == 0 {
        Seq::empty()
    } else {
        let prefix = spec_resolved_globals(imports.drop_last(), resolver);
        match spec_lookup(resolver.entries@, imports.last().0.0@, imports.last().0.1@) {
            Some(ext) => match ext {
                Extern::Global(g, v) => prefix.push((g, v)),
                _ => prefix,
            },
            None => prefix,
        }
    }
}

/// The imports an instantiation resolved, each class in declaration order.
pub struct Imports {
    /// The raw callable handles of the imported functions.
    pub functions: Vec<FunctionBody>,
    /// The types of the imported tables.
    pub tables: Vec<TableType>,
    /// The types of the imported memories.
    pub memories: Vec<MemoryType>,
    /// The types and current values of the imported globals.
    pub globals: Vec<(GlobalType, Value<u32>)>,
}

/// Resolve every declared import of `module` against `resolver`. Resolution
/// succeeds exactly when the resolver supplies a matching extern for every
/// import; the first failure is reported as a link error naming the import.
pub fn resolve_imports(module: &Module, resolver: &ImportObject) -> (r: Result<Imports, LinkError>)
    requires
        module.wf(),
    ensures
        match r {
            Ok(imports) => {
                &&& forall|k: int|
                    0 <= k < module.imports@.len() ==> spec_import_ok(*module, *resolver, k)
                &&& imports.functions@ == spec_resolved_functions(module.imports@, *resolver)
                &&& imports.tables@ == spec_resolved_tables(module.imports@, *resolver)
                &&& imports.memories@ == spec_resolved_memories(module.imports@, *resolver)
                &&& imports.globals@ == spec_resolved_globals(module.imports@, *resolver)
            },
            Err(_) => exists|k: int|
                0 <= k < module.imports@.len() && !spec_import_ok(*module, *resolver, k),
        },
{
    let mut functions: Vec<FunctionBody> = Vec::new();
    let mut tables: Vec<TableType> = Vec::new();
    let mut memories: Vec<MemoryType> = Vec::new();
    let mut globals: Vec<(GlobalType, Value<u32>)> = Vec::new();
    let n = module.imports.len();
    let mut k: usize = 0;
    while k < n
        invariant
            module.wf(),
            n == module.imports@.len(),
            k <= n,
            forall|j: int| 0 <= j < k ==> spec_import_ok(*module, *resolver, j),
            functions@ == spec_resolved_functions(
                module.imports@.subrange(0, k as int),
                *resolver,
            ),
            tables@ == spec_resolved_tables(module.imports@.subrange(0, k as int), *resolver),
            memories@ == spec_resolved_memories(module.imports@.subrange(0, k as int), *resolver),
            globals@ == spec_resolved_globals(module.imports@.subrange(0, k as int), *resolver),
        decreases n - k,
    {
        let entry = &module.imports[k];
        let ext = match resolver.lookup(&entry.0.0, &entry.0.1) {
            Some(e) => e,
            None => {
                proof {
                    assert(!spec_import_ok(*module, *resolver, k as int));
                }
                return Err(
                    LinkError::Import(
                        entry.0.0.clone(),
                        entry.0.1.clone(),
                        "unknown import".to_owned(),
                    ),
                );
            },
        };
        if !import_matches(module, entry.1, ext) {
            proof {
                assert(!spec_import_ok(*module, *resolver, k as int));
            }
            return Err(
                LinkError::Import(
                    entry.0.0.clone(),
                    entry.0.1.clone(),
                    "incompatible import type".to_owned(),
                ),
            );
        }
        match ext {
            Extern::Function { ty: _, body } => {
                functions.push(*body);
            },
            Extern::Table(t) => {
                tables.push(*t);
            },
            Extern::Memory(m) => {
                memories.push(*m);
            },
            Extern::Global(g, v) => {
                globals.push((*g, *v));
            },
        }
        proof {
            let sub1 = module.imports@.subrange(0, k + 1);
            assert(sub1.drop_last() =~= module.imports@.subrange(0, k as int));
            assert(sub1.last() == module.imports@[k as int]);
        }
        k = k + 1;
    }
    proof {
        assert(module.imports@.subrange(0, n as int) =~= module.imports@);
    }
    Ok(Imports { functions, tables, memories, globals })
}

/// Whether the runtime can create a memory of this type: the minimum must
/// stay within the 65536 pages a 32-bit Wasm memory can address, and within
/// the declared maximum.
pub open spec fn spec_memory_creatable(m: MemoryType) -> bool {
    &&& m.minimum <= 65536
    &&& (m.maximum is Some ==> m.minimum <= m.maximum->0)
}

/// Whether the runtime can create a table of this type: the minimum must
/// stay within the declared maximum.
pub open spec fn spec_table_creatable(t: TableType) -> bool {
    t.maximum is Some ==> t.minimum <= t.maximum->0
}

/// The value a defined global starts with: a constant operator's value, the
/// value of the imported global it copies, or a reference value. `None`
/// where the initializer is not evaluable: a `global.get` of anything but an
/// imported global, or an import marker on a defined global.
pub open spec fn spec_global_init_value(
    init: crate::types::GlobalInit,
    module: Module,
    imported: Seq<(GlobalType, Value<u32>)>,
) -> Option<Value<u32>> {
    match init {
        crate::types::GlobalInit::I32Const(v) => Some(Value::I32(v)),
        crate::types::GlobalInit::I64Const(v) => Some(Value::I64(v)),
        crate::types::GlobalInit::F32Const(b) => Some(Value::F32(b)),
        crate::types::GlobalInit::F64Const(b) => Some(Value::F64(b)),
        crate::types::GlobalInit::V128Const(x) => Some(Value::V128(x)),
        crate::types::GlobalInit::GetGlobal(g) => if g.0
            < module.local.num_imported_globals && g.0 < imported.len() {
            Some(imported[g.0 as int].1)
        } else {
            None
        },
        crate::types::GlobalInit::RefNullConst => Some(Value::AnyRef(0)),
        crate::types::GlobalInit::RefFunc(f) => Some(Value::FuncRef(f.0)),
        crate::types::GlobalInit::Import => None,
    }
}

/// An instance's runtime state, imported entries first in every index space.
#[derive(Debug)]
pub struct InstanceHandle {
    /// The page count of each memory.
    pub memory_pages: Vec<u32>,
    /// The element count of each table.
    pub table_sizes: Vec<u32>,
    /// The value of each global.
    pub globals: Vec<Value<u32>>,
    /// The raw callable handles of the imported functions.
    pub imported_functions: Vec<FunctionBody>,
    /// The raw callable handles of the defined functions.
    pub finished_functions: Vec<FunctionBody>,
}

/// The persistent product of compilation: everything needed to instantiate
/// the module, with the function bodies already published as raw callable
/// handles by the engine.
pub struct Artifact {
    /// The translated module.
    pub module: Module,
    /// The module's active data segments, owned.
    pub data_initializers: Vec<DataInitializer>,
    /// One raw callable handle per defined function.
    pub finished_functions: Vec<FunctionBody>,
    /// The engine-wide signature id of each declared signature.
    pub signatures: Vec<TargetSharedSignatureIndex>,
}

impl Artifact {
    /// Every memory of the module can be created.
    pub open spec fn spec_memories_creatable(self) -> bool {
        forall|i: int|
            self.module.local.num_imported_memories <= i
                < self.module.local.memory_plans@.len() ==> spec_memory_creatable(
                (#[trigger] self.module.local.memory_plans@[i]).memory,
            )
    }

    /// Every table of the module can be created.
    pub open spec fn spec_tables_creatable(self) -> bool {
        forall|i: int|
            self.module.local.num_imported_tables <= i < self.module.local.table_plans@.len()
                ==> spec_table_creatable((#[trigger] self.module.local.table_plans@[i]).table)
    }

    /// Every defined global's initializer is evaluable against the imported
    /// globals.
    pub open spec fn spec_globals_creatable(self, imported: Seq<(GlobalType, Value<u32>)>) -> bool {
        forall|i: int|
            self.module.local.num_imported_globals <= i < self.module.local.globals@.len()
                ==> spec_global_init_value(
                (#[trigger] self.module.local.globals@[i]).initializer,
                self.module,
                imported,
            ) is Some
    }

    /// Some defined global's initializer leans on an import: it reads another
    /// global or is itself marked as imported.
    pub open spec fn spec_globals_need_imports(self) -> bool {
        exists|i: int|
            self.module.local.num_imported_globals <= i < self.module.local.globals@.len() && {
                ||| (#[trigger] self.module.local.globals@[i]).initializer is GetGlobal
                ||| self.module.local.globals@[i].initializer is Import
            }
    }

    /// Instantiate the artifact against a resolver: resolve every import,
    /// create the memories, tables and globals, and assemble the instance
    /// handle. Any failure at these steps is a link error; nothing has run
    /// yet.
    pub fn instantiate(&self, resolver: &ImportObject) -> (r: Result<
        InstanceHandle,
        InstantiationError,
    >)
        requires
            self.module.wf(),
        ensures
            match r {
                Ok(h) => {
                    &&& forall|k: int|
                        0 <= k < self.module.imports@.len() ==> spec_import_ok(
                            self.module,
                            *resolver,
                            k,
                        )
                    &&& self.spec_memories_creatable()
                    &&& self.spec_tables_creatable()
                    &&& h.finished_functions@ == self.finished_functions@
                    &&& h.imported_functions@ == spec_resolved_functions(
                        self.module.imports@,
                        *resolver,
                    )
                    &&& ({
                        let m = spec_resolved_memories(self.module.imports@, *resolver);
                        &&& h.memory_pages@.len() == m.len()
                            + self.module.local.memory_plans@.len()
                            - self.module.local.num_imported_memories
                        &&& forall|j: int| 0 <= j < m.len() ==> h.memory_pages@[j] == m[j].minimum
                        &&& forall|i: int|
                            self.module.local.num_imported_memories <= i
                                < self.module.local.memory_plans@.len() ==> h.memory_pages@[m.len()
                                + i - self.module.local.num_imported_memories] == (
                            #[trigger] self.module.local.memory_plans@[i]).memory.minimum
                    })
                    &&& ({
                        let t = spec_resolved_tables(self.module.imports@, *resolver);
                        &&& h.table_sizes@.len() == t.len() + self.module.local.table_plans@.len()
                            - self.module.local.num_imported_tables
                        &&& forall|j: int| 0 <= j < t.len() ==> h.table_sizes@[j] == t[j].minimum
                        &&& forall|i: int|
                            self.module.local.num_imported_tables <= i
                                < self.module.local.table_plans@.len() ==> h.table_sizes@[t.len()
                                + i - self.module.local.num_imported_tables] == (
                            #[trigger] self.module.local.table_plans@[i]).table.minimum
                    })
                    &&& ({
                        let g = spec_resolved_globals(self.module.imports@, *resolver);
                        &&& h.globals@.len() == g.len() + self.module.local.globals@.len()
                            - self.module.local.num_imported_globals
                        &&& forall|j: int| 0 <= j < g.len() ==> h.globals@[j] == g[j].1
                        &&& forall|i: int|
                            self.module.local.num_imported_globals <= i
                                < self.module.local.globals@.len() ==> spec_global_init_value(
                                (#[trigger] self.module.local.globals@[i]).initializer,
                                self.module,
                                g,
                            ) == Some(
                                h.globals@[g.len() + i - self.module.local.num_imported_globals],
                            )
                    })
                },
                Err(e) => e is Link && {
                    ||| !(forall|k: int|
                        0 <= k < self.module.imports@.len() ==> spec_import_ok(
                            self.module,
                            *resolver,
                            k,
                        ))
                    ||| !self.spec_memories_creatable()
                    ||| !self.spec_tables_creatable()
                    ||| self.spec_globals_need_imports()
                },
            },
    {
        let imports = match resolve_imports(&self.module, resolver) {
            Ok(i) => i,
            Err(e) => {
                return Err(InstantiationError::Link(e));
            },
        };

        // Imported entries first: their current state is what the resolver
        // supplied; defined entries start at their declared minimum.
        let mut memory_pages: Vec<u32> = Vec::new();
        let mut i: usize = 0;
        while i < imports.memories.len()
            invariant
                i <= imports.memories@.len(),
                memory_pages@.len() == i,
                forall|j: int|
                    0 <= j < i ==> memory_pages@[j] == (#[trigger] imports.memories@[j]).minimum,
            decreases imports.memories@.len() - i,
        {
            memory_pages.push(imports.memories[i].minimum);
            i = i + 1;
        }
        let num_imported_memories = self.module.local.num_imported_memories;
        let mut i: usize = num_imported_memories;
        while i < self.module.local.memory_plans.len()
            invariant
                self.module.wf(),
                num_imported_memories == self.module.local.num_imported_memories,
                num_imported_memories <= i <= self.module.local.memory_plans@.len(),
                forall|j: int|
                    num_imported_memories <= j < i ==> spec_memory_creatable(
                        (#[trigger] self.module.local.memory_plans@[j]).memory,
                    ),
                memory_pages@.len() == imports.memories@.len() + i - num_imported_memories,
                forall|j: int|
                    0 <= j < imports.memories@.len() ==> memory_pages@[j] == (
                    #[trigger] imports.memories@[j]).minimum,
                forall|j: int|
                    num_imported_memories <= j < i ==> memory_pages@[imports.memories@.len() + j
                        - num_imported_memories] == (
                    #[trigger] self.module.local.memory_plans@[j]).memory.minimum,
            decreases self.module.local.memory_plans@.len() - i,
        {
            let memory = self.module.local.memory_plans[i].memory;
            let max_ok = match memory.maximum {
                Some(max) => memory.minimum <= max,
                None => true,
            };
            if memory.minimum > 65536 || !max_ok {
                proof {
                    assert(!spec_memory_creatable(
                        self.module.local.memory_plans@[i as int].memory,
                    ));
                }
                return Err(
                    InstantiationError::Link(
                        LinkError::Resource("memory allocation would exceed its limits".to_owned()),
                    ),
                );
            }
            memory_pages.push(memory.minimum);
            i = i + 1;
        }

        let mut table_sizes: Vec<u32> = Vec::new();
        let mut i: usize = 0;
        while i < imports.tables.len()
            invariant
                i <= imports.tables@.len(),
                table_sizes@.len() == i,
                forall|j: int|
                    0 <= j < i ==> table_sizes@[j] == (#[trigger] imports.tables@[j]).minimum,
            decreases imports.tables@.len() - i,
        {
            table_sizes.push(imports.tables[i].minimum);
            i = i + 1;
        }
        let num_imported_tables = self.module.local.num_imported_tables;
        let mut i: usize = num_imported_tables;
        while i < self.module.local.table_plans.len()
            invariant
                self.module.wf(),
                num_imported_tables == self.module.local.num_imported_tables,
                num_imported_tables <= i <= self.module.local.table_plans@.len(),
                forall|j: int|
                    num_imported_tables <= j < i ==> spec_table_creatable(
                        (#[trigger] self.module.local.table_plans@[j]).table,
                    ),
                table_sizes@.len() == imports.tables@.len() + i - num_imported_tables,
                forall|j: int|
                    0 <= j < imports.tables@.len() ==> table_sizes@[j] == (
                    #[trigger] imports.tables@[j]).minimum,
                forall|j: int|
                    num_imported_tables <= j < i ==> table_sizes@[imports.tables@.len() + j
                        - num_imported_tables] == (
                    #[trigger] self.module.local.table_plans@[j]).table.minimum,
            decreases self.module.local.table_plans@.len() - i,
        {
            let table = self.module.local.table_plans[i].table;
            let max_ok = match table.maximum {
                Some(max) => table.minimum <= max,
                None => true,
            };
            if !max_ok {
                proof {
                    assert(!spec_table_creatable(self.module.local.table_plans@[i as int].table));
                }
                return Err(
                    InstantiationError::Link(
                        LinkError::Resource("table allocation would exceed its limits".to_owned()),
                    ),
                );
            }
            table_sizes.push(table.minimum);
            i = i + 1;
        }

        let mut globals: Vec<Value<u32>> = Vec::new();
        let mut i: usize = 0;
        while i < imports.globals.len()
            invariant
                i <= imports.globals@.len(),
                globals@.len() == i,
                forall|j: int| 0 <= j < i ==> globals@[j] == (#[trigger] imports.globals@[j]).1,
            decreases imports.globals@.len() - i,
        {
            globals.push(imports.globals[i].1);
            i = i + 1;
        }
        let num_imported_globals = self.module.local.num_imported_globals;
        let mut i: usize = num_imported_globals;
        while i < self.module.local.globals.len()
            invariant
                self.module.wf(),
                num_imported_globals == self.module.local.num_imported_globals,
                num_imported_globals <= i <= self.module.local.globals@.len(),
                globals@.len() == imports.globals@.len() + i - num_imported_globals,
                forall|j: int|
                    0 <= j < imports.globals@.len() ==> globals@[j] == (
                    #[trigger] imports.globals@[j]).1,
                forall|j: int|
                    num_imported_globals <= j < i ==> spec_global_init_value(
                        (#[trigger] self.module.local.globals@[j]).initializer,
                        self.module,
                        imports.globals@,
                    ) == Some(globals@[imports.globals@.len() + j - num_imported_globals]),
            decreases self.module.local.globals@.len() - i,
        {
            let init = self.module.local.globals[i].initializer;
            let value = match init {
                crate::types::GlobalInit::I32Const(v) => Value::I32(v),
                crate::types::GlobalInit::I64Const(v) => Value::I64(v),
                crate::types::GlobalInit::F32Const(b) => Value::F32(b),
                crate::types::GlobalInit::F64Const(b) => Value::F64(b),
                crate::types::GlobalInit::V128Const(x) => Value::V128(x),
                crate::types::GlobalInit::GetGlobal(g) => {
                    if (g.0 as usize) < num_imported_globals && (g.0 as usize)
                        < imports.globals.len() {
                        imports.globals[g.0 as usize].1
                    } else {
                        proof {
                            assert(self.spec_globals_need_imports());
                        }
                        return Err(
                            InstantiationError::Link(
                                LinkError::Resource(
                                    "global initializer reads a global that is not imported".to_owned(),
                                ),
                            ),
                        );
                    }
                },
                crate::types::GlobalInit::RefNullConst => Value::AnyRef(0),
                crate::types::GlobalInit::RefFunc(f) => Value::FuncRef(f.0),
                crate::types::GlobalInit::Import => {
                    proof {
                        assert(self.spec_globals_need_imports());
                    }
                    return Err(
                        InstantiationError::Link(
                            LinkError::Resource(
                                "defined global carries an import initializer".to_owned(),
                            ),
                        ),
                    );
                },
            };
            globals.push(value);
            i = i + 1;
        }

        Ok(
            InstanceHandle {
                memory_pages,
                table_sizes,
                globals,
                imported_functions: imports.functions,
                finished_functions: slice_to_vec(self.finished_functions.as_slice()),
            },
        )
    }

    /// Every element segment lands inside its table.
    pub open spec fn spec_elem_segments_ok(self, handle: InstanceHandle) -> bool {
        forall|i: int|
            0 <= i < self.module.table_elements@.len() ==> spec_elem_segment_ok(
                #[trigger] self.module.table_elements@[i],
                handle,
            )
    }

    /// Every data segment lands inside its memory.
    pub open spec fn spec_data_segments_ok(self, handle: InstanceHandle) -> bool {
        forall|i: int|
            0 <= i < self.data_initializers@.len() ==> spec_data_segment_ok(
                #[trigger] self.data_initializers@[i],
                handle,
            )
    }

    /// Run the instance's initializers and its start function. The element
    /// and data segments must land inside their tables and memories, and the
    /// start function — run by the embedder, its outcome handed in — must
    /// not trap; the first trap ends the instantiation.
    pub fn finish_instantiation(&self, handle: &InstanceHandle, start_outcome: Option<TrapCode>) -> (
    r: Result<(), InstantiationError>)
        ensures
            r == (if !self.spec_elem_segments_ok(*handle) {
                Result::<(), InstantiationError>::Err(
                    InstantiationError::Start(RuntimeError::Trap(TrapCode::TableAccessOutOfBounds)),
                )
            } else if !self.spec_data_segments_ok(*handle) {
                Result::<(), InstantiationError>::Err(
                    InstantiationError::Start(RuntimeError::Trap(TrapCode::HeapAccessOutOfBounds)),
                )
            } else {
                match start_outcome {
                    Some(u) => Result::<(), InstantiationError>::Err(
                        InstantiationError::Start(RuntimeError::Trap(u)),
                    ),
                    None => Result::<(), InstantiationError>::Ok(()),
                }
            }),
    {
        let mut i: usize = 0;
        while i < self.module.table_elements.len()
            invariant
                i <= self.module.table_elements@.len(),
                forall|j: int|
                    0 <= j < i ==> spec_elem_segment_ok(
                        #[trigger] self.module.table_elements@[j],
                        *handle,
                    ),
            decreases self.module.table_elements@.len() - i,
        {
            let seg = &self.module.table_elements[i];
            let in_bounds = match segment_start(seg.base, seg.offset, handle) {
                Some(start) => {
                    let table_index = seg.table_index.0 as usize;
                    if table_index >= handle.table_sizes.len() {
                        false
                    } else {
                        let size = handle.table_sizes[table_index] as u64;
                        let count = seg.elements.len() as u64;
                        count <= size && start <= size - count
                    }
                },
                None => false,
            };
            if !in_bounds {
                return Err(
                    InstantiationError::Start(
                        RuntimeError::from_trap(TrapCode::TableAccessOutOfBounds),
                    ),
                );
            }
            i = i + 1;
        }
        let mut i: usize = 0;
        while i < self.data_initializers.len()
            invariant
                i <= self.data_initializers@.len(),
                self.spec_elem_segments_ok(*handle),
                forall|j: int|
                    0 <= j < i ==> spec_data_segment_ok(
                        #[trigger] self.data_initializers@[j],
                        *handle,
                    ),
            decreases self.data_initializers@.len() - i,
        {
            let seg = &self.data_initializers[i];
            let in_bounds = match segment_start(seg.location.base, seg.location.offset, handle) {
                Some(start) => {
                    let memory_index = seg.location.memory_index.0 as usize;
                    if memory_index >= handle.memory_pages.len() {
                        false
                    } else {
                        let bytes = (handle.memory_pages[memory_index] as u64) * 65536;
                        let count = seg.data.len() as u64;
                        count <= bytes && start <= bytes - count
                    }
                },
                None => false,
            };
            if !in_bounds {
                return Err(
                    InstantiationError::Start(
                        RuntimeError::from_trap(TrapCode::HeapAccessOutOfBounds),
                    ),
                );
            }
            i = i + 1;
        }
        match start_outcome {
            Some(trap) => Err(InstantiationError::Start(RuntimeError::from_trap(trap))),
            None => Ok(()),
        }
    }
}

/// The first index a segment writes, as a mathematical value: its literal
/// offset plus the value of its base global, where it has one. `None` where
/// the base global is missing or does not hold a 32-bit integer, or the
/// offset exceeds the 32-bit range.
pub open spec fn spec_segment_start(
    base: Option<crate::indexes::GlobalIndex>,
    offset: usize,
    handle: InstanceHandle,
) -> Option<int> {
    let base_value = match base {
        Some(g) => if g.0 < handle.globals@.len() {
            match handle.globals@[g.0 as int] {
                Value::I32(v) => Some((v as u32) as int),
                _ => None,
            }
        } else {
            None
        },
        None => Some(0int),
    };
    match base_value {
        Some(b) => if offset <= u32::MAX {
            Some(b + offset)
        } else {
            None
        },
        None => None,
    }
}

/// An element segment lands inside its table.
pub open spec fn spec_elem_segment_ok(seg: TableElements, handle: InstanceHandle) -> bool {
    match spec_segment_start(seg.base, seg.offset, handle) {
        Some(start) => seg.table_index.0 < handle.table_sizes@.len() && start
            + seg.elements@.len() <= handle.table_sizes@[seg.table_index.0 as int],
        None => false,
    }
}

/// A data segment lands inside its memory.
pub open spec fn spec_data_segment_ok(seg: DataInitializer, handle: InstanceHandle) -> bool {
    match spec_segment_start(seg.location.base, seg.location.offset, handle) {
        Some(start) => seg.location.memory_index.0 < handle.memory_pages@.len() && start
            + seg.data@.len() <= (handle.memory_pages@[seg.location.memory_index.0 as int] as int)
            * 65536,
        None => false,
    }
}

/// The first index a segment writes: its literal offset plus the value of
/// its base global, where it has one. `None` where the base global is
/// missing or does not hold a 32-bit integer.
fn segment_start(
    base: Option<crate::indexes::GlobalIndex>,
    offset: usize,
    handle: &InstanceHandle,
) -> (r: Option<u64>)
    ensures
        match r {
            Some(v) => spec_segment_start(base, offset, *handle) == Some(v as int),
            None => spec_segment_start(base, offset, *handle) is None,
        },
{
    let base_value: u64 = match base {
        Some(g) => {
            if (g.0 as usize) < handle.globals.len() {
                match handle.globals[g.0 as usize] {
                    Value::I32(v) => (v as u32) as u64,
                    _ => {
                        return None;
                    },
                }
            } else {
                return None;
            }
        },
        None => 0,
    };
    if offset > u32::MAX as usize {
        return None;
    }
    Some(base_value + (offset as u64))
}

} // verus!
