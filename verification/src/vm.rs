//! Byte offsets and sizes of the structures JIT-emitted code accesses
//! directly inside a `VMContext`.
//!
//! A `VMContext` is one contiguous byte region laid out as: the
//! signature-ids array, imported functions, imported tables, imported
//! memories, imported globals, defined tables, defined memories, defined
//! globals (16-byte aligned), and the builtin functions array. Every offset
//! is computed here, deterministically, from the pointer size of the target
//! and the module's counts.

use vstd::prelude::*;
use vstd::arithmetic::div_mod::{
    lemma_div_multiples_vanish_fancy, lemma_fundamental_div_mod, lemma_mod_multiples_basic,
};
use vstd::arithmetic::mul::{
    lemma_mul_basics, lemma_mul_inequality, lemma_mul_is_commutative,
    lemma_mul_is_distributive_add_other_way, lemma_mul_nonnegative,
};
use crate::indexes::{
    DefinedGlobalIndex, DefinedMemoryIndex, DefinedTableIndex, FuncIndex, GlobalIndex, MemoryIndex,
    SignatureIndex, TableIndex,
};
use crate::module::ModuleLocal;

verus! {

/// An index into the table of builtin functions at the tail of a VMContext.
///
/// The enumeration is closed: there are exactly thirteen builtin functions,
/// and adding one is a break of the JIT ABI.
#[derive(Copy, Clone, Debug)]
pub struct VMBuiltinFunctionIndex(u32);

impl VMBuiltinFunctionIndex {
    /// The raw value of the index.
    pub closed spec fn spec_index(self) -> u32 {
        self.0
    }

    /// Returns an index for wasm's `memory.grow` builtin function.
    pub fn get_memory32_grow_index() -> (r: Self)
        ensures
            r.spec_index() == 0,
    {
        VMBuiltinFunctionIndex(0)
    }

    /// Returns an index for wasm's imported `memory.grow` builtin function.
    pub fn get_imported_memory32_grow_index() -> (r: Self)
        ensures
            r.spec_index() == 1,
    {
        VMBuiltinFunctionIndex(1)
    }

    /// Returns an index for wasm's `memory.size` builtin function.
    pub fn get_memory32_size_index() -> (r: Self)
        ensures
            r.spec_index() == 2,
    {
        VMBuiltinFunctionIndex(2)
    }

    /// Returns an index for wasm's imported `memory.size` builtin function.
    pub fn get_imported_memory32_size_index() -> (r: Self)
        ensures
            r.spec_index() == 3,
    {
        VMBuiltinFunctionIndex(3)
    }

    /// Returns an index for wasm's `table.copy` when both tables are locally
    /// defined.
    pub fn get_table_copy_index() -> (r: Self)
        ensures
            r.spec_index() == 4,
    {
        VMBuiltinFunctionIndex(4)
    }

    /// Returns an index for wasm's `table.init`.
    pub fn get_table_init_index() -> (r: Self)
        ensures
            r.spec_index() == 5,
    {
        VMBuiltinFunctionIndex(5)
    }

    /// Returns an index for wasm's `elem.drop`.
    pub fn get_elem_drop_index() -> (r: Self)
        ensures
            r.spec_index() == 6,
    {
        VMBuiltinFunctionIndex(6)
    }

    /// Returns an index for wasm's `memory.copy` for locally defined memories.
    pub fn get_defined_memory_copy_index() -> (r: Self)
        ensures
            r.spec_index() == 7,
    {
        VMBuiltinFunctionIndex(7)
    }

    /// Returns an index for wasm's `memory.copy` for imported memories.
    pub fn get_imported_memory_copy_index() -> (r: Self)
        ensures
            r.spec_index() == 8,
    {
        VMBuiltinFunctionIndex(8)
    }

    /// Returns an index for wasm's `memory.fill` for locally defined memories.
    pub fn get_memory_fill_index() -> (r: Self)
        ensures
            r.spec_index() == 9,
    {
        VMBuiltinFunctionIndex(9)
    }

    /// Returns an index for wasm's `memory.fill` for imported memories.
    pub fn get_imported_memory_fill_index() -> (r: Self)
        ensures
            r.spec_index() == 10,
    {
        VMBuiltinFunctionIndex(10)
    }

    /// Returns an index for wasm's `memory.init` instruction.
    pub fn get_memory_init_index() -> (r: Self)
        ensures
            r.spec_index() == 11,
    {
        VMBuiltinFunctionIndex(11)
    }

    /// Returns an index for wasm's `data.drop` instruction.
    pub fn get_data_drop_index() -> (r: Self)
        ensures
            r.spec_index() == 12,
    {
        VMBuiltinFunctionIndex(12)
    }

    /// Returns the total number of builtin functions.
    pub fn builtin_functions_total_number() -> (r: u32)
        ensures
            r == 13,
    {
        13
    }

    /// Return the index as an u32 number.
    pub fn index(&self) -> (r: u32)
        ensures
            r == self.spec_index(),
    {
        self.0
    }
}

/// Cast a `usize` known to fit into a `u32`.
pub fn cast_to_u32(sz: usize) -> (r: u32)
    requires
        sz <= u32::MAX,
    ensures
        r == sz,
{
    sz as u32
}

/// `offset` rounded up to the next multiple of `width`.
pub open spec fn spec_align(offset: int, width: int) -> int
    recommends
        width >= 1,
{
    ((offset + width - 1) / width) * width
}

/// Rounding up to a width stays within one width of the offset, lands on a
/// multiple of the width, and never goes down.
pub proof fn lemma_align_bounds(offset: int, width: int)
    requires
        width >= 1,
        offset >= 0,
    ensures
        offset <= spec_align(offset, width) < offset + width,
        spec_align(offset, width) % width == 0,
{
    let a = offset + width - 1;
    lemma_fundamental_div_mod(a, width);
    lemma_mod_multiples_basic(a / width, width);
    lemma_mul_is_commutative(a / width, width);
}

/// Align an offset used in this module to a specific byte-width by rounding up.
pub fn align(offset: u32, width: u32) -> (r: u32)
    requires
        width >= 1,
        spec_align(offset as int, width as int) <= u32::MAX,
    ensures
        r == spec_align(offset as int, width as int),
        r % width == 0,
        offset <= r < offset + width,
{
    proof {
        lemma_align_bounds(offset as int, width as int);
        lemma_fundamental_div_mod(offset as int, width as int);
        lemma_mul_is_commutative(offset as int / width as int, width as int);
        if offset as int % width as int == 0 {
            lemma_div_multiples_vanish_fancy(
                offset as int / width as int,
                width as int - 1,
                width as int,
            );
        } else {
            lemma_mul_is_distributive_add_other_way(
                width as int,
                offset as int / width as int,
                1,
            );
            lemma_mul_basics(width as int);
            lemma_div_multiples_vanish_fancy(
                offset as int / width as int + 1,
                offset as int % width as int - 1,
                width as int,
            );
            lemma_mul_is_commutative(offset as int / width as int + 1, width as int);
        }
    }
    if offset % width == 0 {
        offset
    } else {
        offset / width * width + width
    }
}

/// This structure computes offsets to fields within `VMContext` and other
/// related structs that JIT code accesses directly.
pub struct VMOffsets {
    /// The size in bytes of a pointer on the target.
    pub pointer_size: u8,
    /// The number of signature declarations in the module.
    pub num_signature_ids: u32,
    /// The number of imported functions in the module.
    pub num_imported_functions: u32,
    /// The number of imported tables in the module.
    pub num_imported_tables: u32,
    /// The number of imported memories in the module.
    pub num_imported_memories: u32,
    /// The number of imported globals in the module.
    pub num_imported_globals: u32,
    /// The number of tables in the module.
    pub num_defined_tables: u32,
    /// The number of memories in the module.
    pub num_defined_memories: u32,
    /// The number of globals in the module.
    pub num_defined_globals: u32,
}

impl VMOffsets {
    /// The pointer size is one of the machine word sizes the layout supports.
    pub open spec fn ptr_ok(self) -> bool {
        self.pointer_size == 1 || self.pointer_size == 2 || self.pointer_size == 4
            || self.pointer_size == 8
    }

    /// The offset of the signature-ids array.
    pub open spec fn spec_signature_ids_begin(self) -> int {
        0
    }

    /// The offset of the imported-functions array.
    pub open spec fn spec_imported_functions_begin(self) -> int {
        self.spec_signature_ids_begin() + (self.num_signature_ids as int) * 4
    }

    /// The offset of the imported-tables array.
    pub open spec fn spec_imported_tables_begin(self) -> int {
        self.spec_imported_functions_begin() + (self.num_imported_functions as int) * (2 * (
        self.pointer_size as int))
    }

    /// The offset of the imported-memories array.
    pub open spec fn spec_imported_memories_begin(self) -> int {
        self.spec_imported_tables_begin() + (self.num_imported_tables as int) * (2 * (
        self.pointer_size as int))
    }

    /// The offset of the imported-globals array.
    pub open spec fn spec_imported_globals_begin(self) -> int {
        self.spec_imported_memories_begin() + (self.num_imported_memories as int) * (2 * (
        self.pointer_size as int))
    }

    /// The offset of the defined-tables array.
    pub open spec fn spec_tables_begin(self) -> int {
        self.spec_imported_globals_begin() + (self.num_imported_globals as int) * (
        self.pointer_size as int)
    }

    /// The offset of the defined-memories array.
    pub open spec fn spec_memories_begin(self) -> int {
        self.spec_tables_begin() + (self.num_defined_tables as int) * (2 * (
        self.pointer_size as int))
    }

    /// The offset of the defined-globals array: the end of the memories
    /// array, rounded up to 16 bytes so a V128 global is naturally aligned.
    pub open spec fn spec_globals_begin(self) -> int {
        spec_align(
            self.spec_memories_begin() + (self.num_defined_memories as int) * (2 * (
            self.pointer_size as int)),
            16,
        )
    }

    /// The offset of the builtin functions array.
    pub open spec fn spec_builtin_functions_begin(self) -> int {
        self.spec_globals_begin() + (self.num_defined_globals as int) * 16
    }

    /// The size of the whole VMContext allocation.
    pub open spec fn spec_size_of_vmctx(self) -> int {
        self.spec_builtin_functions_begin() + 13 * (self.pointer_size as int)
    }

    /// The layout is meaningful: the pointer size is supported and the whole
    /// VMContext fits in the 32-bit offset space.
    pub open spec fn wf(self) -> bool {
        self.ptr_ok() && self.spec_size_of_vmctx() <= u32::MAX
    }

    /// The regions of the VMContext are laid out in order, each begins at or
    /// after the end of the one before it, the globals region is 16-byte
    /// aligned, and everything ends within the computed total size.
    pub proof fn lemma_layout_monotone(self)
        requires
            self.wf(),
        ensures
            0 <= self.spec_imported_functions_begin(),
            self.spec_imported_functions_begin() <= self.spec_imported_tables_begin(),
            self.spec_imported_tables_begin() <= self.spec_imported_memories_begin(),
            self.spec_imported_memories_begin() <= self.spec_imported_globals_begin(),
            self.spec_imported_globals_begin() <= self.spec_tables_begin(),
            self.spec_tables_begin() <= self.spec_memories_begin(),
            self.spec_memories_begin() + (self.num_defined_memories as int) * (2 * (
            self.pointer_size as int)) <= self.spec_globals_begin(),
            self.spec_globals_begin() <= self.spec_builtin_functions_begin(),
            self.spec_builtin_functions_begin() < self.spec_size_of_vmctx(),
            self.spec_globals_begin() % 16 == 0,
            self.spec_globals_begin() < self.spec_memories_begin() + (
            self.num_defined_memories as int) * (2 * (self.pointer_size as int)) + 16,
    {
        let p = self.pointer_size as int;
        lemma_mul_nonnegative(self.num_signature_ids as int, 4);
        lemma_mul_nonnegative(self.num_imported_functions as int, 2 * p);
        lemma_mul_nonnegative(self.num_imported_tables as int, 2 * p);
        lemma_mul_nonnegative(self.num_imported_memories as int, 2 * p);
        lemma_mul_nonnegative(self.num_imported_globals as int, p);
        lemma_mul_nonnegative(self.num_defined_tables as int, 2 * p);
        lemma_mul_nonnegative(self.num_defined_memories as int, 2 * p);
        lemma_mul_nonnegative(self.num_defined_globals as int, 16);
        let mem_end = self.spec_memories_begin() + (self.num_defined_memories as int) * (2 * p);
        lemma_align_bounds(mem_end, 16);
    }

    /// Return a new `VMOffsets` instance, for a given pointer size.
    ///
    /// The defined-entity counts copy the full lengths of the table, memory
    /// and global lists — imported entries included — so the defined-entity
    /// regions of the VMContext hold a slot for every entity of those
    /// classes. The function count alone separates imports. This is the
    /// layout the code emitters expect; a deliberate choice, kept.
    pub fn new(pointer_size: u8, module: &ModuleLocal) -> (r: Self)
        requires
            module.signatures@.len() <= u32::MAX,
            module.num_imported_funcs <= u32::MAX,
            module.num_imported_tables <= u32::MAX,
            module.num_imported_memories <= u32::MAX,
            module.num_imported_globals <= u32::MAX,
            module.table_plans@.len() <= u32::MAX,
            module.memory_plans@.len() <= u32::MAX,
            module.globals@.len() <= u32::MAX,
            VMOffsets::spec_new(pointer_size, *module).wf(),
        ensures
            r == VMOffsets::spec_new(pointer_size, *module),
            r.wf(),
    {
        VMOffsets {
            pointer_size,
            num_signature_ids: cast_to_u32(module.signatures.len()),
            num_imported_functions: cast_to_u32(module.num_imported_funcs),
            num_imported_tables: cast_to_u32(module.num_imported_tables),
            num_imported_memories: cast_to_u32(module.num_imported_memories),
            num_imported_globals: cast_to_u32(module.num_imported_globals),
            num_defined_tables: cast_to_u32(module.table_plans.len()),
            num_defined_memories: cast_to_u32(module.memory_plans.len()),
            num_defined_globals: cast_to_u32(module.globals.len()),
        }
    }

    /// The offsets computed from a module's counts for a given pointer size.
    pub open spec fn spec_new(pointer_size: u8, module: ModuleLocal) -> VMOffsets {
        VMOffsets {
            pointer_size,
            num_signature_ids: module.signatures@.len() as u32,
            num_imported_functions: module.num_imported_funcs as u32,
            num_imported_tables: module.num_imported_tables as u32,
            num_imported_memories: module.num_imported_memories as u32,
            num_imported_globals: module.num_imported_globals as u32,
            num_defined_tables: module.table_plans@.len() as u32,
            num_defined_memories: module.memory_plans@.len() as u32,
            num_defined_globals: module.globals@.len() as u32,
        }
    }
}

/// Offsets for `VMFunctionImport`.
impl VMOffsets {
    /// The offset of the `body` field.
    pub fn vmfunction_import_body(&self) -> (r: u8)
        requires
            self.ptr_ok(),
        ensures
            r == 0,
    {
        0 * self.pointer_size
    }

    /// The offset of the `vmctx` field.
    pub fn vmfunction_import_vmctx(&self) -> (r: u8)
        requires
            self.ptr_ok(),
        ensures
            r == self.pointer_size,
    {
        1 * self.pointer_size
    }

    /// Return the size of `VMFunctionImport`.
    pub fn size_of_vmfunction_import(&self) -> (r: u8)
        requires
            self.ptr_ok(),
        ensures
            r == 2 * self.pointer_size,
    {
        2 * self.pointer_size
    }
}

/// Offsets for `*const VMFunctionBody`.
impl VMOffsets {
    /// Return the size of a pointer to a function body.
    pub fn size_of_vmfunction_body_ptr(&self) -> (r: u8)
        requires
            self.ptr_ok(),
        ensures
            r == self.pointer_size,
    {
        1 * self.pointer_size
    }
}

/// Offsets for `VMTableImport`.
impl VMOffsets {
    /// The offset of the `definition` field.
    pub fn vmtable_import_definition(&self) -> (r: u8)
        requires
            self.ptr_ok(),
        ensures
            r == 0,
    {
        0 * self.pointer_size
    }

    /// The offset of the `from` field.
    pub fn vmtable_import_from(&self) -> (r: u8)
        requires
            self.ptr_ok(),
        ensures
            r == self.pointer_size,
    {
        1 * self.pointer_size
    }

    /// Return the size of `VMTableImport`.
    pub fn size_of_vmtable_import(&self) -> (r: u8)
        requires
            self.ptr_ok(),
        ensures
            r == 2 * self.pointer_size,
    {
        2 * self.pointer_size
    }
}

/// Offsets for `VMTableDefinition`.
impl VMOffsets {
    /// The offset of the `base` field.
    pub fn vmtable_definition_base(&self) -> (r: u8)
        requires
            self.ptr_ok(),
        ensures
            r == 0,
    {
        0 * self.pointer_size
    }

    /// The offset of the `current_elements` field.
    pub fn vmtable_definition_current_elements(&self) -> (r: u8)
        requires
            self.ptr_ok(),
        ensures
            r == self.pointer_size,
    {
        1 * self.pointer_size
    }

    /// The size of the `current_elements` field.
    pub fn size_of_vmtable_definition_current_elements(&self) -> (r: u8)
        ensures
            r == 4,
    {
        4
    }

    /// Return the size of `VMTableDefinition`.
    pub fn size_of_vmtable_definition(&self) -> (r: u8)
        requires
            self.ptr_ok(),
        ensures
            r == 2 * self.pointer_size,
    {
        2 * self.pointer_size
    }
}

/// Offsets for `VMMemoryImport`.
impl VMOffsets {
    /// The offset of the `definition` field.
    pub fn vmmemory_import_definition(&self) -> (r: u8)
        requires
            self.ptr_ok(),
        ensures
            r == 0,
    {
        0 * self.pointer_size
    }

    /// The offset of the `from` field.
    pub fn vmmemory_import_from(&self) -> (r: u8)
        requires
            self.ptr_ok(),
        ensures
            r == self.pointer_size,
    {
        1 * self.pointer_size
    }

    /// Return the size of `VMMemoryImport`.
    pub fn size_of_vmmemory_import(&self) -> (r: u8)
        requires
            self.ptr_ok(),
        ensures
            r == 2 * self.pointer_size,
    {
        2 * self.pointer_size
    }
}

/// Offsets for `VMMemoryDefinition`.
impl VMOffsets {
    /// The offset of the `base` field.
    pub fn vmmemory_definition_base(&self) -> (r: u8)
        requires
            self.ptr_ok(),
        ensures
            r == 0,
    {
        0 * self.pointer_size
    }

    /// The offset of the `current_length` field.
    pub fn vmmemory_definition_current_length(&self) -> (r: u8)
        requires
            self.ptr_ok(),
        ensures
            r == self.pointer_size,
    {
        1 * self.pointer_size
    }

    /// The size of the `current_length` field.
    pub fn size_of_vmmemory_definition_current_length(&self) -> (r: u8)
        ensures
            r == 4,
    {
        4
    }

    /// Return the size of `VMMemoryDefinition`.
    pub fn size_of_vmmemory_definition(&self) -> (r: u8)
        requires
            self.ptr_ok(),
        ensures
            r == 2 * self.pointer_size,
    {
        2 * self.pointer_size
    }
}

/// Offsets for `VMGlobalImport`.
impl VMOffsets {
    /// The offset of the `definition` field.
    pub fn vmglobal_import_definition(&self) -> (r: u8)
        requires
            self.ptr_ok(),
        ensures
            r == 0,
    {
        0 * self.pointer_size
    }

    /// Return the size of `VMGlobalImport`.
    pub fn size_of_vmglobal_import(&self) -> (r: u8)
        requires
            self.ptr_ok(),
        ensures
            r == self.pointer_size,
    {
        1 * self.pointer_size
    }
}

/// Offsets for `VMGlobalDefinition`.
impl VMOffsets {
    /// Return the size of `VMGlobalDefinition`; this is the size of the
    /// largest value type, a V128.
    pub fn size_of_vmglobal_definition(&self) -> (r: u8)
        ensures
            r == 16,
    {
        16
    }
}

/// Offsets for `VMSharedSignatureIndex`.
impl VMOffsets {
    /// Return the size of `VMSharedSignatureIndex`.
    pub fn size_of_vmshared_signature_index(&self) -> (r: u8)
        ensures
            r == 4,
    {
        4
    }
}

/// Offsets for `VMCallerCheckedAnyfunc`.
impl VMOffsets {
    /// The offset of the `func_ptr` field.
    pub fn vmcaller_checked_anyfunc_func_ptr(&self) -> (r: u8)
        requires
            self.ptr_ok(),
        ensures
            r == 0,
    {
        0 * self.pointer_size
    }

    /// The offset of the `type_index` field.
    pub fn vmcaller_checked_anyfunc_type_index(&self) -> (r: u8)
        requires
            self.ptr_ok(),
        ensures
            r == self.pointer_size,
    {
        1 * self.pointer_size
    }

    /// The offset of the `vmctx` field.
    pub fn vmcaller_checked_anyfunc_vmctx(&self) -> (r: u8)
        requires
            self.ptr_ok(),
        ensures
            r == 2 * self.pointer_size,
    {
        2 * self.pointer_size
    }

    /// Return the size of `VMCallerCheckedAnyfunc`.
    pub fn size_of_vmcaller_checked_anyfunc(&self) -> (r: u8)
        requires
            self.ptr_ok(),
        ensures
            r == 3 * self.pointer_size,
    {
        3 * self.pointer_size
    }
}

/// A slot of a region sized `rec` for each of `count` entries lies wholly
/// inside whatever the region's end bound is.
proof fn lemma_slot_bound(begin: int, idx: int, count: int, rec: int, next: int, size: int)
    requires
        0 <= begin,
        0 <= idx < count,
        1 <= rec,
        begin + count * rec <= next,
        next <= size,
    ensures
        0 <= begin + idx * rec,
        begin + idx * rec + rec <= size,
        idx * rec + rec <= count * rec,
{
    lemma_mul_nonnegative(idx, rec);
    lemma_mul_inequality(idx + 1, count, rec);
    lemma_mul_is_distributive_add_other_way(rec, idx, 1);
    lemma_mul_basics(rec);
}

/// Offsets for `VMContext`.
impl VMOffsets {
    /// The offset of the `signature_ids` array.
    pub fn vmctx_signature_ids_begin(&self) -> (r: u32)
        ensures
            r == self.spec_signature_ids_begin(),
    {
        0
    }

    /// The offset of the imported functions array.
    pub fn vmctx_imported_functions_begin(&self) -> (r: u32)
        requires
            self.wf(),
        ensures
            r == self.spec_imported_functions_begin(),
    {
        proof {
            self.lemma_layout_monotone();
        }
        let sig_size = self.size_of_vmshared_signature_index() as u32;
        self.vmctx_signature_ids_begin() + self.num_signature_ids * sig_size
    }

    /// The offset of the imported tables array.
    pub fn vmctx_imported_tables_begin(&self) -> (r: u32)
        requires
            self.wf(),
        ensures
            r == self.spec_imported_tables_begin(),
    {
        proof {
            self.lemma_layout_monotone();
        }
        let rec = self.size_of_vmfunction_import() as u32;
        self.vmctx_imported_functions_begin() + self.num_imported_functions * rec
    }

    /// The offset of the imported memories array.
    pub fn vmctx_imported_memories_begin(&self) -> (r: u32)
        requires
            self.wf(),
        ensures
            r == self.spec_imported_memories_begin(),
    {
        proof {
            self.lemma_layout_monotone();
        }
        let rec = self.size_of_vmtable_import() as u32;
        self.vmctx_imported_tables_begin() + self.num_imported_tables * rec
    }

    /// The offset of the imported globals array.
    pub fn vmctx_imported_globals_begin(&self) -> (r: u32)
        requires
            self.wf(),
        ensures
            r == self.spec_imported_globals_begin(),
    {
        proof {
            self.lemma_layout_monotone();
        }
        let rec = self.size_of_vmmemory_import() as u32;
        self.vmctx_imported_memories_begin() + self.num_imported_memories * rec
    }

    /// The offset of the defined tables array.
    pub fn vmctx_tables_begin(&self) -> (r: u32)
        requires
            self.wf(),
        ensures
            r == self.spec_tables_begin(),
    {
        proof {
            self.lemma_layout_monotone();
        }
        let rec = self.size_of_vmglobal_import() as u32;
        self.vmctx_imported_globals_begin() + self.num_imported_globals * rec
    }

    /// The offset of the defined memories array.
    pub fn vmctx_memories_begin(&self) -> (r: u32)
        requires
            self.wf(),
        ensures
            r == self.spec_memories_begin(),
    {
        proof {
            self.lemma_layout_monotone();
        }
        let rec = self.size_of_vmtable_definition() as u32;
        self.vmctx_tables_begin() + self.num_defined_tables * rec
    }

    /// The offset of the defined globals array, 16-byte aligned.
    pub fn vmctx_globals_begin(&self) -> (r: u32)
        requires
            self.wf(),
        ensures
            r == self.spec_globals_begin(),
            r % 16 == 0,
    {
        proof {
            self.lemma_layout_monotone();
        }
        let rec = self.size_of_vmmemory_definition() as u32;
        let offset = self.vmctx_memories_begin() + self.num_defined_memories * rec;
        align(offset, 16)
    }

    /// The offset of the builtin functions array.
    pub fn vmctx_builtin_functions_begin(&self) -> (r: u32)
        requires
            self.wf(),
        ensures
            r == self.spec_builtin_functions_begin(),
    {
        proof {
            self.lemma_layout_monotone();
        }
        let rec = self.size_of_vmglobal_definition() as u32;
        self.vmctx_globals_begin() + self.num_defined_globals * rec
    }

    /// Return the size of the `VMContext` allocation.
    pub fn size_of_vmctx(&self) -> (r: u32)
        requires
            self.wf(),
        ensures
            r == self.spec_size_of_vmctx(),
    {
        proof {
            self.lemma_layout_monotone();
        }
        let total = VMBuiltinFunctionIndex::builtin_functions_total_number();
        self.vmctx_builtin_functions_begin() + total * (self.pointer_size as u32)
    }

    /// Return the offset to `VMSharedSignatureIndex` index `index`.
    pub fn vmctx_vmshared_signature_id(&self, index: SignatureIndex) -> (r: u32)
        requires
            self.wf(),
            index.0 < self.num_signature_ids,
        ensures
            r == self.spec_signature_ids_begin() + (index.0 as int) * 4,
            r + 4 <= self.spec_size_of_vmctx(),
    {
        proof {
            self.lemma_layout_monotone();
            lemma_slot_bound(
                self.spec_signature_ids_begin(),
                index.0 as int,
                self.num_signature_ids as int,
                4,
                self.spec_imported_functions_begin(),
                self.spec_size_of_vmctx(),
            );
        }
        let rec = self.size_of_vmshared_signature_index() as u32;
        self.vmctx_signature_ids_begin() + index.as_u32() * rec
    }

    /// Return the offset to `VMFunctionImport` index `index`.
    pub fn vmctx_vmfunction_import(&self, index: FuncIndex) -> (r: u32)
        requires
            self.wf(),
            index.0 < self.num_imported_functions,
        ensures
            r == self.spec_imported_functions_begin() + (index.0 as int) * (2 * (
            self.pointer_size as int)),
            r + 2 * (self.pointer_size as int) <= self.spec_size_of_vmctx(),
    {
        proof {
            self.lemma_layout_monotone();
            lemma_slot_bound(
                self.spec_imported_functions_begin(),
                index.0 as int,
                self.num_imported_functions as int,
                2 * (self.pointer_size as int),
                self.spec_imported_tables_begin(),
                self.spec_size_of_vmctx(),
            );
        }
        let rec = self.size_of_vmfunction_import() as u32;
        self.vmctx_imported_functions_begin() + index.as_u32() * rec
    }

    /// Return the offset to `VMTableImport` index `index`.
    pub fn vmctx_vmtable_import(&self, index: TableIndex) -> (r: u32)
        requires
            self.wf(),
            index.0 < self.num_imported_tables,
        ensures
            r == self.spec_imported_tables_begin() + (index.0 as int) * (2 * (
            self.pointer_size as int)),
            r + 2 * (self.pointer_size as int) <= self.spec_size_of_vmctx(),
    {
        proof {
            self.lemma_layout_monotone();
            lemma_slot_bound(
                self.spec_imported_tables_begin(),
                index.0 as int,
                self.num_imported_tables as int,
                2 * (self.pointer_size as int),
                self.spec_imported_memories_begin(),
                self.spec_size_of_vmctx(),
            );
        }
        let rec = self.size_of_vmtable_import() as u32;
        self.vmctx_imported_tables_begin() + index.as_u32() * rec
    }

    /// Return the offset to `VMMemoryImport` index `index`.
    pub fn vmctx_vmmemory_import(&self, index: MemoryIndex) -> (r: u32)
        requires
            self.wf(),
            index.0 < self.num_imported_memories,
        ensures
            r == self.spec_imported_memories_begin() + (index.0 as int) * (2 * (
            self.pointer_size as int)),
            r + 2 * (self.pointer_size as int) <= self.spec_size_of_vmctx(),
    {
        proof {
            self.lemma_layout_monotone();
            lemma_slot_bound(
                self.spec_imported_memories_begin(),
                index.0 as int,
                self.num_imported_memories as int,
                2 * (self.pointer_size as int),
                self.spec_imported_globals_begin(),
                self.spec_size_of_vmctx(),
            );
        }
        let rec = self.size_of_vmmemory_import() as u32;
        self.vmctx_imported_memories_begin() + index.as_u32() * rec
    }

    /// Return the offset to `VMGlobalImport` index `index`.
    pub fn vmctx_vmglobal_import(&self, index: GlobalIndex) -> (r: u32)
        requires
            self.wf(),
            index.0 < self.num_imported_globals,
        ensures
            r == self.spec_imported_globals_begin() + (index.0 as int) * (
            self.pointer_size as int),
            r + (self.pointer_size as int) <= self.spec_size_of_vmctx(),
    {
        proof {
            self.lemma_layout_monotone();
            lemma_slot_bound(
                self.spec_imported_globals_begin(),
                index.0 as int,
                self.num_imported_globals as int,
                self.pointer_size as int,
                self.spec_tables_begin(),
                self.spec_size_of_vmctx(),
            );
        }
        let rec = self.size_of_vmglobal_import() as u32;
        self.vmctx_imported_globals_begin() + index.as_u32() * rec
    }

    /// Return the offset to `VMTableDefinition` index `index`.
    pub fn vmctx_vmtable_definition(&self, index: DefinedTableIndex) -> (r: u32)
        requires
            self.wf(),
            index.0 < self.num_defined_tables,
        ensures
            r == self.spec_tables_begin() + (index.0 as int) * (2 * (self.pointer_size as int)),
            r + 2 * (self.pointer_size as int) <= self.spec_size_of_vmctx(),
    {
        proof {
            self.lemma_layout_monotone();
            lemma_slot_bound(
                self.spec_tables_begin(),
                index.0 as int,
                self.num_defined_tables as int,
                2 * (self.pointer_size as int),
                self.spec_memories_begin(),
                self.spec_size_of_vmctx(),
            );
        }
        let rec = self.size_of_vmtable_definition() as u32;
        self.vmctx_tables_begin() + index.as_u32() * rec
    }

    /// Return the offset to `VMMemoryDefinition` index `index`.
    pub fn vmctx_vmmemory_definition(&self, index: DefinedMemoryIndex) -> (r: u32)
        requires
            self.wf(),
            index.0 < self.num_defined_memories,
        ensures
            r == self.spec_memories_begin() + (index.0 as int) * (2 * (self.pointer_size as int)),
            r + 2 * (self.pointer_size as int) <= self.spec_size_of_vmctx(),
    {
        proof {
            self.lemma_layout_monotone();
            lemma_slot_bound(
                self.spec_memories_begin(),
                index.0 as int,
                self.num_defined_memories as int,
                2 * (self.pointer_size as int),
                self.spec_globals_begin(),
                self.spec_size_of_vmctx(),
            );
        }
        let rec = self.size_of_vmmemory_definition() as u32;
        self.vmctx_memories_begin() + index.as_u32() * rec
    }

    /// Return the offset to the `VMGlobalDefinition` index `index`.
    pub fn vmctx_vmglobal_definition(&self, index: DefinedGlobalIndex) -> (r: u32)
        requires
            self.wf(),
            index.0 < self.num_defined_globals,
        ensures
            r == self.spec_globals_begin() + (index.0 as int) * 16,
            r + 16 <= self.spec_size_of_vmctx(),
    {
        proof {
            self.lemma_layout_monotone();
            lemma_slot_bound(
                self.spec_globals_begin(),
                index.0 as int,
                self.num_defined_globals as int,
                16,
                self.spec_builtin_functions_begin(),
                self.spec_size_of_vmctx(),
            );
        }
        let rec = self.size_of_vmglobal_definition() as u32;
        self.vmctx_globals_begin() + index.as_u32() * rec
    }

    /// Return the offset to the `body` field in the `VMFunctionImport` at
    /// index `index`.
    pub fn vmctx_vmfunction_import_body(&self, index: FuncIndex) -> (r: u32)
        requires
            self.wf(),
            index.0 < self.num_imported_functions,
        ensures
            r == self.spec_imported_functions_begin() + (index.0 as int) * (2 * (
            self.pointer_size as int)),
            r < self.spec_size_of_vmctx(),
    {
        let base = self.vmctx_vmfunction_import(index);
        base + (self.vmfunction_import_body() as u32)
    }

    /// Return the offset to the `vmctx` field in the `VMFunctionImport` at
    /// index `index`.
    pub fn vmctx_vmfunction_import_vmctx(&self, index: FuncIndex) -> (r: u32)
        requires
            self.wf(),
            index.0 < self.num_imported_functions,
        ensures
            r == self.spec_imported_functions_begin() + (index.0 as int) * (2 * (
            self.pointer_size as int)) + self.pointer_size,
            r < self.spec_size_of_vmctx(),
    {
        let base = self.vmctx_vmfunction_import(index);
        base + (self.vmfunction_import_vmctx() as u32)
    }

    /// Return the offset to the `definition` field in the `VMTableImport` at
    /// index `index`.
    pub fn vmctx_vmtable_import_definition(&self, index: TableIndex) -> (r: u32)
        requires
            self.wf(),
            index.0 < self.num_imported_tables,
        ensures
            r == self.spec_imported_tables_begin() + (index.0 as int) * (2 * (
            self.pointer_size as int)),
            r < self.spec_size_of_vmctx(),
    {
        let base = self.vmctx_vmtable_import(index);
        base + (self.vmtable_import_definition() as u32)
    }

    /// Return the offset to the `base` field in the `VMTableDefinition` at
    /// index `index`.
    pub fn vmctx_vmtable_definition_base(&self, index: DefinedTableIndex) -> (r: u32)
        requires
            self.wf(),
            index.0 < self.num_defined_tables,
        ensures
            r == self.spec_tables_begin() + (index.0 as int) * (2 * (self.pointer_size as int)),
            r < self.spec_size_of_vmctx(),
    {
        let base = self.vmctx_vmtable_definition(index);
        base + (self.vmtable_definition_base() as u32)
    }

    /// Return the offset to the `current_elements` field in the
    /// `VMTableDefinition` at index `index`.
    pub fn vmctx_vmtable_definition_current_elements(&self, index: DefinedTableIndex) -> (r: u32)
        requires
            self.wf(),
            index.0 < self.num_defined_tables,
        ensures
            r == self.spec_tables_begin() + (index.0 as int) * (2 * (self.pointer_size as int))
                + self.pointer_size,
            r < self.spec_size_of_vmctx(),
    {
        let base = self.vmctx_vmtable_definition(index);
        base + (self.vmtable_definition_current_elements() as u32)
    }

    /// Return the offset to the `definition` field in the `VMMemoryImport` at
    /// index `index`.
    pub fn vmctx_vmmemory_import_definition(&self, index: MemoryIndex) -> (r: u32)
        requires
            self.wf(),
            index.0 < self.num_imported_memories,
        ensures
            r == self.spec_imported_memories_begin() + (index.0 as int) * (2 * (
            self.pointer_size as int)),
            r < self.spec_size_of_vmctx(),
    {
        let base = self.vmctx_vmmemory_import(index);
        base + (self.vmmemory_import_definition() as u32)
    }

    /// Return the offset to the `from` field in the `VMMemoryImport` at index
    /// `index`.
    pub fn vmctx_vmmemory_import_from(&self, index: MemoryIndex) -> (r: u32)
        requires
            self.wf(),
            index.0 < self.num_imported_memories,
        ensures
            r == self.spec_imported_memories_begin() + (index.0 as int) * (2 * (
            self.pointer_size as int)) + self.pointer_size,
            r < self.spec_size_of_vmctx(),
    {
        let base = self.vmctx_vmmemory_import(index);
        base + (self.vmmemory_import_from() as u32)
    }

    /// Return the offset to the `base` field in the `VMMemoryDefinition` at
    /// index `index`.
    pub fn vmctx_vmmemory_definition_base(&self, index: DefinedMemoryIndex) -> (r: u32)
        requires
            self.wf(),
            index.0 < self.num_defined_memories,
        ensures
            r == self.spec_memories_begin() + (index.0 as int) * (2 * (self.pointer_size as int)),
            r < self.spec_size_of_vmctx(),
    {
        let base = self.vmctx_vmmemory_definition(index);
        base + (self.vmmemory_definition_base() as u32)
    }

    /// Return the offset to the `current_length` field in the
    /// `VMMemoryDefinition` at index `index`.
    pub fn vmctx_vmmemory_definition_current_length(&self, index: DefinedMemoryIndex) -> (r: u32)
        requires
            self.wf(),
            index.0 < self.num_defined_memories,
        ensures
            r == self.spec_memories_begin() + (index.0 as int) * (2 * (self.pointer_size as int))
                + self.pointer_size,
            r < self.spec_size_of_vmctx(),
    {
        let base = self.vmctx_vmmemory_definition(index);
        base + (self.vmmemory_definition_current_length() as u32)
    }

    /// Return the offset to the `definition` field in the `VMGlobalImport` at
    /// index `index`.
    pub fn vmctx_vmglobal_import_definition(&self, index: GlobalIndex) -> (r: u32)
        requires
            self.wf(),
            index.0 < self.num_imported_globals,
        ensures
            r == self.spec_imported_globals_begin() + (index.0 as int) * (
            self.pointer_size as int),
            r < self.spec_size_of_vmctx(),
    {
        let base = self.vmctx_vmglobal_import(index);
        base + (self.vmglobal_import_definition() as u32)
    }

    /// Return the offset to the builtin function at index `index` in the
    /// `VMBuiltinFunctionsArray`.
    pub fn vmctx_builtin_function(&self, index: VMBuiltinFunctionIndex) -> (r: u32)
        requires
            self.wf(),
            index.spec_index() < 13,
        ensures
            r == self.spec_builtin_functions_begin() + (index.spec_index() as int) * (
            self.pointer_size as int),
            r + (self.pointer_size as int) <= self.spec_size_of_vmctx(),
    {
        proof {
            self.lemma_layout_monotone();
            assert(self.spec_builtin_functions_begin() + 13 * (self.pointer_size as int)
                <= self.spec_size_of_vmctx());
            lemma_slot_bound(
                self.spec_builtin_functions_begin(),
                index.spec_index() as int,
                13,
                self.pointer_size as int,
                self.spec_size_of_vmctx(),
                self.spec_size_of_vmctx(),
            );
        }
        self.vmctx_builtin_functions_begin() + index.index() * (self.pointer_size as u32)
    }
}

/// Target specific type for shared signature index.
#[derive(Debug, Copy, Clone, PartialEq, Eq, Structural)]
pub struct TargetSharedSignatureIndex(u32);

impl TargetSharedSignatureIndex {
    /// The raw value of the index.
    pub closed spec fn spec_index(self) -> u32 {
        self.0
    }

    /// Constructs `TargetSharedSignatureIndex`.
    pub fn new(value: u32) -> (r: Self)
        ensures
            r.spec_index() == value,
    {
        TargetSharedSignatureIndex(value)
    }

    /// Returns index value.
    pub fn index(self) -> (r: u32)
        ensures
            r == self.spec_index(),
    {
        self.0
    }
}

} // verus!
