//! The VMContext layout: alignment, the builtin function table, and the
//! byte offsets of every region.

use wasmrt::vm::{align, VMBuiltinFunctionIndex, VMOffsets, TargetSharedSignatureIndex};
use wasmrt::indexes::{DefinedGlobalIndex, FuncIndex, SignatureIndex};
use wasmrt::module::ModuleLocal;

#[test]
fn alignment() {
    fn is_aligned(x: u32) -> bool {
        x % 16 == 0
    }
    assert!(is_aligned(align(0, 16)));
    assert!(is_aligned(align(32, 16)));
    assert!(is_aligned(align(33, 16)));
    assert!(is_aligned(align(31, 16)));
}

#[test]
fn align_rounds_up() {
    assert_eq!(align(0, 16), 0);
    assert_eq!(align(1, 16), 16);
    assert_eq!(align(16, 16), 16);
    assert_eq!(align(17, 16), 32);
    assert_eq!(align(24, 16), 32);
}

fn example_offsets() -> VMOffsets {
    VMOffsets {
        pointer_size: 8,
        num_signature_ids: 2,
        num_imported_functions: 1,
        num_imported_tables: 0,
        num_imported_memories: 0,
        num_imported_globals: 0,
        num_defined_tables: 0,
        num_defined_memories: 0,
        num_defined_globals: 0,
    }
}

#[test]
fn vmctx_layout() {
    let o = example_offsets();
    assert_eq!(o.vmctx_signature_ids_begin(), 0);
    assert_eq!(o.vmctx_imported_functions_begin(), 8);
    assert_eq!(o.vmctx_imported_tables_begin(), 24);
    assert_eq!(o.vmctx_globals_begin() % 16, 0);
}

#[test]
fn vmctx_sizes_and_slots() {
    let o = example_offsets();
    // Two signature ids of four bytes, one function import of two pointers.
    assert_eq!(o.vmctx_imported_memories_begin(), 24);
    assert_eq!(o.vmctx_imported_globals_begin(), 24);
    assert_eq!(o.vmctx_tables_begin(), 24);
    assert_eq!(o.vmctx_memories_begin(), 24);
    assert_eq!(o.vmctx_globals_begin(), 32);
    assert_eq!(o.vmctx_builtin_functions_begin(), 32);
    assert_eq!(o.size_of_vmctx(), 32 + 13 * 8);
    assert_eq!(o.vmctx_vmshared_signature_id(SignatureIndex::from_u32(1)), 4);
    assert_eq!(o.vmctx_vmfunction_import(FuncIndex::from_u32(0)), 8);
    assert_eq!(o.vmctx_vmfunction_import_body(FuncIndex::from_u32(0)), 8);
    assert_eq!(o.vmctx_vmfunction_import_vmctx(FuncIndex::from_u32(0)), 16);
    assert_eq!(
        o.vmctx_builtin_function(VMBuiltinFunctionIndex::get_data_drop_index()),
        32 + 12 * 8
    );
}

#[test]
fn vmctx_globals_are_v128_sized() {
    let o = VMOffsets {
        pointer_size: 8,
        num_signature_ids: 0,
        num_imported_functions: 0,
        num_imported_tables: 0,
        num_imported_memories: 0,
        num_imported_globals: 0,
        num_defined_tables: 0,
        num_defined_memories: 1,
        num_defined_globals: 2,
    };
    // One defined memory of two pointers ends at sixteen, already aligned.
    assert_eq!(o.vmctx_globals_begin(), 16);
    assert_eq!(o.vmctx_vmglobal_definition(DefinedGlobalIndex::from_u32(1)), 32);
    assert_eq!(o.vmctx_builtin_functions_begin(), 48);
}

#[test]
fn record_sizes() {
    let o = example_offsets();
    assert_eq!(o.size_of_vmfunction_import(), 16);
    assert_eq!(o.vmfunction_import_body(), 0);
    assert_eq!(o.vmfunction_import_vmctx(), 8);
    assert_eq!(o.size_of_vmfunction_body_ptr(), 8);
    assert_eq!(o.size_of_vmtable_import(), 16);
    assert_eq!(o.vmtable_import_definition(), 0);
    assert_eq!(o.vmtable_import_from(), 8);
    assert_eq!(o.size_of_vmtable_definition(), 16);
    assert_eq!(o.vmtable_definition_base(), 0);
    assert_eq!(o.vmtable_definition_current_elements(), 8);
    assert_eq!(o.size_of_vmtable_definition_current_elements(), 4);
    assert_eq!(o.size_of_vmmemory_import(), 16);
    assert_eq!(o.vmmemory_import_definition(), 0);
    assert_eq!(o.vmmemory_import_from(), 8);
    assert_eq!(o.size_of_vmmemory_definition(), 16);
    assert_eq!(o.vmmemory_definition_base(), 0);
    assert_eq!(o.vmmemory_definition_current_length(), 8);
    assert_eq!(o.size_of_vmmemory_definition_current_length(), 4);
    assert_eq!(o.size_of_vmglobal_import(), 8);
    assert_eq!(o.vmglobal_import_definition(), 0);
    assert_eq!(o.size_of_vmglobal_definition(), 16);
    assert_eq!(o.size_of_vmshared_signature_index(), 4);
    assert_eq!(o.vmcaller_checked_anyfunc_func_ptr(), 0);
    assert_eq!(o.vmcaller_checked_anyfunc_type_index(), 8);
    assert_eq!(o.vmcaller_checked_anyfunc_vmctx(), 16);
    assert_eq!(o.size_of_vmcaller_checked_anyfunc(), 24);
}

#[test]
fn builtin_function_indices() {
    assert_eq!(VMBuiltinFunctionIndex::get_memory32_grow_index().index(), 0);
    assert_eq!(VMBuiltinFunctionIndex::get_imported_memory32_grow_index().index(), 1);
    assert_eq!(VMBuiltinFunctionIndex::get_memory32_size_index().index(), 2);
    assert_eq!(VMBuiltinFunctionIndex::get_imported_memory32_size_index().index(), 3);
    assert_eq!(VMBuiltinFunctionIndex::get_table_copy_index().index(), 4);
    assert_eq!(VMBuiltinFunctionIndex::get_table_init_index().index(), 5);
    assert_eq!(VMBuiltinFunctionIndex::get_elem_drop_index().index(), 6);
    assert_eq!(VMBuiltinFunctionIndex::get_defined_memory_copy_index().index(), 7);
    assert_eq!(VMBuiltinFunctionIndex::get_imported_memory_copy_index().index(), 8);
    assert_eq!(VMBuiltinFunctionIndex::get_memory_fill_index().index(), 9);
    assert_eq!(VMBuiltinFunctionIndex::get_imported_memory_fill_index().index(), 10);
    assert_eq!(VMBuiltinFunctionIndex::get_memory_init_index().index(), 11);
    assert_eq!(VMBuiltinFunctionIndex::get_data_drop_index().index(), 12);
    assert_eq!(VMBuiltinFunctionIndex::builtin_functions_total_number(), 13);
}

#[test]
fn offsets_from_module_counts() {
    let mut local = ModuleLocal::new();
    local.signatures.push(wasmrt::types::FuncType::new(vec![], vec![]));
    local.signatures.push(wasmrt::types::FuncType::new(vec![], vec![]));
    local.functions.push(SignatureIndex::from_u32(0));
    local.num_imported_funcs = 1;
    let o = VMOffsets::new(8, &local);
    assert_eq!(o.num_signature_ids, 2);
    assert_eq!(o.num_imported_functions, 1);
    assert_eq!(o.vmctx_imported_functions_begin(), 8);
}

#[test]
fn target_shared_signature_index() {
    let i = TargetSharedSignatureIndex::new(7);
    assert_eq!(i.index(), 7);
}
