//! Translating whole binaries: section decoding, the shared-memory
//! rejection, and the imported-first invariant.

use wasmrt::environ::ModuleEnvironment;
use wasmrt::errors::WasmError;
use wasmrt::indexes::{ExportIndex, FuncIndex};
use wasmrt::tunables::Tunables;
use wasmrt::types::{MemoryType, Type};

fn env() -> ModuleEnvironment {
    ModuleEnvironment::new(Tunables::for_pointer_width(8, false))
}

/// A module exporting `run(i32, i32) -> i32` that adds its arguments.
fn identity_add_module() -> Vec<u8> {
    let mut bytes = vec![0x00, 0x61, 0x73, 0x6D, 0x01, 0x00, 0x00, 0x00];
    // Type section: (i32, i32) -> i32.
    bytes.extend_from_slice(&[0x01, 0x07, 0x01, 0x60, 0x02, 0x7F, 0x7F, 0x01, 0x7F]);
    // Function section: one function of type zero.
    bytes.extend_from_slice(&[0x03, 0x02, 0x01, 0x00]);
    // Export section: "run" as function zero.
    bytes.extend_from_slice(&[0x07, 0x07, 0x01, 0x03, b'r', b'u', b'n', 0x00, 0x00]);
    // Code section: local.get 0, local.get 1, i32.add, end.
    bytes.extend_from_slice(&[
        0x0A, 0x09, 0x01, 0x07, 0x00, 0x20, 0x00, 0x20, 0x01, 0x6A, 0x0B,
    ]);
    bytes
}

/// A module importing `env.early_exit : () -> ()` and exporting
/// `run(i32, i32) -> i32` whose body calls the import, then adds.
fn early_exit_module() -> Vec<u8> {
    let mut bytes = vec![0x00, 0x61, 0x73, 0x6D, 0x01, 0x00, 0x00, 0x00];
    // Type section: () -> () and (i32, i32) -> i32.
    bytes.extend_from_slice(&[
        0x01, 0x0A, 0x02, 0x60, 0x00, 0x00, 0x60, 0x02, 0x7F, 0x7F, 0x01, 0x7F,
    ]);
    // Import section: env.early_exit of type zero.
    bytes.extend_from_slice(&[0x02, 0x12, 0x01, 0x03, b'e', b'n', b'v', 0x0A]);
    bytes.extend_from_slice(b"early_exit");
    bytes.extend_from_slice(&[0x00, 0x00]);
    // Function section: one local function of type one.
    bytes.extend_from_slice(&[0x03, 0x02, 0x01, 0x01]);
    // Export section: "run" as function one.
    bytes.extend_from_slice(&[0x07, 0x07, 0x01, 0x03, b'r', b'u', b'n', 0x00, 0x01]);
    // Code section: call 0, local.get 0, local.get 1, i32.add, end.
    bytes.extend_from_slice(&[
        0x0A, 0x0B, 0x01, 0x09, 0x00, 0x10, 0x00, 0x20, 0x00, 0x20, 0x01, 0x6A, 0x0B,
    ]);
    bytes
}

/// A module whose memory section declares a shared memory.
fn shared_memory_module() -> Vec<u8> {
    let mut bytes = vec![0x00, 0x61, 0x73, 0x6D, 0x01, 0x00, 0x00, 0x00];
    bytes.extend_from_slice(&[0x05, 0x04, 0x01, 0x03, 0x01, 0x02]);
    bytes
}

#[test]
fn identity_add_translates() {
    let t = env().translate(&identity_add_module()).unwrap();
    assert_eq!(t.module.local.signatures.len(), 1);
    assert_eq!(t.module.local.signatures[0].params(), [Type::I32, Type::I32]);
    assert_eq!(t.module.local.signatures[0].results(), [Type::I32]);
    assert_eq!(t.module.local.functions.len(), 1);
    assert_eq!(t.module.local.num_imported_funcs, 0);
    assert_eq!(t.module.exports.len(), 1);
    assert_eq!(t.module.exports[0].0, "run");
    assert!(matches!(t.module.exports[0].1, ExportIndex::Function(FuncIndex(0))));
    assert_eq!(t.function_body_inputs.len(), 1);
    assert_eq!(t.function_body_inputs[0].data, vec![0x00, 0x20, 0x00, 0x20, 0x01, 0x6A, 0x0B]);
}

#[test]
fn early_exit_module_translates() {
    let t = env().translate(&early_exit_module()).unwrap();
    assert_eq!(t.module.local.num_imported_funcs, 1);
    assert_eq!(t.module.local.functions.len(), 2);
    assert_eq!(t.module.imports.len(), 1);
    assert_eq!(t.module.imports[0].0 .0, "env");
    assert_eq!(t.module.imports[0].0 .1, "early_exit");
    assert_eq!(t.module.exports[0].0, "run");
    assert!(matches!(t.module.exports[0].1, ExportIndex::Function(FuncIndex(1))));
}

#[test]
fn shared_memory_is_rejected() {
    let err = env().translate(&shared_memory_module()).unwrap_err();
    match err {
        WasmError::Unsupported(msg) => {
            assert!(msg.contains("shared memories are not supported"));
        }
        other => panic!("expected an unsupported-feature error, got {:?}", other),
    }
}

#[test]
fn shared_memory_rejected_at_declaration() {
    let mut e = env();
    let err = e.declare_memory(MemoryType::new(1, Some(2), true)).unwrap_err();
    assert!(matches!(err, WasmError::Unsupported(_)));
    // A plain memory of the same shape is accepted.
    assert!(e.declare_memory(MemoryType::new(1, Some(2), false)).is_ok());
}

#[test]
fn bad_magic_is_rejected() {
    let err = env().translate(&[0x00, 0x61, 0x73, 0x6E, 0x01, 0x00, 0x00, 0x00]).unwrap_err();
    assert!(matches!(err, WasmError::InvalidWebAssembly { .. }));
    let err = env().translate(&[0x00, 0x61]).unwrap_err();
    assert!(matches!(err, WasmError::InvalidWebAssembly { .. }));
}

#[test]
fn sections_out_of_order_are_rejected() {
    let mut bytes = vec![0x00, 0x61, 0x73, 0x6D, 0x01, 0x00, 0x00, 0x00];
    // A function section before the type section.
    bytes.extend_from_slice(&[0x03, 0x02, 0x01, 0x00]);
    bytes.extend_from_slice(&[0x01, 0x07, 0x01, 0x60, 0x02, 0x7F, 0x7F, 0x01, 0x7F]);
    assert!(env().translate(&bytes).is_err());
}

#[test]
fn module_name_is_read() {
    let mut bytes = vec![0x00, 0x61, 0x73, 0x6D, 0x01, 0x00, 0x00, 0x00];
    // Custom section "name", module-name subsection naming the module "m".
    bytes.extend_from_slice(&[0x00, 0x09, 0x04, b'n', b'a', b'm', b'e', 0x00, 0x02, 0x01, b'm']);
    let t = env().translate(&bytes).unwrap();
    assert_eq!(t.module.name.as_deref(), Some("m"));
}

#[test]
fn memory_section_plans_memories() {
    let mut bytes = vec![0x00, 0x61, 0x73, 0x6D, 0x01, 0x00, 0x00, 0x00];
    // One memory with minimum one page and maximum two pages.
    bytes.extend_from_slice(&[0x05, 0x04, 0x01, 0x01, 0x01, 0x02]);
    let t = env().translate(&bytes).unwrap();
    assert_eq!(t.module.local.memory_plans.len(), 1);
    assert_eq!(t.module.local.memory_plans[0].memory, MemoryType::new(1, Some(2), false));
    assert_eq!(t.module.local.num_imported_memories, 0);
}

#[test]
fn imported_entries_come_first() {
    let t = env().translate(&early_exit_module()).unwrap();
    // The import count never exceeds the list, and every recorded import
    // points below the count of its class.
    assert!(t.module.local.num_imported_funcs <= t.module.local.functions.len());
    for (_, import) in &t.module.imports {
        match import {
            wasmrt::indexes::ImportIndex::Function(f) => {
                assert!((f.0 as usize) < t.module.local.num_imported_funcs);
            }
            _ => panic!("unexpected import class"),
        }
    }
}

#[test]
fn start_section_is_recorded() {
    let mut bytes = vec![0x00, 0x61, 0x73, 0x6D, 0x01, 0x00, 0x00, 0x00];
    // One () -> () function that is the start function.
    bytes.extend_from_slice(&[0x01, 0x04, 0x01, 0x60, 0x00, 0x00]);
    bytes.extend_from_slice(&[0x03, 0x02, 0x01, 0x00]);
    bytes.extend_from_slice(&[0x08, 0x01, 0x00]);
    bytes.extend_from_slice(&[0x0A, 0x04, 0x01, 0x02, 0x00, 0x0B]);
    let t = env().translate(&bytes).unwrap();
    assert_eq!(t.module.start_func, Some(FuncIndex(0)));
}

#[test]
fn empty_module_translates() {
    let t = env().translate(&[0x00, 0x61, 0x73, 0x6D, 0x01, 0x00, 0x00, 0x00]).unwrap();
    assert_eq!(t.module.local.functions.len(), 0);
    assert!(t.module.name.is_none());
    assert!(t.module_translation.is_some());
}
