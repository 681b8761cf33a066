//! The instantiation protocol: import resolution, resource creation, the
//! initializers, the start function, and the early-exit plumbing.

use wasmrt::artifact::{Artifact, Extern, ImportObject, InstanceHandle};
use wasmrt::environ::{DataInitializer, DataInitializerLocation, ModuleEnvironment};
use wasmrt::errors::{InstantiationError, RuntimeError, TrapCode, UserPayload};
use wasmrt::indexes::MemoryIndex;
use wasmrt::native::FunctionBody;
use wasmrt::tunables::Tunables;
use wasmrt::types::{FuncType, GlobalInit, GlobalType, MemoryType, Mutability, Type, Value};

fn env() -> ModuleEnvironment {
    ModuleEnvironment::new(Tunables::for_pointer_width(8, false))
}

/// An artifact whose module imports `env.early_exit : () -> ()`.
fn importing_artifact() -> Artifact {
    let mut e = env();
    e.declare_signature(FuncType::new(vec![], vec![])).unwrap();
    e.declare_func_import(wasmrt::indexes::SignatureIndex(0), "env", "early_exit").unwrap();
    Artifact {
        module: e.result.module,
        data_initializers: vec![],
        finished_functions: vec![FunctionBody(0xAA)],
        signatures: vec![],
    }
}

/// An artifact with no imports and one memory of one page.
fn memory_artifact(data: Vec<DataInitializer>) -> Artifact {
    let mut e = env();
    e.declare_memory(MemoryType::new(1, Some(1), false)).unwrap();
    Artifact {
        module: e.result.module,
        data_initializers: data,
        finished_functions: vec![],
        signatures: vec![],
    }
}

#[test]
fn missing_import_is_a_link_error() {
    let artifact = importing_artifact();
    let err = artifact.instantiate(&ImportObject::new()).unwrap_err();
    assert!(matches!(err, InstantiationError::Link(_)));
}

#[test]
fn matching_import_resolves() {
    let artifact = importing_artifact();
    let mut imports = ImportObject::new();
    imports.register(
        "env",
        "early_exit",
        Extern::Function { ty: FuncType::new(vec![], vec![]), body: FunctionBody(0x1000) },
    );
    let handle = artifact.instantiate(&imports).unwrap();
    assert_eq!(handle.imported_functions, vec![FunctionBody(0x1000)]);
    assert_eq!(handle.finished_functions, vec![FunctionBody(0xAA)]);
}

#[test]
fn mismatched_import_type_is_a_link_error() {
    let artifact = importing_artifact();
    let mut imports = ImportObject::new();
    imports.register(
        "env",
        "early_exit",
        Extern::Function {
            ty: FuncType::new(vec![Type::I32], vec![]),
            body: FunctionBody(0x1000),
        },
    );
    assert!(matches!(
        artifact.instantiate(&imports).unwrap_err(),
        InstantiationError::Link(_)
    ));
}

#[test]
fn start_trap_fails_instantiation() {
    let artifact = memory_artifact(vec![]);
    let handle = artifact.instantiate(&ImportObject::new()).unwrap();
    let err = artifact
        .finish_instantiation(&handle, Some(TrapCode::UnreachableCodeReached))
        .unwrap_err();
    match err {
        InstantiationError::Start(RuntimeError::Trap(code)) => {
            assert_eq!(code, TrapCode::UnreachableCodeReached);
        }
        other => panic!("expected a start trap, got {:?}", other),
    }
    assert!(artifact.finish_instantiation(&handle, None).is_ok());
}

#[test]
fn data_segment_out_of_bounds_traps() {
    let oob = DataInitializer {
        location: DataInitializerLocation { memory_index: MemoryIndex(0), base: None, offset: 65536 },
        data: vec![1],
    };
    let artifact = memory_artifact(vec![oob]);
    let handle = artifact.instantiate(&ImportObject::new()).unwrap();
    let err = artifact.finish_instantiation(&handle, None).unwrap_err();
    match err {
        InstantiationError::Start(RuntimeError::Trap(code)) => {
            assert_eq!(code, TrapCode::HeapAccessOutOfBounds);
        }
        other => panic!("expected a heap trap, got {:?}", other),
    }
}

#[test]
fn data_segment_in_bounds_passes() {
    let fitting = DataInitializer {
        location: DataInitializerLocation { memory_index: MemoryIndex(0), base: None, offset: 65532 },
        data: vec![1, 2, 3, 4],
    };
    let artifact = memory_artifact(vec![fitting]);
    let handle = artifact.instantiate(&ImportObject::new()).unwrap();
    assert!(artifact.finish_instantiation(&handle, None).is_ok());
}

#[test]
fn oversized_memory_is_a_link_error() {
    let mut e = env();
    e.declare_memory(MemoryType::new(70000, None, false)).unwrap();
    let artifact = Artifact {
        module: e.result.module,
        data_initializers: vec![],
        finished_functions: vec![],
        signatures: vec![],
    };
    assert!(matches!(
        artifact.instantiate(&ImportObject::new()).unwrap_err(),
        InstantiationError::Link(_)
    ));
}

#[test]
fn defined_global_copies_imported_value() {
    let mut e = env();
    e.declare_global_import(GlobalType::new(Type::I32, Mutability::Const), "env", "g").unwrap();
    e.declare_global(GlobalType {
        ty: Type::I32,
        mutability: Mutability::Const,
        initializer: GlobalInit::GetGlobal(wasmrt::indexes::GlobalIndex(0)),
    })
    .unwrap();
    let artifact = Artifact {
        module: e.result.module,
        data_initializers: vec![],
        finished_functions: vec![],
        signatures: vec![],
    };
    let mut imports = ImportObject::new();
    imports.register(
        "env",
        "g",
        Extern::Global(GlobalType::new(Type::I32, Mutability::Const), Value::I32(41)),
    );
    let handle = artifact.instantiate(&imports).unwrap();
    assert_eq!(handle.globals.len(), 2);
    assert!(matches!(handle.globals[1], Value::I32(41)));
}

#[test]
fn early_exit_payload_downcasts() {
    let payload = UserPayload { kind: 7, value: 1, description: String::from("exit code 1") };
    let err = RuntimeError::user(payload.clone());
    let recovered = err.downcast(7).unwrap();
    assert_eq!(recovered, payload);

    let err = RuntimeError::user(payload.clone());
    assert!(err.downcast(8).is_err());

    let trap = RuntimeError::from_trap(TrapCode::UnreachableCodeReached);
    assert!(trap.downcast(7).is_err());
}

#[test]
fn resolver_first_entry_wins() {
    let mut imports = ImportObject::new();
    imports.register("m", "f", Extern::Memory(MemoryType::new(1, None, false)));
    imports.register("m", "f", Extern::Memory(MemoryType::new(9, None, false)));
    let module = String::from("m");
    let field = String::from("f");
    match imports.lookup(&module, &field) {
        Some(Extern::Memory(m)) => assert_eq!(m.minimum, 1),
        _ => panic!("expected the first registered memory"),
    }
    let missing = String::from("g");
    assert!(imports.lookup(&module, &missing).is_none());
}

#[test]
fn handle_state_counts() {
    let artifact = memory_artifact(vec![]);
    let handle: InstanceHandle = artifact.instantiate(&ImportObject::new()).unwrap();
    assert_eq!(handle.memory_pages, vec![1]);
    assert_eq!(handle.table_sizes.len(), 0);
    assert_eq!(handle.globals.len(), 0);
}

#[test]
fn initializer_trap_precedes_start_trap() {
    // An out-of-bounds segment ends the instantiation before the start
    // function's outcome is even considered.
    let oob = DataInitializer {
        location: DataInitializerLocation { memory_index: MemoryIndex(0), base: None, offset: 65536 },
        data: vec![1],
    };
    let artifact = memory_artifact(vec![oob]);
    let handle = artifact.instantiate(&ImportObject::new()).unwrap();
    let err = artifact
        .finish_instantiation(&handle, Some(TrapCode::UnreachableCodeReached))
        .unwrap_err();
    match err {
        InstantiationError::Start(RuntimeError::Trap(code)) => {
            assert_eq!(code, TrapCode::HeapAccessOutOfBounds);
        }
        other => panic!("expected the segment's trap, got {:?}", other),
    }
}
