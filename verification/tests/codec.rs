//! Compiled-code serialization: the round trip and the corrupt-input error.

use wasmrt::errors::{DeserializeError, TrapCode};
use wasmrt::function::{CompiledFunction, Compilation, FunctionExtent, TrapInformation};
use wasmrt::indexes::{DefinedFuncIndex, FuncIndex, JumpTable};
use wasmrt::relocation::{LibCall, Relocation, RelocationKind, RelocationTarget};
use wasmrt::serialize::{deserialize_compilation, serialize_compilation};
use wasmrt::sourceloc::SourceLoc;
use wasmrt::unwind::{CompiledFunctionUnwindInfo, FDERelocEntry, FunctionTableReloc};

fn sample_compilation() -> Compilation {
    let windows_fn = CompiledFunction {
        body: vec![0x90, 0xC3],
        relocations: vec![
            Relocation {
                kind: RelocationKind::Abs8,
                reloc_target: RelocationTarget::UserFunc(FuncIndex(3)),
                offset: 2,
                addend: -4,
            },
            Relocation {
                kind: RelocationKind::X86CallPCRel4,
                reloc_target: RelocationTarget::LibCall(LibCall::Probestack),
                offset: 9,
                addend: 0,
            },
            Relocation {
                kind: RelocationKind::X86PCRelRodata4,
                reloc_target: RelocationTarget::JumpTable(FuncIndex(1), JumpTable(2)),
                offset: 17,
                addend: 12,
            },
        ],
        traps: vec![TrapInformation {
            code_offset: 5,
            srcloc: SourceLoc::new(0x40),
            trap_code: TrapCode::IntegerDivisionByZero,
        }],
        jt_offsets: vec![16, 32],
        unwind_info: CompiledFunctionUnwindInfo::Windows(vec![1, 2, 3]),
    };
    let frame_fn = CompiledFunction {
        body: vec![0xCC],
        relocations: vec![],
        traps: vec![],
        jt_offsets: vec![],
        unwind_info: CompiledFunctionUnwindInfo::FrameLayout(
            vec![7, 8],
            1,
            vec![FDERelocEntry(-3, 4, 8)],
        ),
    };
    Compilation::new(vec![windows_fn, frame_fn])
}

#[test]
fn compilation_roundtrip() {
    let c = sample_compilation();
    let bytes = serialize_compilation(&c).unwrap();
    let back = deserialize_compilation(&bytes).unwrap();
    assert_eq!(back, c);
}

#[test]
fn corrupt_input_is_rejected() {
    assert_eq!(deserialize_compilation(&[1, 2, 3]).unwrap_err(), DeserializeError::Corrupt);
    // A valid serialization with a trailing byte is refused too.
    let c = sample_compilation();
    let mut bytes = serialize_compilation(&c).unwrap();
    bytes.push(0);
    assert_eq!(deserialize_compilation(&bytes).unwrap_err(), DeserializeError::Corrupt);
}

#[test]
fn empty_compilation_roundtrip() {
    let c = Compilation::new(vec![]);
    let bytes = serialize_compilation(&c).unwrap();
    let back = deserialize_compilation(&bytes).unwrap();
    assert_eq!(back, c);
    assert!(back.is_empty());
}

#[test]
fn compilation_accessors() {
    let c = sample_compilation();
    assert_eq!(c.len(), 2);
    assert!(!c.is_empty());
    assert_eq!(c.get(DefinedFuncIndex(0)).body, vec![0x90, 0xC3]);
    assert_eq!(c.get_jt_offsets(), vec![vec![16, 32], vec![]]);
    assert_eq!(c.get_relocations()[1], vec![]);
    assert_eq!(c.get_traps()[0].len(), 1);
}

#[test]
fn compilation_from_buffer() {
    let buffer = vec![1, 2, 3, 4, 5];
    let c = Compilation::from_buffer(
        buffer,
        vec![FunctionExtent {
            body: 0..3,
            jt_offsets: vec![7],
            unwind_info: 3..5,
            relocations: vec![],
            traps: vec![],
        }],
    );
    assert_eq!(c.len(), 1);
    assert_eq!(c.get(DefinedFuncIndex(0)).body, vec![1, 2, 3]);
    assert_eq!(c.get(DefinedFuncIndex(0)).jt_offsets, vec![7]);
    assert_eq!(
        c.get(DefinedFuncIndex(0)).unwind_info,
        CompiledFunctionUnwindInfo::Windows(vec![4, 5])
    );
}

#[test]
fn unwind_info_shapes() {
    assert!(CompiledFunctionUnwindInfo::NoInfo.is_empty());
    assert_eq!(CompiledFunctionUnwindInfo::NoInfo.len(), 0);
    let windows = CompiledFunctionUnwindInfo::Windows(vec![1, 2, 3]);
    assert!(!windows.is_empty());
    assert_eq!(windows.len(), 3);
    let layout = CompiledFunctionUnwindInfo::FrameLayout(vec![9], 0, vec![FDERelocEntry(5, 6, 8)]);
    assert_eq!(layout.len(), 1);
}

#[test]
fn unwind_serialize_writes_bytes_and_relocs() {
    let windows = CompiledFunctionUnwindInfo::Windows(vec![1, 2, 3]);
    let mut dest = vec![0; 3];
    let mut relocs: Vec<FunctionTableReloc> = vec![];
    windows.serialize(&mut dest, &mut relocs);
    assert_eq!(dest, vec![1, 2, 3]);
    assert!(relocs.is_empty());

    let layout = CompiledFunctionUnwindInfo::FrameLayout(
        vec![9, 9],
        0,
        vec![FDERelocEntry(-7, 24, 8)],
    );
    let mut dest = vec![0; 2];
    layout.serialize(&mut dest, &mut relocs);
    assert_eq!(dest, vec![9, 9]);
    assert_eq!(relocs, vec![FunctionTableReloc { offset: 24, addend: -7 }]);
}
