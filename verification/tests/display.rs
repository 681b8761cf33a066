//! Source locations: printing, bits, and the default location.

use wasmrt::sourceloc::SourceLoc;
use wasmrt::relocation::RelocationKind;
use wasmrt::types::{FuncType, Type};

#[test]
fn display() {
    assert_eq!(SourceLoc::default().display(), "0x-");
    assert_eq!(SourceLoc::new(0).display(), "0x0000");
    assert_eq!(SourceLoc::new(16).display(), "0x0010");
    assert_eq!(SourceLoc::new(0xabcdef).display(), "0xabcdef");
}

#[test]
fn source_loc_bits_roundtrip() {
    let s = SourceLoc::new(12345);
    assert_eq!(SourceLoc::new(s.bits()).bits(), s.bits());
    assert_eq!(s.bits(), 12345);
    assert!(!s.is_default());
    assert!(SourceLoc::default().is_default());
    assert_eq!(SourceLoc::default().bits(), u32::MAX);
}

#[test]
fn relocation_kind_names() {
    assert_eq!(RelocationKind::Abs4.display_name(), "Abs4");
    assert_eq!(RelocationKind::Abs8.display_name(), "Abs8");
    assert_eq!(RelocationKind::X86PCRel4.display_name(), "PCRel4");
    assert_eq!(RelocationKind::X86PCRelRodata4.display_name(), "PCRelRodata4");
    assert_eq!(RelocationKind::X86CallPCRel4.display_name(), "CallPCRel4");
}

#[test]
fn func_type_display() {
    let ty = FuncType::new(vec![Type::I32, Type::I32], vec![Type::I32]);
    assert_eq!(ty.display(), "[I32, I32] -> [I32]");
    let empty = FuncType::new(vec![], vec![]);
    assert_eq!(empty.display(), "[] -> []");
    let mixed = FuncType::new(vec![Type::F32, Type::FuncRef], vec![Type::V128]);
    assert_eq!(mixed.display(), "[F32, FuncRef] -> [V128]");
}
