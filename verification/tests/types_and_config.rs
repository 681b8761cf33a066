//! Value and extern types, the tunables policy, and the compiler
//! configurations.

use wasmrt::config::{CpuFeature, CpuFeatureSet, CraneliftConfig, Features, OptLevel};
use wasmrt::config::{isa_flag_name, llvm_feature_flag, LLVMConfig, LLVMOptLevel, Target};
use wasmrt::module::{MemoryPlan, MemoryStyle, TablePlan, TableStyle};
use wasmrt::tunables::Tunables;
use wasmrt::types::{
    ExternType, FuncType, GlobalInit, GlobalType, MemoryType, Mutability, TableType, Type, V128,
    Value,
};

#[test]
fn numeric_and_reference_types() {
    assert!(Type::I32.is_num());
    assert!(Type::F64.is_num());
    assert!(!Type::FuncRef.is_num());
    assert!(Type::FuncRef.is_ref());
    assert!(Type::AnyRef.is_ref());
    assert!(!Type::I64.is_ref());
}

#[test]
fn func_type_equality_is_structural() {
    let a = FuncType::new(vec![Type::I32], vec![Type::I64]);
    let b = FuncType::new(vec![Type::I32], vec![Type::I64]);
    let c = FuncType::new(vec![Type::I32], vec![]);
    assert_eq!(a, b);
    assert_ne!(a, c);
    assert_eq!(a.params(), [Type::I32]);
    assert_eq!(a.results(), [Type::I64]);
}

#[test]
fn v128_bytes() {
    let bytes = [7u8; 16];
    let v = V128::from_slice(&bytes);
    assert_eq!(v.bytes(), &bytes);
    assert_eq!(v.as_slice(), &bytes[..]);
    assert_eq!(v.to_vec(), bytes.to_vec());
    assert_eq!(v, V128::from_slice(&[7u8; 16]));
}

#[test]
fn global_init_value_roundtrip() {
    let v: Value<u32> = Value::I32(-5);
    let init = GlobalInit::from_value(v);
    assert_eq!(init, GlobalInit::I32Const(-5));
    assert!(matches!(init.to_value::<u32>(), Value::I32(-5)));

    let init = GlobalInit::from_value::<u32>(Value::F64(0x400921FB54442D18));
    assert_eq!(init, GlobalInit::F64Const(0x400921FB54442D18));
}

#[test]
fn mutability_conversions() {
    assert_eq!(Mutability::from(false), Mutability::Const);
    assert_eq!(Mutability::from(true), Mutability::Var);
    assert_eq!(bool::from(Mutability::Const), false);
    assert_eq!(bool::from(Mutability::Var), true);
}

#[test]
fn extern_type_accessors() {
    let f = ExternType::Func(FuncType::new(vec![], vec![]));
    assert!(f.func().is_some());
    assert!(f.global().is_none());
    assert!(f.table().is_none());
    assert!(f.memory().is_none());
    assert_eq!(*f.unwrap_func(), FuncType::new(vec![], vec![]));

    let g = ExternType::Global(GlobalType::new(Type::I32, Mutability::Var));
    assert!(g.global().is_some());
    assert_eq!(g.unwrap_global().mutability, Mutability::Var);

    let t = ExternType::Table(TableType::new(Type::FuncRef, 1, None));
    assert_eq!(t.unwrap_table().minimum, 1);

    let m = ExternType::Memory(MemoryType::new(2, Some(4), false));
    assert_eq!(m.unwrap_memory().maximum, Some(4));
}

#[test]
fn import_export_descriptors() {
    let ty = ExternType::Func(FuncType::new(vec![], vec![]));
    let import = wasmrt::types::ImportType::new("env", "f", ty.clone());
    assert_eq!(import.module(), "env");
    assert_eq!(import.name(), "f");
    assert!(import.ty().func().is_some());

    let export = wasmrt::types::ExportType::new("run", ty);
    assert_eq!(export.name(), "run");
    assert!(export.ty().func().is_some());
}

#[test]
fn tunables_by_pointer_width() {
    let t64 = Tunables::for_pointer_width(8, false);
    assert_eq!(t64.static_memory_bound, 0x1_0000);
    assert_eq!(t64.static_memory_offset_guard_size, 0x8000_0000);
    assert_eq!(t64.dynamic_memory_offset_guard_size, 0x1_0000);

    let t32 = Tunables::for_pointer_width(4, false);
    assert_eq!(t32.static_memory_bound, 0x4000);
    assert_eq!(t32.static_memory_offset_guard_size, 0x1_0000);

    let t16 = Tunables::for_pointer_width(2, false);
    assert_eq!(t16.static_memory_bound, 0x400);
    assert_eq!(t16.static_memory_offset_guard_size, 0x1000);

    // On Windows the bound and static guard are clamped.
    let twin = Tunables::for_pointer_width(8, true);
    assert_eq!(twin.static_memory_bound, 0x100);
    assert_eq!(twin.static_memory_offset_guard_size, 0x1_0000);
    assert_eq!(twin.dynamic_memory_offset_guard_size, 0x1_0000);
}

#[test]
fn memory_plans_follow_the_bound() {
    let t = Tunables::for_pointer_width(8, false);
    let bounded = MemoryPlan::for_memory(MemoryType::new(1, Some(2), false), &t);
    assert_eq!(bounded.style, MemoryStyle::Static { bound: 0x1_0000 });
    assert_eq!(bounded.offset_guard_size, 0x8000_0000);

    let unbounded = MemoryPlan::for_memory(MemoryType::new(1, None, false), &t);
    assert_eq!(unbounded.style, MemoryStyle::Dynamic);
    assert_eq!(unbounded.offset_guard_size, 0x1_0000);

    let plan = TablePlan::for_table(TableType::new(Type::FuncRef, 2, None), &t);
    assert_eq!(plan.style, TableStyle::CallerChecksSignature);
    assert_eq!(plan.table.minimum, 2);
}

#[test]
fn cranelift_config_settings() {
    let mut config = CraneliftConfig::new();
    assert!(!config.enable_nan_canonicalization);
    assert!(!config.enable_verifier);
    assert_eq!(config.opt_level, OptLevel::Speed);
    assert_eq!(config.opt_level_setting(), "speed");
    assert_eq!(config.verifier_setting(), "false");

    config.enable_verifier = true;
    assert_eq!(config.verifier_setting(), "true");

    config.opt_level = OptLevel::NoOpt;
    assert_eq!(config.opt_level_setting(), "none");
    config.opt_level = OptLevel::SpeedAndSize;
    assert_eq!(config.opt_level_setting(), "speed_and_size");

    // The SIMD proposal turns optimization off.
    let mut features = Features::default();
    features.simd = true;
    config.set_features(features);
    assert_eq!(config.opt_level_setting(), "none");

    // The flags build against the real backend settings.
    let _flags = config.flags();
}

#[test]
fn isa_flag_names() {
    assert_eq!(isa_flag_name(CpuFeature::SSE2), None);
    assert_eq!(isa_flag_name(CpuFeature::SSE3), Some("has_sse3"));
    assert_eq!(isa_flag_name(CpuFeature::SSE41), Some("has_sse41"));
    assert_eq!(isa_flag_name(CpuFeature::AVX2), Some("has_avx2"));
    assert_eq!(isa_flag_name(CpuFeature::LZCNT), Some("has_lzcnt"));
}

#[test]
fn cpu_feature_sets() {
    let none = CpuFeatureSet::none();
    assert!(!none.contains(CpuFeature::SSE2));
    let set = none.with(CpuFeature::SSE2).with(CpuFeature::AVX);
    assert!(set.contains(CpuFeature::SSE2));
    assert!(set.contains(CpuFeature::AVX));
    assert!(!set.contains(CpuFeature::BMI1));
}

#[test]
fn llvm_config_defaults_and_features() {
    let config = LLVMConfig::new();
    assert!(config.enable_nan_canonicalization);
    assert!(!config.enable_verifier);
    assert_eq!(config.opt_level, LLVMOptLevel::Aggressive);
    assert_eq!(config.llvm_feature_string(), "");

    assert_eq!(llvm_feature_flag(CpuFeature::SSE2), "+sse2");
    assert_eq!(llvm_feature_flag(CpuFeature::BMI1), "+bmi");
    assert_eq!(llvm_feature_flag(CpuFeature::AVX512VL), "+avx512vl");

    let mut config = LLVMConfig::new();
    let set = CpuFeatureSet::none()
        .with(CpuFeature::SSE2)
        .with(CpuFeature::POPCNT)
        .with(CpuFeature::LZCNT);
    config.target = Target::new(config.target.triple.clone(), set);
    assert_eq!(config.llvm_feature_string(), "+sse2,+popcnt,+lzcnt");
}
