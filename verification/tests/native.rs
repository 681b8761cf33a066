//! The typed native-function surface: Wasm types of host types, type lists,
//! and the signatures `Func` derives from them.

use wasmrt::native::{
    Func, FunctionBody, HostFunction, NativeWasmType, TrapEarly, WasmTypeList, WithEnv, WithoutEnv,
};
use wasmrt::types::{FuncType, Type};

/// A host function handle standing at a chosen address, of any shape.
struct HostAt(usize);

impl<Args: WasmTypeList, Rets: WasmTypeList> HostFunction<Args, Rets, WithoutEnv, ()> for HostAt {
    fn to_raw(self) -> FunctionBody {
        FunctionBody(self.0)
    }
}

/// A host function handle that takes an environment.
struct HostEnvAt(usize);

impl<Args: WasmTypeList, Rets: WasmTypeList> HostFunction<Args, Rets, WithEnv, u32> for HostEnvAt {
    fn to_raw(self) -> FunctionBody {
        FunctionBody(self.0)
    }
}

#[test]
fn test_wasm_types() {
    assert_eq!(<i32 as NativeWasmType>::wasm_type(), Type::I32);
    assert_eq!(<i64 as NativeWasmType>::wasm_type(), Type::I64);
}

#[test]
fn test_simple_values() {
    // Simple values
    assert_eq!(<i32 as WasmTypeList>::wasm_types(), [Type::I32]);
    assert_eq!(<i64 as WasmTypeList>::wasm_types(), [Type::I64]);

    // Multi values
    assert_eq!(<(i32, i32) as WasmTypeList>::wasm_types(), [Type::I32, Type::I32]);
    assert_eq!(<(i64, i64) as WasmTypeList>::wasm_types(), [Type::I64, Type::I64]);
}

#[test]
fn test_empty_array() {
    assert_eq!(<() as WasmTypeList>::empty_array().len(), 0);
    assert_eq!(<i32 as WasmTypeList>::empty_array().len(), 1);
    assert_eq!(<(i32, i64) as WasmTypeList>::empty_array().len(), 2);
}

#[test]
fn test_function_types() {
    assert_eq!(Func::<(), ()>::new(HostAt(0)).ty(), FuncType::new(vec![], vec![]));
    assert_eq!(Func::<(), i32>::new(HostAt(0)).ty(), FuncType::new(vec![], vec![Type::I32]));
    assert_eq!(Func::<i32, ()>::new(HostAt(0)).ty(), FuncType::new(vec![Type::I32], vec![]));
    assert_eq!(
        Func::<i32, i32>::new(HostAt(0)).ty(),
        FuncType::new(vec![Type::I32], vec![Type::I32])
    );
    assert_eq!(
        Func::<(i32, i32), i32>::new(HostAt(0)).ty(),
        FuncType::new(vec![Type::I32, Type::I32], vec![Type::I32])
    );
    assert_eq!(
        Func::<(i32, i32), (i32, i32)>::new(HostAt(0)).ty(),
        FuncType::new(vec![Type::I32, Type::I32], vec![Type::I32, Type::I32])
    );
}

#[test]
fn longer_type_lists() {
    assert_eq!(
        <(i32, i64, i32) as WasmTypeList>::wasm_types(),
        [Type::I32, Type::I64, Type::I32]
    );
    assert_eq!(
        <(i32, i64, i32, i64) as WasmTypeList>::wasm_types(),
        [Type::I32, Type::I64, Type::I32, Type::I64]
    );
    assert_eq!(
        <(i32, i64, i32, i64, i32) as WasmTypeList>::wasm_types(),
        [Type::I32, Type::I64, Type::I32, Type::I64, Type::I32]
    );
    assert_eq!(<(i32, i64, i32, i64, i32) as WasmTypeList>::empty_array(), [0, 0, 0, 0, 0]);
}

#[test]
fn func_address_and_env() {
    let f = Func::<(i32, i32), i32>::new(HostAt(0x1234));
    assert_eq!(f.address(), FunctionBody(0x1234));
    assert_eq!(f.env(), None);

    let g = Func::<i32, i32, u32>::new_env(0x8000, HostEnvAt(0x5678));
    assert_eq!(g.address(), FunctionBody(0x5678));
    assert_eq!(g.env(), Some(0x8000));
}

#[test]
fn trap_early_report() {
    let plain: Result<i32, _> = TrapEarly::<i32>::report(7i32);
    assert_eq!(plain.unwrap_or(0), 7);

    let fallible: Result<i32, u8> = Ok(7);
    let reported = TrapEarly::<i32>::report(fallible);
    assert_eq!(reported, Ok(7));

    let failed: Result<i32, u8> = Err(3);
    let reported = TrapEarly::<i32>::report(failed);
    assert_eq!(reported, Err(3));
}
