//! The typed native-function registration surface: host-language functions,
//! described by their parameter and result types, become uniform raw
//! callable handles paired with an optional environment pointer, and the
//! Wasm-level signature is derived from the host types alone.
//!
//! The unsafe trampoline that adapts the platform calling convention lives
//! with the embedder; this module carries the typing discipline.

use vstd::prelude::*;
use crate::types::{FuncType, Type};

verus! {

/// A host-language type with a direct Wasm value-type counterpart.
pub trait NativeWasmType {
    /// The Wasm type tag of this host type.
    spec fn spec_wasm_type() -> Type;

    /// Type for this `NativeWasmType`.
    fn wasm_type() -> (t: Type)
        ensures
            t == Self::spec_wasm_type(),
    ;
}

impl NativeWasmType for i32 {
    open spec fn spec_wasm_type() -> Type {
        Type::I32
    }

    fn wasm_type() -> (t: Type) {
        Type::I32
    }
}

impl NativeWasmType for i64 {
    open spec fn spec_wasm_type() -> Type {
        Type::I64
    }

    fn wasm_type() -> (t: Type) {
        Type::I64
    }
}

/// Represents a list of WebAssembly values: the host-side view of a
/// function's parameters or results.
pub trait WasmTypeList {
    /// The Wasm types of the values in the list, in order.
    spec fn spec_types() -> Seq<Type>;

    /// Get the types of the values in the list.
    fn wasm_types() -> (v: Vec<Type>)
        ensures
            v@ == Self::spec_types(),
    ;

    /// Generates a zeroed array of 64-bit slots, one per value, that will
    /// hold the returned values of a WebAssembly function.
    fn empty_array() -> (a: Vec<u64>)
        ensures
            a@.len() == Self::spec_types().len(),
            forall|i: int| 0 <= i < a@.len() ==> a@[i] == 0,
    ;
}

impl WasmTypeList for () {
    open spec fn spec_types() -> Seq<Type> {
        Seq::empty()
    }

    fn wasm_types() -> (v: Vec<Type>) {
        let v: Vec<Type> = Vec::new();
        proof {
            assert(v@ =~= Self::spec_types());
        }
        v
    }

    fn empty_array() -> (a: Vec<u64>) {
        Vec::new()
    }
}

impl WasmTypeList for i32 {
    open spec fn spec_types() -> Seq<Type> {
        seq![Type::I32]
    }

    fn wasm_types() -> (v: Vec<Type>) {
        let mut v: Vec<Type> = Vec::new();
        v.push(Type::I32);
        proof {
            assert(v@ =~= Self::spec_types());
        }
        v
    }

    fn empty_array() -> (a: Vec<u64>) {
        let mut a: Vec<u64> = Vec::new();
        a.push(0);
        a
    }
}

impl WasmTypeList for i64 {
    open spec fn spec_types() -> Seq<Type> {
        seq![Type::I64]
    }

    fn wasm_types() -> (v: Vec<Type>) {
        let mut v: Vec<Type> = Vec::new();
        v.push(Type::I64);
        proof {
            assert(v@ =~= Self::spec_types());
        }
        v
    }

    fn empty_array() -> (a: Vec<u64>) {
        let mut a: Vec<u64> = Vec::new();
        a.push(0);
        a
    }
}

impl<A1: NativeWasmType, A2: NativeWasmType> WasmTypeList for (A1, A2) {
    open spec fn spec_types() -> Seq<Type> {
        seq![A1::spec_wasm_type(), A2::spec_wasm_type()]
    }

    fn wasm_types() -> (v: Vec<Type>) {
        let mut v: Vec<Type> = Vec::new();
        v.push(A1::wasm_type());
        v.push(A2::wasm_type());
        proof {
            assert(v@ =~= Self::spec_types());
        }
        v
    }

    fn empty_array() -> (a: Vec<u64>) {
        let mut a: Vec<u64> = Vec::new();
        a.push(0);
        a.push(0);
        a
    }
}

impl<A1: NativeWasmType, A2: NativeWasmType, A3: NativeWasmType> WasmTypeList for (A1, A2, A3) {
    open spec fn spec_types() -> Seq<Type> {
        seq![A1::spec_wasm_type(), A2::spec_wasm_type(), A3::spec_wasm_type()]
    }

    fn wasm_types() -> (v: Vec<Type>) {
        let mut v: Vec<Type> = Vec::new();
        v.push(A1::wasm_type());
        v.push(A2::wasm_type());
        v.push(A3::wasm_type());
        proof {
            assert(v@ =~= Self::spec_types());
        }
        v
    }

    fn empty_array() -> (a: Vec<u64>) {
        let mut a: Vec<u64> = Vec::new();
        a.push(0);
        a.push(0);
        a.push(0);
        a
    }
}

impl<A1: NativeWasmType, A2: NativeWasmType, A3: NativeWasmType, A4: NativeWasmType> WasmTypeList
    for (A1, A2, A3, A4) {
    open spec fn spec_types() -> Seq<Type> {
        seq![
            A1::spec_wasm_type(),
            A2::spec_wasm_type(),
            A3::spec_wasm_type(),
            A4::spec_wasm_type(),
        ]
    }

    fn wasm_types() -> (v: Vec<Type>) {
        let mut v: Vec<Type> = Vec::new();
        v.push(A1::wasm_type());
        v.push(A2::wasm_type());
        v.push(A3::wasm_type());
        v.push(A4::wasm_type());
        proof {
            assert(v@ =~= Self::spec_types());
        }
        v
    }

    fn empty_array() -> (a: Vec<u64>) {
        let mut a: Vec<u64> = Vec::new();
        a.push(0);
        a.push(0);
        a.push(0);
        a.push(0);
        a
    }
}

impl<
    A1: NativeWasmType,
    A2: NativeWasmType,
    A3: NativeWasmType,
    A4: NativeWasmType,
    A5: NativeWasmType,
> WasmTypeList for (A1, A2, A3, A4, A5) {
    open spec fn spec_types() -> Seq<Type> {
        seq![
            A1::spec_wasm_type(),
            A2::spec_wasm_type(),
            A3::spec_wasm_type(),
            A4::spec_wasm_type(),
            A5::spec_wasm_type(),
        ]
    }

    fn wasm_types() -> (v: Vec<Type>) {
        let mut v: Vec<Type> = Vec::new();
        v.push(A1::wasm_type());
        v.push(A2::wasm_type());
        v.push(A3::wasm_type());
        v.push(A4::wasm_type());
        v.push(A5::wasm_type());
        proof {
            assert(v@ =~= Self::spec_types());
        }
        v
    }

    fn empty_array() -> (a: Vec<u64>) {
        let mut a: Vec<u64> = Vec::new();
        a.push(0);
        a.push(0);
        a.push(0);
        a.push(0);
        a.push(0);
        a
    }
}

/// The error of a host function that cannot fail. `report` never produces
/// a value of it.
#[derive(Debug, Clone, Copy)]
pub struct NoTrap {}

/// A host function's way of reporting an early exit: its return value either
/// carries the results or an error the runtime raises out of the Wasm
/// frames.
pub trait TrapEarly<Rets> where Rets: WasmTypeList {
    /// The error type for this trait.
    type Error;

    /// Get returns or error result.
    fn report(self) -> (r: Result<Rets, Self::Error>);
}

impl<Rets: WasmTypeList> TrapEarly<Rets> for Rets {
    type Error = NoTrap;

    fn report(self) -> (r: Result<Rets, NoTrap>)
        ensures
            r == Result::<Rets, NoTrap>::Ok(self),
    {
        Ok(self)
    }
}

impl<Rets: WasmTypeList, E> TrapEarly<Rets> for Result<Rets, E> {
    type Error = E;

    fn report(self) -> (r: Result<Rets, E>)
        ensures
            r == self,
    {
        self
    }
}

/// Marker for the kind of a `HostFunction`: with or without an environment
/// argument. See `WithEnv` and `WithoutEnv`.
pub trait HostFunctionKind {

}

/// The host function takes a mutable reference to its environment as its
/// first argument.
pub struct WithEnv {}

impl HostFunctionKind for WithEnv {

}

/// The host function takes no environment.
pub struct WithoutEnv {}

impl HostFunctionKind for WithoutEnv {

}

/// An opaque handle standing for the entry address of a raw callable piece
/// of code with the uniform C ABI. The embedder's unsafe glue creates the
/// address and is the only consumer that may call through it.
#[derive(Clone, Copy, Debug, PartialEq, Eq, Hash, Structural)]
pub struct FunctionBody(pub usize);

/// Implemented by host values that can be adapted into a raw callable handle
/// which JIT code can invoke with C-ABI register parameters. The embedder's
/// unsafe glue supplies the implementations; nothing in this library
/// implements the trait, so what is proved through its contract binds only
/// those embedder implementations.
pub trait HostFunction<Args, Rets, Kind, T> where
    Args: WasmTypeList,
    Rets: WasmTypeList,
    Kind: HostFunctionKind,
    T: Sized,
    Self: Sized,
 {
    /// Convert to a raw callable handle.
    fn to_raw(self) -> FunctionBody;
}

/// A function the host registered for use by WebAssembly: a raw callable
/// handle, an optional environment pointer handed to the callee, and the
/// Wasm signature derived from the host types.
#[derive(Debug)]
pub struct Func<Args = (), Rets = (), Env = ()> {
    address: FunctionBody,
    env: Option<usize>,
    _phantom: core::marker::PhantomData<(Args, Rets, Env)>,
}

impl<Args, Rets, Env> Func<Args, Rets, Env> where
    Args: WasmTypeList,
    Rets: WasmTypeList,
    Env: Sized,
 {
    /// The raw callable handle.
    pub closed spec fn spec_address(self) -> FunctionBody {
        self.address
    }

    /// The environment pointer, as an address value, where the function has
    /// one.
    pub closed spec fn spec_env(self) -> Option<usize> {
        self.env
    }

    /// Creates a new `Func` from a host function without an environment.
    pub fn new<F>(func: F) -> (r: Self) where F: HostFunction<Args, Rets, WithoutEnv, Env>
        ensures
            r.spec_env() is None,
            call_ensures(F::to_raw, (func,), r.spec_address()),
    {
        Func { env: None, address: func.to_raw(), _phantom: core::marker::PhantomData }
    }

    /// Creates a new `Func` with the given environment, handed over as the
    /// address of the embedder's environment value.
    pub fn new_env<F>(env_address: usize, func: F) -> (r: Self) where
        F: HostFunction<Args, Rets, WithEnv, Env>,

        ensures
            r.spec_env() == Some(env_address),
            call_ensures(F::to_raw, (func,), r.spec_address()),
    {
        Func { env: Some(env_address), address: func.to_raw(), _phantom: core::marker::PhantomData }
    }

    /// Get the type of the Func: the parameters and results derived from the
    /// host types.
    pub fn ty(&self) -> (r: FuncType)
        ensures
            r.spec_params() == Args::spec_types(),
            r.spec_results() == Rets::spec_types(),
    {
        FuncType::new(Args::wasm_types(), Rets::wasm_types())
    }

    /// Get the environment pointer of the Func, where it has one.
    pub fn env(&self) -> (r: Option<usize>)
        ensures
            r == self.spec_env(),
    {
        self.env
    }

    /// Get the raw callable handle of the Func.
    pub fn address(&self) -> (r: FunctionBody)
        ensures
            r == self.spec_address(),
    {
        self.address
    }
}

/// For every function type: a host function whose parameter and result lists
/// match the type yields, through `Func::ty`, exactly that type again. `ty`
/// returns a function type with the host types' parameter and result
/// sequences, so any function type with those sequences equals it.
pub proof fn lemma_func_new_ty_roundtrip<Args: WasmTypeList, Rets: WasmTypeList>(
    wanted: FuncType,
    produced: FuncType,
)
    requires
        wanted.spec_params() == Args::spec_types(),
        wanted.spec_results() == Rets::spec_types(),
        produced.spec_params() == Args::spec_types(),
        produced.spec_results() == Rets::spec_types(),
    ensures
        produced.spec_eq(wanted),
{
}

} // verus!
