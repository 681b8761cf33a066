//! Value types and extern types of WebAssembly entities.

use vstd::prelude::*;
use vstd::slice::slice_to_vec;
use vstd::string::StringExecFns;
use crate::indexes::{FuncIndex, GlobalIndex};

verus! {

/// A list of all possible value types in WebAssembly.
#[derive(Copy, Debug, Clone, Eq, PartialEq, Hash, Structural)]
pub enum Type {
    /// Signed 32 bit integer.
    I32,
    /// Signed 64 bit integer.
    I64,
    /// 32 bit floating point number.
    F32,
    /// 64 bit floating point number.
    F64,
    /// A 128 bit number.
    V128,
    /// A reference to opaque data in the Wasm instance.
    AnyRef,
    /// A reference to a Wasm function.
    FuncRef,
}

impl Type {
    /// Whether this type is one of the four numeric types.
    pub open spec fn spec_is_num(self) -> bool {
        self == Type::I32 || self == Type::I64 || self == Type::F32 || self == Type::F64
    }

    /// Whether this type is one of the two reference types.
    pub open spec fn spec_is_ref(self) -> bool {
        self == Type::AnyRef || self == Type::FuncRef
    }

    /// Returns true if `Type` matches any of the numeric types.
    pub fn is_num(&self) -> (r: bool)
        ensures
            r == self.spec_is_num(),
    {
        match self {
            Type::I32 | Type::I64 | Type::F32 | Type::F64 => true,
            _ => false,
        }
    }

    /// Returns true if `Type` matches either of the reference types.
    pub fn is_ref(&self) -> (r: bool)
        ensures
            r == self.spec_is_ref(),
    {
        match self {
            Type::AnyRef | Type::FuncRef => true,
            _ => false,
        }
    }
}

/// The WebAssembly V128 type: an opaque bag of 16 bytes.
#[derive(Copy, Clone, Debug, Hash)]
pub struct V128(pub [u8; 16]);

impl PartialEq for V128 {
    fn eq(&self, other: &Self) -> (r: bool) {
        let mut i: usize = 0;
        while i < 16
            invariant
                i <= 16,
                forall|j: int| 0 <= j < i ==> self.0@[j] == other.0@[j],
            decreases 16 - i,
        {
            if self.0[i] != other.0[i] {
                return false;
            }
            i = i + 1;
        }
        proof {
            assert(self.0@ =~= other.0@);
            assert(self.0 == other.0);
        }
        true
    }
}

impl Eq for V128 {}

impl vstd::std_specs::cmp::PartialEqSpecImpl for V128 {
    open spec fn obeys_eq_spec() -> bool {
        true
    }

    open spec fn eq_spec(&self, other: &V128) -> bool {
        *self == *other
    }
}

impl V128 {
    /// Get the bytes corresponding to the V128 value.
    pub fn bytes(&self) -> (r: &[u8; 16])
        ensures
            r@ == self.0@,
    {
        &self.0
    }

    /// Convert the immediate into a vector.
    pub fn to_vec(self) -> (r: Vec<u8>)
        ensures
            r@ == self.0@,
    {
        slice_to_vec(self.0.as_slice())
    }

    /// Convert the immediate into a slice.
    pub fn as_slice(&self) -> (r: &[u8])
        ensures
            r@ == self.0@,
    {
        self.0.as_slice()
    }

    /// Build a V128 from exactly sixteen bytes.
    pub fn from_slice(slice: &[u8]) -> (r: Self)
        requires
            slice@.len() == 16,
        ensures
            r.0@ == slice@,
    {
        let mut buffer: [u8; 16] = [0u8; 16];
        let mut i: usize = 0;
        while i < 16
            invariant
                i <= 16,
                slice@.len() == 16,
                forall|j: int| 0 <= j < i ==> buffer@[j] == slice@[j],
            decreases 16 - i,
        {
            buffer[i] = slice[i];
            i = i + 1;
        }
        assert(buffer@ =~= slice@);
        V128(buffer)
    }
}

/// A list of all possible types which can be externally referenced from a
/// WebAssembly module, either imported or exported.
#[derive(Debug, Clone)]
pub enum ExternType {
    /// The type of a WebAssembly function.
    Func(FuncType),
    /// The type of a WebAssembly global.
    Global(GlobalType),
    /// The type of a WebAssembly table.
    Table(TableType),
    /// The type of a WebAssembly memory.
    Memory(MemoryType),
}

impl ExternType {
    /// Return the underlying function type, or `None` if this is a different kind.
    pub fn func(&self) -> (r: Option<&FuncType>)
        ensures
            match self {
                ExternType::Func(f) => r == Some(f),
                _ => r is None,
            },
    {
        if let ExternType::Func(e) = self {
            Some(e)
        } else {
            None
        }
    }

    /// Return the underlying function type of an extern known to be a function.
    pub fn unwrap_func(&self) -> (r: &FuncType)
        requires
            self is Func,
        ensures
            *self == ExternType::Func(*r),
    {
        match self {
            ExternType::Func(e) => e,
            _ => unreached(),
        }
    }

    /// Return the underlying global type, or `None` if this is a different kind.
    pub fn global(&self) -> (r: Option<&GlobalType>)
        ensures
            match self {
                ExternType::Global(g) => r == Some(g),
                _ => r is None,
            },
    {
        if let ExternType::Global(e) = self {
            Some(e)
        } else {
            None
        }
    }

    /// Return the underlying global type of an extern known to be a global.
    pub fn unwrap_global(&self) -> (r: &GlobalType)
        requires
            self is Global,
        ensures
            *self == ExternType::Global(*r),
    {
        match self {
            ExternType::Global(e) => e,
            _ => unreached(),
        }
    }

    /// Return the underlying table type, or `None` if this is a different kind.
    pub fn table(&self) -> (r: Option<&TableType>)
        ensures
            match self {
                ExternType::Table(t) => r == Some(t),
                _ => r is None,
            },
    {
        if let ExternType::Table(e) = self {
            Some(e)
        } else {
            None
        }
    }

    /// Return the underlying table type of an extern known to be a table.
    pub fn unwrap_table(&self) -> (r: &TableType)
        requires
            self is Table,
        ensures
            *self == ExternType::Table(*r),
    {
        match self {
            ExternType::Table(e) => e,
            _ => unreached(),
        }
    }

    /// Return the underlying memory type, or `None` if this is a different kind.
    pub fn memory(&self) -> (r: Option<&MemoryType>)
        ensures
            match self {
                ExternType::Memory(m) => r == Some(m),
                _ => r is None,
            },
    {
        if let ExternType::Memory(e) = self {
            Some(e)
        } else {
            None
        }
    }

    /// Return the underlying memory type of an extern known to be a memory.
    pub fn unwrap_memory(&self) -> (r: &MemoryType)
        requires
            self is Memory,
        ensures
            *self == ExternType::Memory(*r),
    {
        match self {
            ExternType::Memory(e) => e,
            _ => unreached(),
        }
    }
}

/// The signature of a function that is either implemented in a Wasm module or
/// exposed to Wasm by the host: ordered parameter types and ordered result
/// types. Equality is structural.
#[derive(Debug, Clone, Hash)]
pub struct FuncType {
    /// The parameters of the function.
    params: Vec<Type>,
    /// The return values of the function.
    results: Vec<Type>,
}

impl FuncType {
    /// The parameter types, as a mathematical sequence.
    pub closed spec fn spec_params(self) -> Seq<Type> {
        self.params@
    }

    /// The result types, as a mathematical sequence.
    pub closed spec fn spec_results(self) -> Seq<Type> {
        self.results@
    }

    /// Creates a new function type with the given parameter and return types.
    pub fn new(params: Vec<Type>, returns: Vec<Type>) -> (r: Self)
        ensures
            r.spec_params() == params@,
            r.spec_results() == returns@,
    {
        FuncType { params, results: returns }
    }

    /// Parameter types.
    pub fn params(&self) -> (r: &[Type])
        ensures
            r@ == self.spec_params(),
    {
        self.params.as_slice()
    }

    /// Return types.
    pub fn results(&self) -> (r: &[Type])
        ensures
            r@ == self.spec_results(),
    {
        self.results.as_slice()
    }

    /// How a function type prints: the parameter names and the result names,
    /// each comma-separated inside brackets, with an arrow between them.
    pub open spec fn spec_display(self) -> Seq<char> {
        "["@ + spec_type_list(self.spec_params()) + "] -> ["@ + spec_type_list(
            self.spec_results(),
        ) + "]"@
    }

    /// Render this function type as text.
    pub fn display(&self) -> (r: String)
        ensures
            r@ == self.spec_display(),
    {
        proof {
            reveal_strlit("[");
            reveal_strlit("] -> [");
            reveal_strlit("]");
        }
        let mut s = String::new();
        s.append("[");
        push_type_list(&mut s, self.params.as_slice());
        s.append("] -> [");
        push_type_list(&mut s, self.results.as_slice());
        s.append("]");
        proof {
            assert(s@ =~= self.spec_display());
        }
        s
    }
}

/// The name of a value type, as it prints.
pub open spec fn spec_type_name(t: Type) -> Seq<char> {
    match t {
        Type::I32 => "I32"@,
        Type::I64 => "I64"@,
        Type::F32 => "F32"@,
        Type::F64 => "F64"@,
        Type::V128 => "V128"@,
        Type::AnyRef => "AnyRef"@,
        Type::FuncRef => "FuncRef"@,
    }
}

/// The name of a value type, as it prints.
pub fn value_type_name(t: Type) -> (r: &'static str)
    ensures
        r@ == spec_type_name(t),
{
    match t {
        Type::I32 => "I32",
        Type::I64 => "I64",
        Type::F32 => "F32",
        Type::F64 => "F64",
        Type::V128 => "V128",
        Type::AnyRef => "AnyRef",
        Type::FuncRef => "FuncRef",
    }
}

/// The names of a list of value types, comma-separated.
pub open spec fn spec_type_list(s: Seq<Type>) -> Seq<char>
    decreases s.len(),
{
    if s.len() == 0 {
        Seq::empty()
    } else if s.len() == 1 {
        spec_type_name(s[0])
    } else {
        spec_type_list(s.drop_last()) + ", "@ + spec_type_name(s.last())
    }
}

/// Append the comma-separated names of the given types.
fn push_type_list(s: &mut String, types: &[Type])
    ensures
        final(s)@ == old(s)@ + spec_type_list(types@),
{
    proof {
        reveal_strlit(", ");
    }
    let mut i: usize = 0;
    while i < types.len()
        invariant
            i <= types@.len(),
            s@ == old(s)@ + spec_type_list(types@.subrange(0, i as int)),
        decreases types@.len() - i,
    {
        if i > 0 {
            s.append(", ");
        }
        s.append(value_type_name(types[i]));
        proof {
            let prefix = types@.subrange(0, i as int);
            let extended = types@.subrange(0, i + 1);
            assert(extended.drop_last() =~= prefix);
            assert(extended.last() == types@[i as int]);
            if i == 0 {
                assert(s@ =~= old(s)@ + spec_type_list(extended));
            } else {
                assert(s@ =~= old(s)@ + spec_type_list(extended));
            }
        }
        i = i + 1;
    }
    proof {
        assert(types@.subrange(0, types@.len() as int) =~= types@);
    }
}

impl FuncType {
    /// What `==` means on function types: structural equality of the
    /// parameter and result sequences.
    pub open spec fn spec_eq(self, other: FuncType) -> bool {
        self.spec_params() == other.spec_params() && self.spec_results() == other.spec_results()
    }
}

impl PartialEq for FuncType {
    fn eq(&self, other: &Self) -> (r: bool) {
        let params_eq = type_vec_eq(&self.params, &other.params);
        let results_eq = type_vec_eq(&self.results, &other.results);
        params_eq && results_eq
    }
}

impl Eq for FuncType {}

impl vstd::std_specs::cmp::PartialEqSpecImpl for FuncType {
    open spec fn obeys_eq_spec() -> bool {
        true
    }

    open spec fn eq_spec(&self, other: &FuncType) -> bool {
        self.spec_eq(*other)
    }
}

/// Compare two vectors of value types element by element.
fn type_vec_eq(a: &Vec<Type>, b: &Vec<Type>) -> (r: bool)
    ensures
        r == (a@ == b@),
{
    if a.len() != b.len() {
        proof {
            assert(a@.len() != b@.len());
        }
        return false;
    }
    let mut i: usize = 0;
    while i < a.len()
        invariant
            i <= a.len(),
            a@.len() == b@.len(),
            forall|j: int| 0 <= j < i ==> a@[j] == b@[j],
        decreases a.len() - i,
    {
        let ai = a[i];
        let bi = b[i];
        if !(ai == bi) {
            return false;
        }
        i = i + 1;
    }
    proof {
        assert(a@ =~= b@);
    }
    true
}

/// Indicator of whether a global is mutable or not.
#[derive(Debug, Clone, Copy, PartialEq, Eq, Hash, Structural)]
pub enum Mutability {
    /// The global is constant and its value does not change.
    Const,
    /// The value of the global can change over time.
    Var,
}

impl From<bool> for Mutability {
    /// `false` is a constant global, `true` a mutable one.
    fn from(val: bool) -> (r: Mutability) {
        match val {
            false => Mutability::Const,
            true => Mutability::Var,
        }
    }
}

impl vstd::std_specs::convert::FromSpecImpl<bool> for Mutability {
    open spec fn obeys_from_spec() -> bool {
        true
    }

    open spec fn from_spec(val: bool) -> Mutability {
        if val {
            Mutability::Var
        } else {
            Mutability::Const
        }
    }
}

impl From<Mutability> for bool {
    /// A constant global maps to `false`, a mutable one to `true`.
    fn from(val: Mutability) -> (r: bool) {
        match val {
            Mutability::Const => false,
            Mutability::Var => true,
        }
    }
}

impl vstd::std_specs::convert::FromSpecImpl<Mutability> for bool {
    open spec fn obeys_from_spec() -> bool {
        true
    }

    open spec fn from_spec(val: Mutability) -> bool {
        val == Mutability::Var
    }
}

/// A WebAssembly global descriptor: the stored value type, whether the value
/// may change at runtime, and the source of the initial value.
#[derive(Debug, Clone, Copy, Hash)]
pub struct GlobalType {
    /// The type of the value stored in the global.
    pub ty: Type,
    /// A flag indicating whether the value may change at runtime.
    pub mutability: Mutability,
    /// The source of the initial value.
    pub initializer: GlobalInit,
}

impl GlobalType {
    /// Create a new global descriptor, initialized from an import.
    pub fn new(ty: Type, mutability: Mutability) -> (r: Self)
        ensures
            r.ty == ty,
            r.mutability == mutability,
            r.initializer == GlobalInit::Import,
    {
        GlobalType { ty, mutability, initializer: GlobalInit::Import }
    }
}

/// How a global receives its initial value: a constant operator, a reference
/// to another global, a null or function reference, or an import.
#[derive(Debug, Clone, Copy, Hash)]
pub enum GlobalInit {
    /// An `i32.const`.
    I32Const(i32),
    /// An `i64.const`.
    I64Const(i64),
    /// An `f32.const`, stored as its bit pattern.
    F32Const(u32),
    /// An `f64.const`, stored as its bit pattern.
    F64Const(u64),
    /// A `v128.const`.
    V128Const(V128),
    /// A `global.get` of another global.
    GetGlobal(GlobalIndex),
    /// A `ref.null`.
    RefNullConst,
    /// A `ref.func <index>`.
    RefFunc(FuncIndex),
    /// The global is imported from, and thus initialized by, a different module.
    Import,
}

impl PartialEq for GlobalInit {
    fn eq(&self, other: &Self) -> (r: bool) {
        match (self, other) {
            (GlobalInit::I32Const(a), GlobalInit::I32Const(b)) => a == b,
            (GlobalInit::I64Const(a), GlobalInit::I64Const(b)) => a == b,
            (GlobalInit::F32Const(a), GlobalInit::F32Const(b)) => a == b,
            (GlobalInit::F64Const(a), GlobalInit::F64Const(b)) => a == b,
            (GlobalInit::V128Const(a), GlobalInit::V128Const(b)) => a == b,
            (GlobalInit::GetGlobal(a), GlobalInit::GetGlobal(b)) => a == b,
            (GlobalInit::RefNullConst, GlobalInit::RefNullConst) => true,
            (GlobalInit::RefFunc(a), GlobalInit::RefFunc(b)) => a == b,
            (GlobalInit::Import, GlobalInit::Import) => true,
            _ => false,
        }
    }
}

impl Eq for GlobalInit {}

impl vstd::std_specs::cmp::PartialEqSpecImpl for GlobalInit {
    open spec fn obeys_eq_spec() -> bool {
        true
    }

    open spec fn eq_spec(&self, other: &GlobalInit) -> bool {
        *self == *other
    }
}

/// A runtime value of one of the WebAssembly value types. The float variants
/// carry the raw bit pattern; the reference variants carry an embedder-chosen
/// representation.
#[derive(Debug, Clone, Copy)]
pub enum Value<T> {
    /// A 32 bit integer.
    I32(i32),
    /// A 64 bit integer.
    I64(i64),
    /// A 32 bit float, as its bit pattern.
    F32(u32),
    /// A 64 bit float, as its bit pattern.
    F64(u64),
    /// A 128 bit number.
    V128(V128),
    /// An opaque reference.
    AnyRef(T),
    /// A function reference.
    FuncRef(T),
}

impl GlobalInit {
    /// Get the `GlobalInit` from a given numeric `Value`.
    pub fn from_value<T>(value: Value<T>) -> (r: Self)
        requires
            value is I32 || value is I64 || value is F32 || value is F64,
        ensures
            match value {
                Value::I32(i) => r == GlobalInit::I32Const(i),
                Value::I64(i) => r == GlobalInit::I64Const(i),
                Value::F32(f) => r == GlobalInit::F32Const(f),
                Value::F64(f) => r == GlobalInit::F64Const(f),
                _ => false,
            },
    {
        match value {
            Value::I32(i) => GlobalInit::I32Const(i),
            Value::I64(i) => GlobalInit::I64Const(i),
            Value::F32(f) => GlobalInit::F32Const(f),
            Value::F64(f) => GlobalInit::F64Const(f),
            _ => unreached(),
        }
    }

    /// Get the `Value` from a numeric global initializer.
    pub fn to_value<T>(&self) -> (r: Value<T>)
        requires
            self is I32Const || self is I64Const || self is F32Const || self is F64Const,
        ensures
            match *self {
                GlobalInit::I32Const(i) => r == Value::<T>::I32(i),
                GlobalInit::I64Const(i) => r == Value::<T>::I64(i),
                GlobalInit::F32Const(f) => r == Value::<T>::F32(f),
                GlobalInit::F64Const(f) => r == Value::<T>::F64(f),
                _ => false,
            },
    {
        match self {
            GlobalInit::I32Const(i) => Value::I32(*i),
            GlobalInit::I64Const(i) => Value::I64(*i),
            GlobalInit::F32Const(f) => Value::F32(*f),
            GlobalInit::F64Const(f) => Value::F64(*f),
            _ => unreached(),
        }
    }
}

/// A descriptor for a table in a WebAssembly module: the element type, the
/// minimum element count, and an optional maximum.
#[derive(Debug, Clone, Copy, Hash, PartialEq, Eq, Structural)]
pub struct TableType {
    /// The type of data stored in elements of the table.
    pub ty: Type,
    /// The minimum number of elements in the table.
    pub minimum: u32,
    /// The maximum number of elements in the table.
    pub maximum: Option<u32>,
}

impl TableType {
    /// Creates a new table descriptor with the given element type and limits.
    pub fn new(ty: Type, minimum: u32, maximum: Option<u32>) -> (r: TableType)
        ensures
            r == (TableType { ty, minimum, maximum }),
    {
        TableType { ty, minimum, maximum }
    }
}

/// A descriptor for a WebAssembly linear memory, in units of 64 KiB pages.
#[derive(Debug, Clone, Copy, Hash, PartialEq, Eq, Structural)]
pub struct MemoryType {
    /// The minimum number of pages in the memory.
    pub minimum: u32,
    /// The maximum number of pages in the memory.
    pub maximum: Option<u32>,
    /// Whether the memory may be shared between multiple threads.
    pub shared: bool,
}

impl MemoryType {
    /// Creates a new memory descriptor with the given limits.
    pub fn new(minimum: u32, maximum: Option<u32>, shared: bool) -> (r: MemoryType)
        ensures
            r == (MemoryType { minimum, maximum, shared }),
    {
        MemoryType { minimum, maximum, shared }
    }
}

/// A descriptor for a value imported into a Wasm module: the module it comes
/// from, the field name, and the expected type.
#[derive(Debug, Clone)]
pub struct ImportType {
    module: String,
    name: String,
    ty: ExternType,
}

impl ImportType {
    /// The module name this import is expected to come from.
    pub closed spec fn spec_module(self) -> Seq<char> {
        self.module@
    }

    /// The field name this import is expected to come from.
    pub closed spec fn spec_name(self) -> Seq<char> {
        self.name@
    }

    /// The expected type of this import.
    pub closed spec fn spec_ty(self) -> ExternType {
        self.ty
    }

    /// Creates a new import descriptor from `module` and `name` with type `ty`.
    pub fn new(module: &str, name: &str, ty: ExternType) -> (r: ImportType)
        ensures
            r.spec_module() == module@,
            r.spec_name() == name@,
            r.spec_ty() == ty,
    {
        ImportType { module: module.to_owned(), name: name.to_owned(), ty }
    }

    /// Returns the module name that this import is expected to come from.
    pub fn module(&self) -> (r: &str)
        ensures
            r@ == self.spec_module(),
    {
        self.module.as_str()
    }

    /// Returns the field name of the module that this import is expected to
    /// come from.
    pub fn name(&self) -> (r: &str)
        ensures
            r@ == self.spec_name(),
    {
        self.name.as_str()
    }

    /// Returns the expected type of this import.
    pub fn ty(&self) -> (r: &ExternType)
        ensures
            *r == self.spec_ty(),
    {
        &self.ty
    }
}

/// A descriptor for an exported WebAssembly value: the export name and the
/// type of the exported item.
#[derive(Debug, Clone)]
pub struct ExportType {
    name: String,
    ty: ExternType,
}

impl ExportType {
    /// The name under which this item is exported.
    pub closed spec fn spec_name(self) -> Seq<char> {
        self.name@
    }

    /// The type of the exported item.
    pub closed spec fn spec_ty(self) -> ExternType {
        self.ty
    }

    /// Creates a new export descriptor with the given `name` and `ty`.
    pub fn new(name: &str, ty: ExternType) -> (r: ExportType)
        ensures
            r.spec_name() == name@,
            r.spec_ty() == ty,
    {
        ExportType { name: name.to_owned(), ty }
    }

    /// Returns the name by which this export is known.
    pub fn name(&self) -> (r: &str)
        ensures
            r@ == self.spec_name(),
    {
        self.name.as_str()
    }

    /// Returns the type of this export.
    pub fn ty(&self) -> (r: &ExternType)
        ensures
            *r == self.spec_ty(),
    {
        &self.ty
    }
}

} // verus!
