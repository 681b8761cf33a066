//! The error taxonomy: translation errors, compile errors, link and
//! instantiation errors, and runtime errors carrying a trap or an
//! embedder-supplied payload.

use vstd::prelude::*;

verus! {

/// A WebAssembly translation error.
///
/// Raised when a module cannot be translated: either the binary is malformed
/// or it uses a feature the translator does not support.
#[derive(Debug, Clone)]
pub enum WasmError {
    /// The input WebAssembly code is invalid: a module that fails to decode
    /// with the message and the approximate byte offset where it failed.
    InvalidWebAssembly {
        /// A description of the syntax error.
        message: String,
        /// The bytes offset in the input where the error happened.
        offset: usize,
    },
    /// A feature used by the WebAssembly code is not supported.
    Unsupported(String),
}

/// A convenient alias for a `Result` that uses `WasmError` as the error type.
pub type WasmResult<T> = Result<T, WasmError>;

/// An error while compiling a module to machine code.
#[derive(Debug, Clone)]
pub enum CompileError {
    /// The module could not be translated.
    Wasm(WasmError),
    /// The compiler backend failed.
    Codegen(String),
}

/// A failure to link an instance's imports or allocate its runtime state.
#[derive(Debug, Clone)]
pub enum LinkError {
    /// A required import was missing or of the wrong kind: the import's
    /// module name, field name, and the reason.
    Import(String, String, String),
    /// A runtime resource (memory, table or global) could not be created.
    Resource(String),
    /// A function import's signature did not match.
    Signature(String),
}

/// The failure of an instantiation attempt.
#[derive(Debug, Clone)]
pub enum InstantiationError {
    /// Resolving imports or creating runtime state failed.
    Link(LinkError),
    /// A trap occurred while running the data and element initializers or the
    /// start function.
    Start(RuntimeError),
}

/// The reason for a trap, reported by the machine code or a runtime helper.
#[derive(Debug, Clone, Copy, PartialEq, Eq, Hash, Structural)]
pub enum TrapCode {
    /// The call stack was exhausted.
    StackOverflow,
    /// A linear-memory access was out of bounds.
    HeapAccessOutOfBounds,
    /// A table access was out of bounds.
    TableAccessOutOfBounds,
    /// Some other bounds check failed.
    OutOfBounds,
    /// An indirect call through a null table entry.
    IndirectCallToNull,
    /// An indirect call's signature did not match the table entry.
    BadSignature,
    /// An integer operation overflowed.
    IntegerOverflow,
    /// An integer division by zero.
    IntegerDivisionByZero,
    /// A float could not be converted to an integer.
    BadConversionToInteger,
    /// The `unreachable` instruction was executed.
    UnreachableCodeReached,
    /// Execution was interrupted.
    Interrupt,
}

/// An embedder-supplied payload raised from inside a host function to end
/// Wasm execution early. Beyond a kind tag that tells payload types apart, a
/// value, and a printable description, the payload is opaque to the runtime.
#[derive(Debug, Clone, PartialEq, Eq)]
pub struct UserPayload {
    /// An embedder-chosen tag that tells payload kinds apart.
    pub kind: u64,
    /// The payload's value bits.
    pub value: u64,
    /// A printable description of the payload.
    pub description: String,
}

/// An error that happened while Wasm code was executing: either a trap raised
/// by the machine code or a payload raised by a host function.
#[derive(Debug, Clone)]
pub enum RuntimeError {
    /// A trap.
    Trap(TrapCode),
    /// An embedder payload carried out of the Wasm frames.
    User(UserPayload),
}

impl RuntimeError {
    /// Wrap a trap reported by the runtime into a `RuntimeError`.
    pub fn from_trap(code: TrapCode) -> (r: Self)
        ensures
            r == RuntimeError::Trap(code),
    {
        RuntimeError::Trap(code)
    }

    /// Wrap an embedder payload into a `RuntimeError`.
    pub fn user(payload: UserPayload) -> (r: Self)
        ensures
            r == RuntimeError::User(payload),
    {
        RuntimeError::User(payload)
    }

    /// Attempt to recover the payload of an early exit, expecting a payload
    /// of the given kind. The attempt either yields the original payload or
    /// hands the error back unchanged, so the caller may re-surface it as
    /// unknown.
    pub fn downcast(self, kind: u64) -> (r: Result<UserPayload, RuntimeError>)
        ensures
            match r {
                Ok(p) => self == RuntimeError::User(p) && p.kind == kind,
                Err(e) => e == self && match self {
                    RuntimeError::User(p) => p.kind != kind,
                    RuntimeError::Trap(_) => true,
                },
            },
    {
        match self {
            RuntimeError::User(p) => {
                if p.kind == kind {
                    Ok(p)
                } else {
                    Err(RuntimeError::User(p))
                }
            },
            RuntimeError::Trap(c) => Err(RuntimeError::Trap(c)),
        }
    }
}

/// An error serializing an artifact.
#[derive(Debug, Clone)]
pub enum SerializeError {
    /// The artifact is too large for the length fields of the format.
    TooLarge,
}

/// An error deserializing an artifact.
#[derive(Debug, Clone, PartialEq, Eq)]
pub enum DeserializeError {
    /// The bytes do not hold a whole, well-formed artifact.
    Corrupt,
}

} // verus!
