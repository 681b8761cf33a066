//! Core pieces of a WebAssembly execution engine: the module translator,
//! the VMContext byte-layout engine, compilation artifacts, the typed
//! native-function surface, and the instantiation protocol.

pub mod artifact;
pub mod config;
pub mod decode;
pub mod environ;
pub mod function;
pub mod errors;
pub mod indexes;
pub mod module;
pub mod native;
pub mod relocation;
pub mod serialize;
pub mod sourceloc;
pub mod tunables;
pub mod types;
pub mod unwind;
pub mod vm;

pub use sourceloc::SourceLoc;
