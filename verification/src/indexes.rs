//! Dense typed indices for the module's entity spaces.
//!
//! Each index space (functions, tables, memories, globals, signatures, data
//! and element segments, jump tables) gets its own newtype over `u32`, so
//! that an index into one space cannot be confused with an index into
//! another. The `Defined*` variants index only the locally defined entities
//! of a space, skipping the imported ones.

use vstd::prelude::*;

verus! {

/// Index of a function (imported or defined) in a module.
#[derive(Copy, Clone, Debug, PartialEq, Eq, Hash, Structural)]
pub struct FuncIndex(pub u32);

impl FuncIndex {
    /// Create an index from a raw `u32`.
    pub fn from_u32(bits: u32) -> (r: Self)
        ensures
            r.0 == bits,
    {
        FuncIndex(bits)
    }

    /// The raw `u32` value of the index.
    pub fn as_u32(self) -> (r: u32)
        ensures
            r == self.0,
    {
        self.0
    }
}

/// Index of a locally defined function, skipping imports.
#[derive(Copy, Clone, Debug, PartialEq, Eq, Hash, Structural)]
pub struct DefinedFuncIndex(pub u32);

impl DefinedFuncIndex {
    /// Create an index from a raw `u32`.
    pub fn from_u32(bits: u32) -> (r: Self)
        ensures
            r.0 == bits,
    {
        DefinedFuncIndex(bits)
    }

    /// The raw `u32` value of the index.
    pub fn as_u32(self) -> (r: u32)
        ensures
            r == self.0,
    {
        self.0
    }
}

/// Index of a table (imported or defined) in a module.
#[derive(Copy, Clone, Debug, PartialEq, Eq, Hash, Structural)]
pub struct TableIndex(pub u32);

impl TableIndex {
    /// Create an index from a raw `u32`.
    pub fn from_u32(bits: u32) -> (r: Self)
        ensures
            r.0 == bits,
    {
        TableIndex(bits)
    }

    /// The raw `u32` value of the index.
    pub fn as_u32(self) -> (r: u32)
        ensures
            r == self.0,
    {
        self.0
    }
}

/// Index of a locally defined table, skipping imports.
#[derive(Copy, Clone, Debug, PartialEq, Eq, Hash, Structural)]
pub struct DefinedTableIndex(pub u32);

impl DefinedTableIndex {
    /// Create an index from a raw `u32`.
    pub fn from_u32(bits: u32) -> (r: Self)
        ensures
            r.0 == bits,
    {
        DefinedTableIndex(bits)
    }

    /// The raw `u32` value of the index.
    pub fn as_u32(self) -> (r: u32)
        ensures
            r == self.0,
    {
        self.0
    }
}

/// Index of a linear memory (imported or defined) in a module.
#[derive(Copy, Clone, Debug, PartialEq, Eq, Hash, Structural)]
pub struct MemoryIndex(pub u32);

impl MemoryIndex {
    /// Create an index from a raw `u32`.
    pub fn from_u32(bits: u32) -> (r: Self)
        ensures
            r.0 == bits,
    {
        MemoryIndex(bits)
    }

    /// The raw `u32` value of the index.
    pub fn as_u32(self) -> (r: u32)
        ensures
            r == self.0,
    {
        self.0
    }
}

/// Index of a locally defined memory, skipping imports.
#[derive(Copy, Clone, Debug, PartialEq, Eq, Hash, Structural)]
pub struct DefinedMemoryIndex(pub u32);

impl DefinedMemoryIndex {
    /// Create an index from a raw `u32`.
    pub fn from_u32(bits: u32) -> (r: Self)
        ensures
            r.0 == bits,
    {
        DefinedMemoryIndex(bits)
    }

    /// The raw `u32` value of the index.
    pub fn as_u32(self) -> (r: u32)
        ensures
            r == self.0,
    {
        self.0
    }
}

/// Index of a global variable (imported or defined) in a module.
#[derive(Copy, Clone, Debug, PartialEq, Eq, Hash, Structural)]
pub struct GlobalIndex(pub u32);

impl GlobalIndex {
    /// Create an index from a raw `u32`.
    pub fn from_u32(bits: u32) -> (r: Self)
        ensures
            r.0 == bits,
    {
        GlobalIndex(bits)
    }

    /// The raw `u32` value of the index.
    pub fn as_u32(self) -> (r: u32)
        ensures
            r == self.0,
    {
        self.0
    }
}

/// Index of a locally defined global, skipping imports.
#[derive(Copy, Clone, Debug, PartialEq, Eq, Hash, Structural)]
pub struct DefinedGlobalIndex(pub u32);

impl DefinedGlobalIndex {
    /// Create an index from a raw `u32`.
    pub fn from_u32(bits: u32) -> (r: Self)
        ensures
            r.0 == bits,
    {
        DefinedGlobalIndex(bits)
    }

    /// The raw `u32` value of the index.
    pub fn as_u32(self) -> (r: u32)
        ensures
            r == self.0,
    {
        self.0
    }
}

/// Index of a function signature in a module's type section.
#[derive(Copy, Clone, Debug, PartialEq, Eq, Hash, Structural)]
pub struct SignatureIndex(pub u32);

impl SignatureIndex {
    /// Create an index from a raw `u32`.
    pub fn from_u32(bits: u32) -> (r: Self)
        ensures
            r.0 == bits,
    {
        SignatureIndex(bits)
    }

    /// The raw `u32` value of the index.
    pub fn as_u32(self) -> (r: u32)
        ensures
            r == self.0,
    {
        self.0
    }
}

/// Index of a data segment.
#[derive(Copy, Clone, Debug, PartialEq, Eq, Hash, Structural)]
pub struct DataIndex(pub u32);

impl DataIndex {
    /// Create an index from a raw `u32`.
    pub fn from_u32(bits: u32) -> (r: Self)
        ensures
            r.0 == bits,
    {
        DataIndex(bits)
    }

    /// The raw `u32` value of the index.
    pub fn as_u32(self) -> (r: u32)
        ensures
            r == self.0,
    {
        self.0
    }
}

/// Index of an element segment.
#[derive(Copy, Clone, Debug, PartialEq, Eq, Hash, Structural)]
pub struct ElemIndex(pub u32);

impl ElemIndex {
    /// Create an index from a raw `u32`.
    pub fn from_u32(bits: u32) -> (r: Self)
        ensures
            r.0 == bits,
    {
        ElemIndex(bits)
    }

    /// The raw `u32` value of the index.
    pub fn as_u32(self) -> (r: u32)
        ensures
            r == self.0,
    {
        self.0
    }
}

/// Index of a jump table inside one compiled function.
#[derive(Copy, Clone, Debug, PartialEq, Eq, Hash, Structural)]
pub struct JumpTable(pub u32);

impl JumpTable {
    /// Create an index from a raw `u32`.
    pub fn from_u32(bits: u32) -> (r: Self)
        ensures
            r.0 == bits,
    {
        JumpTable(bits)
    }

    /// The raw `u32` value of the index.
    pub fn as_u32(self) -> (r: u32)
        ensures
            r == self.0,
    {
        self.0
    }
}

/// An entity that can be exported: one variant per index space.
#[derive(Copy, Clone, Debug, PartialEq, Eq, Hash, Structural)]
pub enum ExportIndex {
    /// An exported function.
    Function(FuncIndex),
    /// An exported table.
    Table(TableIndex),
    /// An exported linear memory.
    Memory(MemoryIndex),
    /// An exported global.
    Global(GlobalIndex),
}

/// An entity that can be imported: one variant per index space.
#[derive(Copy, Clone, Debug, PartialEq, Eq, Hash, Structural)]
pub enum ImportIndex {
    /// An imported function.
    Function(FuncIndex),
    /// An imported table.
    Table(TableIndex),
    /// An imported linear memory.
    Memory(MemoryIndex),
    /// An imported global.
    Global(GlobalIndex),
}

} // verus!
