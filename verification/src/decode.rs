//! Stream-decoding of a WebAssembly binary into a `ModuleTranslation`.
//!
//! The decoder walks the sections of the binary in order and drives a
//! `ModuleEnvironment` with `reserve_*` and `declare_*` calls: types,
//! imports, functions, tables, memories, globals, exports, the start
//! function, element segments, function bodies, data segments, and the name
//! custom section.

use vstd::prelude::*;
use vstd::slice::{slice_subrange, slice_to_vec};
use crate::environ::{ModuleEnvironment, ModuleTranslationState};
use crate::errors::{WasmError, WasmResult};
use crate::indexes::{FuncIndex, GlobalIndex};
use crate::types::{FuncType, GlobalInit, MemoryType, Mutability, TableType, Type, V128};

verus! {

/// The character sequence a byte sequence decodes to as UTF-8, where it is
/// valid UTF-8.
pub uninterp spec fn spec_utf8_decode(bytes: Seq<u8>) -> Option<Seq<char>>;

/// Relies on core::str::from_utf8: it returns `Ok` exactly when the bytes
/// are valid UTF-8, and the text it returns is a function of the bytes alone.
#[verifier::external_body]
fn bytes_to_str(bytes: &[u8]) -> (r: Option<&str>)
    ensures
        match r {
            Some(s) => spec_utf8_decode(bytes@) == Some(s@),
            None => spec_utf8_decode(bytes@) is None,
        },
{
    core::str::from_utf8(bytes).ok()
}

/// Build the invalid-input error for position `offset`.
fn err_invalid(message: &str, offset: usize) -> (r: WasmError)
    ensures
        match r {
            WasmError::InvalidWebAssembly { message: m, offset: o } => m@ == message@ && o
                == offset,
            _ => false,
        },
{
    WasmError::InvalidWebAssembly { message: message.to_owned(), offset }
}

/// The unsigned LEB128 value starting at `pos`, decoded from the `level`-th
/// byte of the encoding on: the seven low bits of each byte, least
/// significant group first, a set high bit marking a continuation. The
/// encoding of a 32-bit value spans at most five bytes, and the fifth byte
/// carries only four meaningful bits. Yields the value and the position
/// right after the encoding, or `None` where the bytes are not such an
/// encoding.
pub open spec fn spec_var_u32_at(s: Seq<u8>, pos: int, level: nat) -> Option<(int, int)>
    decreases 5 - level,
{
    if level >= 5 || pos < 0 || pos >= s.len() {
        None
    } else {
        let b = s[pos];
        if level == 4 {
            if b >= 16 {
                None
            } else {
                Some((b as int, pos + 1))
            }
        } else if b < 128 {
            Some((b as int, pos + 1))
        } else {
            match spec_var_u32_at(s, pos + 1, (level + 1) as nat) {
                Some(p) => Some(((b - 128) + 128 * p.0, p.1)),
                None => None,
            }
        }
    }
}

/// The unsigned LEB128 value starting at `pos`.
pub open spec fn spec_var_u32(s: Seq<u8>, pos: int) -> Option<(int, int)> {
    spec_var_u32_at(s, pos, 0)
}

/// A LEB128 value decoded from its `level`-th byte on fits in the bits that
/// remain for it, and its encoding ends within the input, at most
/// `5 - level` bytes on.
pub proof fn lemma_var_u32_bound(s: Seq<u8>, pos: int, level: nat)
    requires
        level <= 4,
    ensures
        match spec_var_u32_at(s, pos, level) {
            Some(p) => {
                &&& 0 <= p.0
                &&& p.0 < (if level == 0 {
                    0x1_0000_0000int
                } else if level == 1 {
                    0x200_0000int
                } else if level == 2 {
                    0x4_0000int
                } else if level == 3 {
                    0x800int
                } else {
                    0x10int
                })
                &&& pos < p.1 <= s.len()
                &&& p.1 <= pos + 5 - level
            },
            None => true,
        },
    decreases 5 - level,
{
    if level < 4 {
        lemma_var_u32_bound(s, pos + 1, (level + 1) as nat);
    }
}

/// Read one byte.
fn read_byte(data: &[u8], pos: usize) -> (r: WasmResult<(u8, usize)>)
    ensures
        match r {
            Ok((b, end)) => pos < data@.len() && b == data@[pos as int] && end == pos + 1,
            Err(e) => pos >= data@.len() && e is InvalidWebAssembly,
        },
{
    if pos < data.len() {
        Ok((data[pos], pos + 1))
    } else {
        Err(err_invalid("unexpected end of input", pos))
    }
}

/// Read an unsigned LEB128 32-bit integer, from its `level`-th byte on.
fn read_var_u32_at(data: &[u8], pos: usize, level: u32) -> (r: WasmResult<(u32, usize)>)
    requires
        level <= 4,
    ensures
        match r {
            Ok((v, end)) => spec_var_u32_at(data@, pos as int, level as nat) == Some(
                (v as int, end as int),
            ) && pos < end <= data@.len(),
            Err(e) => spec_var_u32_at(data@, pos as int, level as nat) is None
                && e is InvalidWebAssembly,
        },
    decreases 5 - level,
{
    proof {
        lemma_var_u32_bound(data@, pos as int, level as nat);
    }
    if pos >= data.len() {
        return Err(err_invalid("unexpected end of input", pos));
    }
    let b = data[pos];
    if level == 4 {
        if b >= 16 {
            return Err(err_invalid("integer representation too long", pos));
        }
        return Ok((b as u32, pos + 1));
    }
    if b < 128 {
        Ok((b as u32, pos + 1))
    } else {
        match read_var_u32_at(data, pos + 1, level + 1) {
            Ok((v, end)) => {
                proof {
                    lemma_var_u32_bound(data@, pos as int + 1, (level + 1) as nat);
                }
                Ok(((b - 128) as u32 + 128 * v, end))
            },
            Err(e) => Err(e),
        }
    }
}

/// Read an unsigned LEB128 32-bit integer.
fn read_var_u32(data: &[u8], pos: usize) -> (r: WasmResult<(u32, usize)>)
    ensures
        match r {
            Ok((v, end)) => spec_var_u32(data@, pos as int) == Some((v as int, end as int)) && pos
                < end <= data@.len(),
            Err(e) => spec_var_u32(data@, pos as int) is None && e is InvalidWebAssembly,
        },
{
    read_var_u32_at(data, pos, 0)
}

/// Read a signed LEB128 32-bit integer: seven value bits per byte, least
/// significant group first, sign-extended from the last byte.
fn read_var_i32(data: &[u8], pos: usize) -> (r: WasmResult<(i32, usize)>)
    ensures
        match r {
            Ok((v, end)) => pos < end <= data@.len() && end <= pos + 5,
            Err(e) => e is InvalidWebAssembly,
        },
{
    let mut value: u32 = 0;
    let mut shift: u32 = 0;
    let mut p = pos;
    loop
        invariant
            shift == 7 * ((p - pos) as int),
            shift <= 28,
            pos <= p <= data@.len() || p == pos,
            p <= pos + 4,
        decreases 5 - ((p - pos) as int),
    {
        if p >= data.len() {
            return Err(err_invalid("unexpected end of input", pos));
        }
        let b = data[p];
        p = p + 1;
        let low = (b & 0x7f) as u32;
        value = value | (low << shift);
        if b & 0x80 == 0 {
            // Sign-extend from bit 6 of the last byte.
            if shift < 25 && (b & 0x40) != 0 {
                value = value | (u32::MAX << (shift + 7));
            }
            return Ok((value as i32, p));
        }
        if shift == 28 {
            return Err(err_invalid("integer representation too long", pos));
        }
        shift = shift + 7;
    }
}

/// Read a signed LEB128 64-bit integer.
fn read_var_i64(data: &[u8], pos: usize) -> (r: WasmResult<(i64, usize)>)
    ensures
        match r {
            Ok((v, end)) => pos < end <= data@.len() && end <= pos + 10,
            Err(e) => e is InvalidWebAssembly,
        },
{
    let mut value: u64 = 0;
    let mut shift: u64 = 0;
    let mut p = pos;
    loop
        invariant
            shift == 7 * ((p - pos) as int),
            shift <= 63,
            pos <= p <= data@.len() || p == pos,
            p <= pos + 9,
        decreases 10 - ((p - pos) as int),
    {
        if p >= data.len() {
            return Err(err_invalid("unexpected end of input", pos));
        }
        let b = data[p];
        p = p + 1;
        let low = (b & 0x7f) as u64;
        value = value | (low << shift);
        if b & 0x80 == 0 {
            if shift < 57 && (b & 0x40) != 0 {
                value = value | (u64::MAX << (shift + 7));
            }
            return Ok((value as i64, p));
        }
        if shift == 63 {
            return Err(err_invalid("integer representation too long", pos));
        }
        shift = shift + 7;
    }
}

/// Read a 32-bit little-endian integer, as for an `f32.const` bit pattern.
fn read_u32_le(data: &[u8], pos: usize) -> (r: WasmResult<(u32, usize)>)
    ensures
        match r {
            Ok((v, end)) => end == pos + 4 && end <= data@.len(),
            Err(e) => e is InvalidWebAssembly,
        },
{
    if data.len() < 4 || pos > data.len() - 4 {
        return Err(err_invalid("unexpected end of input", pos));
    }
    let b0 = data[pos] as u32;
    let b1 = data[pos + 1] as u32;
    let b2 = data[pos + 2] as u32;
    let b3 = data[pos + 3] as u32;
    Ok((b0 + 0x100 * b1 + 0x1_0000 * b2 + 0x100_0000 * b3, pos + 4))
}

/// Read a 64-bit little-endian integer, as for an `f64.const` bit pattern.
fn read_u64_le(data: &[u8], pos: usize) -> (r: WasmResult<(u64, usize)>)
    ensures
        match r {
            Ok((v, end)) => end == pos + 8 && end <= data@.len(),
            Err(e) => e is InvalidWebAssembly,
        },
{
    if data.len() < 8 || pos > data.len() - 8 {
        return Err(err_invalid("unexpected end of input", pos));
    }
    let mut value: u64 = 0;
    let mut i: usize = 8;
    while i > 0
        invariant
            i <= 8,
            pos + 8 <= data@.len(),
            pos + 8 <= usize::MAX,
        decreases i,
    {
        i = i - 1;
        value = (value << 8) | (data[pos + i] as u64);
    }
    Ok((value, pos + 8))
}

/// Read a length-prefixed UTF-8 name: the text is the UTF-8 decode of the
/// bytes after the length.
fn read_name<'a>(data: &'a [u8], pos: usize) -> (r: WasmResult<(&'a str, usize)>)
    ensures
        match r {
            Ok((s, end)) => pos < end <= data@.len() && match spec_var_u32(data@, pos as int) {
                Some(p) => end == p.1 + p.0 && spec_utf8_decode(
                    data@.subrange(p.1, end as int),
                ) == Some(s@),
                None => false,
            },
            Err(e) => e is InvalidWebAssembly,
        },
{
    let (len, p) = match read_var_u32(data, pos) {
        Ok(v) => v,
        Err(e) => {
            return Err(e);
        },
    };
    if (len as usize) > data.len() - p {
        return Err(err_invalid("name extends past end of input", pos));
    }
    let bytes = slice_subrange(data, p, p + len as usize);
    match bytes_to_str(bytes) {
        Some(s) => Ok((s, p + len as usize)),
        None => Err(err_invalid("name is not valid utf-8", pos)),
    }
}

/// The value type a type byte stands for, if any.
pub open spec fn spec_valtype(b: u8) -> Option<Type> {
    if b == 0x7f {
        Some(Type::I32)
    } else if b == 0x7e {
        Some(Type::I64)
    } else if b == 0x7d {
        Some(Type::F32)
    } else if b == 0x7c {
        Some(Type::F64)
    } else if b == 0x7b {
        Some(Type::V128)
    } else if b == 0x70 {
        Some(Type::FuncRef)
    } else if b == 0x6f {
        Some(Type::AnyRef)
    } else {
        None
    }
}

/// Decode one value-type byte.
fn parse_valtype(b: u8, offset: usize) -> (r: WasmResult<Type>)
    ensures
        match r {
            Ok(t) => spec_valtype(b) == Some(t),
            Err(e) => spec_valtype(b) is None && e is InvalidWebAssembly,
        },
{
    if b == 0x7f {
        Ok(Type::I32)
    } else if b == 0x7e {
        Ok(Type::I64)
    } else if b == 0x7d {
        Ok(Type::F32)
    } else if b == 0x7c {
        Ok(Type::F64)
    } else if b == 0x7b {
        Ok(Type::V128)
    } else if b == 0x70 {
        Ok(Type::FuncRef)
    } else if b == 0x6f {
        Ok(Type::AnyRef)
    } else {
        Err(err_invalid("invalid value type", offset))
    }
}

/// Read a vector of value types: a count followed by that many type bytes.
fn read_valtype_vec(data: &[u8], pos: usize) -> (r: WasmResult<(Vec<Type>, usize)>)
    ensures
        match r {
            Ok((v, end)) => pos < end <= data@.len(),
            Err(e) => e is InvalidWebAssembly,
        },
{
    let (count, mut p) = match read_var_u32(data, pos) {
        Ok(v) => v,
        Err(e) => {
            return Err(e);
        },
    };
    let mut types: Vec<Type> = Vec::new();
    let mut i: u32 = 0;
    while i < count
        invariant
            pos < p <= data@.len(),
        decreases count - i,
    {
        let (b, p2) = match read_byte(data, p) {
            Ok(v) => v,
            Err(e) => {
                return Err(e);
            },
        };
        let t = match parse_valtype(b, p) {
            Ok(t) => t,
            Err(e) => {
                return Err(e);
            },
        };
        types.push(t);
        p = p2;
        i = i + 1;
    }
    Ok((types, p))
}

/// Read one function type: the `0x60` tag, the parameter types, the result
/// types.
fn read_functype(data: &[u8], pos: usize) -> (r: WasmResult<(FuncType, usize)>)
    ensures
        match r {
            Ok((ft, end)) => pos < end <= data@.len(),
            Err(e) => e is InvalidWebAssembly,
        },
{
    let (tag, p) = match read_byte(data, pos) {
        Ok(v) => v,
        Err(e) => {
            return Err(e);
        },
    };
    if tag != 0x60 {
        return Err(err_invalid("invalid function type tag", pos));
    }
    let (params, p) = match read_valtype_vec(data, p) {
        Ok(v) => v,
        Err(e) => {
            return Err(e);
        },
    };
    let (results, p) = match read_valtype_vec(data, p) {
        Ok(v) => v,
        Err(e) => {
            return Err(e);
        },
    };
    Ok((FuncType::new(params, results), p))
}

/// Read a memory type: a flags integer (bit 0: a maximum follows, bit 1:
/// shared), the minimum page count, and the optional maximum.
fn read_memory_type(data: &[u8], pos: usize) -> (r: WasmResult<(MemoryType, usize)>)
    ensures
        match r {
            Ok((m, end)) => pos < end <= data@.len() && match spec_var_u32(data@, pos as int) {
                Some(f) => m.shared == (f.0 == 2 || f.0 == 3),
                None => false,
            },
            Err(e) => e is InvalidWebAssembly,
        },
{
    let (flags, p) = match read_var_u32(data, pos) {
        Ok(v) => v,
        Err(e) => {
            return Err(e);
        },
    };
    if flags > 3 {
        return Err(err_invalid("invalid memory limits flags", pos));
    }
    let shared = flags == 2 || flags == 3;
    let has_max = flags == 1 || flags == 3;
    let (minimum, p) = match read_var_u32(data, p) {
        Ok(v) => v,
        Err(e) => {
            return Err(e);
        },
    };
    if has_max {
        let (maximum, p) = match read_var_u32(data, p) {
            Ok(v) => v,
            Err(e) => {
                return Err(e);
            },
        };
        Ok((MemoryType::new(minimum, Some(maximum), shared), p))
    } else {
        Ok((MemoryType::new(minimum, None, shared), p))
    }
}

/// Read a table type: the element type byte and the limits.
fn read_table_type(data: &[u8], pos: usize) -> (r: WasmResult<(TableType, usize)>)
    ensures
        match r {
            Ok((t, end)) => pos < end <= data@.len(),
            Err(e) => e is InvalidWebAssembly,
        },
{
    let (b, p) = match read_byte(data, pos) {
        Ok(v) => v,
        Err(e) => {
            return Err(e);
        },
    };
    let ty = match parse_valtype(b, pos) {
        Ok(t) => t,
        Err(e) => {
            return Err(e);
        },
    };
    if !(ty == Type::FuncRef || ty == Type::AnyRef) {
        return Err(err_invalid("invalid table element type", pos));
    }
    let (flags, p) = match read_var_u32(data, p) {
        Ok(v) => v,
        Err(e) => {
            return Err(e);
        },
    };
    if flags > 1 {
        return Err(err_invalid("invalid table limits flags", pos));
    }
    let (minimum, p) = match read_var_u32(data, p) {
        Ok(v) => v,
        Err(e) => {
            return Err(e);
        },
    };
    if flags == 1 {
        let (maximum, p) = match read_var_u32(data, p) {
            Ok(v) => v,
            Err(e) => {
                return Err(e);
            },
        };
        Ok((TableType::new(ty, minimum, Some(maximum)), p))
    } else {
        Ok((TableType::new(ty, minimum, None), p))
    }
}

/// Read a constant initializer expression, as used by the global section:
/// one constant operator followed by the `end` opcode.
fn read_init_expr(data: &[u8], pos: usize) -> (r: WasmResult<(GlobalInit, usize)>)
    ensures
        match r {
            Ok((init, end)) => pos < end <= data@.len() && !(init is Import),
            Err(e) => e is InvalidWebAssembly,
        },
{
    let (op, p) = match read_byte(data, pos) {
        Ok(v) => v,
        Err(e) => {
            return Err(e);
        },
    };
    let (init, p) = if op == 0x41 {
        match read_var_i32(data, p) {
            Ok((v, p2)) => (GlobalInit::I32Const(v), p2),
            Err(e) => {
                return Err(e);
            },
        }
    } else if op == 0x42 {
        match read_var_i64(data, p) {
            Ok((v, p2)) => (GlobalInit::I64Const(v), p2),
            Err(e) => {
                return Err(e);
            },
        }
    } else if op == 0x43 {
        match read_u32_le(data, p) {
            Ok((v, p2)) => (GlobalInit::F32Const(v), p2),
            Err(e) => {
                return Err(e);
            },
        }
    } else if op == 0x44 {
        match read_u64_le(data, p) {
            Ok((v, p2)) => (GlobalInit::F64Const(v), p2),
            Err(e) => {
                return Err(e);
            },
        }
    } else if op == 0xfd {
        // A SIMD constant: the v128.const sub-opcode then sixteen bytes.
        let (sub, p2) = match read_var_u32(data, p) {
            Ok(v) => v,
            Err(e) => {
                return Err(e);
            },
        };
        if sub != 12 {
            return Err(err_invalid("unsupported constant operator", pos));
        }
        if 16 > data.len() - p2 {
            return Err(err_invalid("unexpected end of input", pos));
        }
        let bytes = slice_subrange(data, p2, p2 + 16);
        (GlobalInit::V128Const(V128::from_slice(bytes)), p2 + 16)
    } else if op == 0x23 {
        match read_var_u32(data, p) {
            Ok((v, p2)) => (GlobalInit::GetGlobal(GlobalIndex::from_u32(v)), p2),
            Err(e) => {
                return Err(e);
            },
        }
    } else if op == 0xd0 {
        // ref.null carries a heap type byte.
        match read_byte(data, p) {
            Ok((_, p2)) => (GlobalInit::RefNullConst, p2),
            Err(e) => {
                return Err(e);
            },
        }
    } else if op == 0xd2 {
        match read_var_u32(data, p) {
            Ok((v, p2)) => (GlobalInit::RefFunc(FuncIndex::from_u32(v)), p2),
            Err(e) => {
                return Err(e);
            },
        }
    } else {
        return Err(err_invalid("unsupported constant operator", pos));
    };
    let (end_op, p) = match read_byte(data, p) {
        Ok(v) => v,
        Err(e) => {
            return Err(e);
        },
    };
    if end_op != 0x0b {
        return Err(err_invalid("constant expression missing end", pos));
    }
    Ok((init, p))
}

/// Read the offset expression of an active segment: either an `i32.const`
/// literal or a `global.get` of a base global, then `end`.
fn read_offset_expr(data: &[u8], pos: usize) -> (r: WasmResult<((Option<GlobalIndex>, u32), usize)>)
    ensures
        match r {
            Ok((_, end)) => pos < end <= data@.len(),
            Err(e) => e is InvalidWebAssembly,
        },
{
    let (op, p) = match read_byte(data, pos) {
        Ok(v) => v,
        Err(e) => {
            return Err(e);
        },
    };
    let (base, offset, p) = if op == 0x41 {
        match read_var_i32(data, p) {
            Ok((v, p2)) => (None, v as u32, p2),
            Err(e) => {
                return Err(e);
            },
        }
    } else if op == 0x23 {
        match read_var_u32(data, p) {
            Ok((v, p2)) => (Some(GlobalIndex::from_u32(v)), 0u32, p2),
            Err(e) => {
                return Err(e);
            },
        }
    } else {
        return Err(err_invalid("unsupported offset expression", pos));
    };
    let (end_op, p) = match read_byte(data, p) {
        Ok(v) => v,
        Err(e) => {
            return Err(e);
        },
    };
    if end_op != 0x0b {
        return Err(err_invalid("offset expression missing end", pos));
    }
    Ok(((base, offset), p))
}

/// Copy the bytes `data[from..to]` out of the input.
fn bytes_of(data: &[u8], from: usize, to: usize) -> (r: Vec<u8>)
    requires
        from <= to <= data@.len(),
    ensures
        r@ == data@.subrange(from as int, to as int),
{
    slice_to_vec(slice_subrange(data, from, to))
}

/// The memory plans recorded so far come from un-shared memory types under
/// the environment's tunables.
pub open spec fn plans_ok(e: ModuleEnvironment) -> bool {
    crate::module::spec_memory_plans_wf(e.result.module.local.memory_plans@, e.result.tunables)
}

/// All functions recorded so far are imports.
pub open spec fn fn_boundary(e: ModuleEnvironment) -> bool {
    e.result.module.local.functions@.len() == e.result.module.local.num_imported_funcs
}

/// All tables recorded so far are imports.
pub open spec fn table_boundary(e: ModuleEnvironment) -> bool {
    e.result.module.local.table_plans@.len() == e.result.module.local.num_imported_tables
}

/// All memories recorded so far are imports.
pub open spec fn memory_boundary(e: ModuleEnvironment) -> bool {
    e.result.module.local.memory_plans@.len() == e.result.module.local.num_imported_memories
}

/// All globals recorded so far are imports.
pub open spec fn global_boundary(e: ModuleEnvironment) -> bool {
    e.result.module.local.globals@.len() == e.result.module.local.num_imported_globals
}

/// No start function has been recorded yet.
pub open spec fn no_start(e: ModuleEnvironment) -> bool {
    e.result.module.start_func is None
}

/// No passive element segment has been recorded yet.
pub open spec fn no_passive_elems(e: ModuleEnvironment) -> bool {
    e.result.module.passive_elements@.len() == 0
}

/// No passive data segment has been recorded yet.
pub open spec fn no_passive_data(e: ModuleEnvironment) -> bool {
    e.result.module.passive_data@.len() == 0
}

/// Decode the type section: a count of function types, declared in order.
fn parse_type_section(data: &[u8], pos: usize, environ: &mut ModuleEnvironment) -> (r: WasmResult<
    usize,
>)
    requires
        old(environ).wf(),
    ensures
        final(environ).wf(),
        final(environ).result.tunables == old(environ).result.tunables,
        plans_ok(*old(environ)) ==> plans_ok(*final(environ)),
        fn_boundary(*old(environ)) ==> fn_boundary(*final(environ)),
        table_boundary(*old(environ)) ==> table_boundary(*final(environ)),
        memory_boundary(*old(environ)) ==> memory_boundary(*final(environ)),
        global_boundary(*old(environ)) ==> global_boundary(*final(environ)),
        no_start(*old(environ)) ==> no_start(*final(environ)),
        no_passive_elems(*old(environ)) ==> no_passive_elems(*final(environ)),
        no_passive_data(*old(environ)) ==> no_passive_data(*final(environ)),
        match r {
            Ok(end) => end <= data@.len(),
            Err(e) => true,
        },
{
    let (count, mut p) = match read_var_u32(data, pos) {
        Ok(v) => v,
        Err(e) => {
            return Err(e);
        },
    };
    match environ.reserve_signatures(count) {
        Ok(()) => (),
        Err(_) => unreached(),
    }
    let mut i: u32 = 0;
    while i < count
        invariant
            environ.wf(),
            environ.result.tunables == old(environ).result.tunables,
            plans_ok(*old(environ)) ==> plans_ok(*environ),
            p <= data@.len(),
            fn_boundary(*old(environ)) ==> fn_boundary(*environ),
            table_boundary(*old(environ)) ==> table_boundary(*environ),
            memory_boundary(*old(environ)) ==> memory_boundary(*environ),
            global_boundary(*old(environ)) ==> global_boundary(*environ),
            no_start(*old(environ)) ==> no_start(*environ),
            no_passive_elems(*old(environ)) ==> no_passive_elems(*environ),
            no_passive_data(*old(environ)) ==> no_passive_data(*environ),
        decreases count - i,
    {
        let (ft, p2) = match read_functype(data, p) {
            Ok(v) => v,
            Err(e) => {
                return Err(e);
            },
        };
        match environ.declare_signature(ft) {
            Ok(()) => (),
            Err(_) => unreached(),
        }
        p = p2;
        i = i + 1;
    }
    Ok(p)
}

/// Decode the import section: a count of (module, field, descriptor)
/// entries, each declared as an imported function, table, memory or global.
fn parse_import_section(data: &[u8], pos: usize, environ: &mut ModuleEnvironment) -> (r: WasmResult<
    usize,
>)
    requires
        old(environ).wf(),
        fn_boundary(*old(environ)),
        table_boundary(*old(environ)),
        memory_boundary(*old(environ)),
        global_boundary(*old(environ)),
    ensures
        final(environ).wf(),
        final(environ).result.tunables == old(environ).result.tunables,
        plans_ok(*old(environ)) ==> plans_ok(*final(environ)),
        fn_boundary(*final(environ)),
        table_boundary(*final(environ)),
        memory_boundary(*final(environ)),
        global_boundary(*final(environ)),
        no_start(*old(environ)) ==> no_start(*final(environ)),
        no_passive_elems(*old(environ)) ==> no_passive_elems(*final(environ)),
        no_passive_data(*old(environ)) ==> no_passive_data(*final(environ)),
        match r {
            Ok(end) => end <= data@.len(),
            Err(e) => true,
        },
{
    let (count, mut p) = match read_var_u32(data, pos) {
        Ok(v) => v,
        Err(e) => {
            return Err(e);
        },
    };
    match environ.reserve_imports(count) {
        Ok(()) => (),
        Err(_) => unreached(),
    }
    let mut i: u32 = 0;
    while i < count
        invariant
            environ.wf(),
            environ.result.tunables == old(environ).result.tunables,
            plans_ok(*old(environ)) ==> plans_ok(*environ),
            p <= data@.len(),
            fn_boundary(*environ),
            table_boundary(*environ),
            memory_boundary(*environ),
            global_boundary(*environ),
            no_start(*old(environ)) ==> no_start(*environ),
            no_passive_elems(*old(environ)) ==> no_passive_elems(*environ),
            no_passive_data(*old(environ)) ==> no_passive_data(*environ),
        decreases count - i,
    {
        let (module_name, p2) = match read_name(data, p) {
            Ok(v) => v,
            Err(e) => {
                return Err(e);
            },
        };
        let (field_name, p3) = match read_name(data, p2) {
            Ok(v) => v,
            Err(e) => {
                return Err(e);
            },
        };
        let (kind, p4) = match read_byte(data, p3) {
            Ok(v) => v,
            Err(e) => {
                return Err(e);
            },
        };
        if environ.imports == u32::MAX {
            return Err(err_invalid("too many imports", p));
        }
        if kind == 0x00 {
            let (sig, p5) = match read_var_u32(data, p4) {
                Ok(v) => v,
                Err(e) => {
                    return Err(e);
                },
            };
            if sig as usize >= environ.result.module.local.signatures.len() {
                return Err(err_invalid("import refers to an unknown type", p));
            }
            if environ.result.module.local.num_imported_funcs >= u32::MAX as usize {
                return Err(err_invalid("too many imported functions", p));
            }
            match environ.declare_func_import(
                crate::indexes::SignatureIndex::from_u32(sig),
                module_name,
                field_name,
            ) {
                Ok(()) => (),
                Err(_) => unreached(),
            }
            p = p5;
        } else if kind == 0x01 {
            let (table, p5) = match read_table_type(data, p4) {
                Ok(v) => v,
                Err(e) => {
                    return Err(e);
                },
            };
            if environ.result.module.local.num_imported_tables >= u32::MAX as usize {
                return Err(err_invalid("too many imported tables", p));
            }
            match environ.declare_table_import(table, module_name, field_name) {
                Ok(()) => (),
                Err(_) => unreached(),
            }
            p = p5;
        } else if kind == 0x02 {
            let (memory, p5) = match read_memory_type(data, p4) {
                Ok(v) => v,
                Err(e) => {
                    return Err(e);
                },
            };
            if environ.result.module.local.num_imported_memories >= u32::MAX as usize {
                return Err(err_invalid("too many imported memories", p));
            }
            match environ.declare_memory_import(memory, module_name, field_name) {
                Ok(()) => (),
                Err(e) => {
                    return Err(e);
                },
            }
            p = p5;
        } else if kind == 0x03 {
            let (b, p5) = match read_byte(data, p4) {
                Ok(v) => v,
                Err(e) => {
                    return Err(e);
                },
            };
            let ty = match parse_valtype(b, p4) {
                Ok(t) => t,
                Err(e) => {
                    return Err(e);
                },
            };
            let (mut_byte, p6) = match read_byte(data, p5) {
                Ok(v) => v,
                Err(e) => {
                    return Err(e);
                },
            };
            if mut_byte > 1 {
                return Err(err_invalid("invalid global mutability", p5));
            }
            let mutability = if mut_byte == 1 {
                Mutability::Var
            } else {
                Mutability::Const
            };
            if environ.result.module.local.num_imported_globals >= u32::MAX as usize {
                return Err(err_invalid("too many imported globals", p));
            }
            match environ.declare_global_import(
                crate::types::GlobalType::new(ty, mutability),
                module_name,
                field_name,
            ) {
                Ok(()) => (),
                Err(_) => unreached(),
            }
            p = p6;
        } else {
            return Err(err_invalid("invalid import kind", p3));
        }
        i = i + 1;
    }
    match environ.finish_imports() {
        Ok(()) => (),
        Err(_) => unreached(),
    }
    Ok(p)
}

/// Decode the function section: a count of type indices, one per local
/// function.
fn parse_function_section(data: &[u8], pos: usize, environ: &mut ModuleEnvironment) -> (r:
    WasmResult<usize>)
    requires
        old(environ).wf(),
    ensures
        final(environ).wf(),
        final(environ).result.tunables == old(environ).result.tunables,
        plans_ok(*old(environ)) ==> plans_ok(*final(environ)),
        table_boundary(*old(environ)) ==> table_boundary(*final(environ)),
        memory_boundary(*old(environ)) ==> memory_boundary(*final(environ)),
        global_boundary(*old(environ)) ==> global_boundary(*final(environ)),
        no_start(*old(environ)) ==> no_start(*final(environ)),
        no_passive_elems(*old(environ)) ==> no_passive_elems(*final(environ)),
        no_passive_data(*old(environ)) ==> no_passive_data(*final(environ)),
        match r {
            Ok(end) => end <= data@.len(),
            Err(e) => true,
        },
{
    let (count, mut p) = match read_var_u32(data, pos) {
        Ok(v) => v,
        Err(e) => {
            return Err(e);
        },
    };
    match environ.reserve_func_types(count) {
        Ok(()) => (),
        Err(_) => unreached(),
    }
    let mut i: u32 = 0;
    while i < count
        invariant
            environ.wf(),
            environ.result.tunables == old(environ).result.tunables,
            plans_ok(*old(environ)) ==> plans_ok(*environ),
            p <= data@.len(),
            table_boundary(*old(environ)) ==> table_boundary(*environ),
            memory_boundary(*old(environ)) ==> memory_boundary(*environ),
            global_boundary(*old(environ)) ==> global_boundary(*environ),
            no_start(*old(environ)) ==> no_start(*environ),
            no_passive_elems(*old(environ)) ==> no_passive_elems(*environ),
            no_passive_data(*old(environ)) ==> no_passive_data(*environ),
        decreases count - i,
    {
        let (sig, p2) = match read_var_u32(data, p) {
            Ok(v) => v,
            Err(e) => {
                return Err(e);
            },
        };
        if sig as usize >= environ.result.module.local.signatures.len() {
            return Err(err_invalid("function refers to an unknown type", p));
        }
        match environ.declare_func_type(crate::indexes::SignatureIndex::from_u32(sig)) {
            Ok(()) => (),
            Err(_) => unreached(),
        }
        p = p2;
        i = i + 1;
    }
    Ok(p)
}

/// Decode the table section: a count of table types, one per local table.
fn parse_table_section(data: &[u8], pos: usize, environ: &mut ModuleEnvironment) -> (r: WasmResult<
    usize,
>)
    requires
        old(environ).wf(),
    ensures
        final(environ).wf(),
        final(environ).result.tunables == old(environ).result.tunables,
        plans_ok(*old(environ)) ==> plans_ok(*final(environ)),
        fn_boundary(*old(environ)) ==> fn_boundary(*final(environ)),
        memory_boundary(*old(environ)) ==> memory_boundary(*final(environ)),
        global_boundary(*old(environ)) ==> global_boundary(*final(environ)),
        no_start(*old(environ)) ==> no_start(*final(environ)),
        no_passive_elems(*old(environ)) ==> no_passive_elems(*final(environ)),
        no_passive_data(*old(environ)) ==> no_passive_data(*final(environ)),
        match r {
            Ok(end) => end <= data@.len(),
            Err(e) => true,
        },
{
    let (count, mut p) = match read_var_u32(data, pos) {
        Ok(v) => v,
        Err(e) => {
            return Err(e);
        },
    };
    match environ.reserve_tables(count) {
        Ok(()) => (),
        Err(_) => unreached(),
    }
    let mut i: u32 = 0;
    while i < count
        invariant
            environ.wf(),
            environ.result.tunables == old(environ).result.tunables,
            plans_ok(*old(environ)) ==> plans_ok(*environ),
            p <= data@.len(),
            fn_boundary(*old(environ)) ==> fn_boundary(*environ),
            memory_boundary(*old(environ)) ==> memory_boundary(*environ),
            global_boundary(*old(environ)) ==> global_boundary(*environ),
            no_start(*old(environ)) ==> no_start(*environ),
            no_passive_elems(*old(environ)) ==> no_passive_elems(*environ),
            no_passive_data(*old(environ)) ==> no_passive_data(*environ),
        decreases count - i,
    {
        let (table, p2) = match read_table_type(data, p) {
            Ok(v) => v,
            Err(e) => {
                return Err(e);
            },
        };
        match environ.declare_table(table) {
            Ok(()) => (),
            Err(_) => unreached(),
        }
        p = p2;
        i = i + 1;
    }
    Ok(p)
}

/// Decode the memory section: a count of memory types, one per local memory.
/// A shared memory fails the translation with an `Unsupported` error.
fn parse_memory_section(data: &[u8], pos: usize, environ: &mut ModuleEnvironment) -> (r: WasmResult<
    usize,
>)
    requires
        old(environ).wf(),
    ensures
        final(environ).wf(),
        final(environ).result.tunables == old(environ).result.tunables,
        plans_ok(*old(environ)) ==> plans_ok(*final(environ)),
        fn_boundary(*old(environ)) ==> fn_boundary(*final(environ)),
        table_boundary(*old(environ)) ==> table_boundary(*final(environ)),
        global_boundary(*old(environ)) ==> global_boundary(*final(environ)),
        no_start(*old(environ)) ==> no_start(*final(environ)),
        no_passive_elems(*old(environ)) ==> no_passive_elems(*final(environ)),
        no_passive_data(*old(environ)) ==> no_passive_data(*final(environ)),
        match r {
            Ok(end) => end <= data@.len(),
            Err(e) => true,
        },
{
    let (count, mut p) = match read_var_u32(data, pos) {
        Ok(v) => v,
        Err(e) => {
            return Err(e);
        },
    };
    match environ.reserve_memories(count) {
        Ok(()) => (),
        Err(_) => unreached(),
    }
    let mut i: u32 = 0;
    while i < count
        invariant
            environ.wf(),
            environ.result.tunables == old(environ).result.tunables,
            plans_ok(*old(environ)) ==> plans_ok(*environ),
            p <= data@.len(),
            fn_boundary(*old(environ)) ==> fn_boundary(*environ),
            table_boundary(*old(environ)) ==> table_boundary(*environ),
            global_boundary(*old(environ)) ==> global_boundary(*environ),
            no_start(*old(environ)) ==> no_start(*environ),
            no_passive_elems(*old(environ)) ==> no_passive_elems(*environ),
            no_passive_data(*old(environ)) ==> no_passive_data(*environ),
        decreases count - i,
    {
        let (memory, p2) = match read_memory_type(data, p) {
            Ok(v) => v,
            Err(e) => {
                return Err(e);
            },
        };
        match environ.declare_memory(memory) {
            Ok(()) => (),
            Err(e) => {
                return Err(e);
            },
        }
        p = p2;
        i = i + 1;
    }
    Ok(p)
}

/// Decode the global section: a count of (global type, initializer) entries,
/// one per local global.
fn parse_global_section(data: &[u8], pos: usize, environ: &mut ModuleEnvironment) -> (r: WasmResult<
    usize,
>)
    requires
        old(environ).wf(),
    ensures
        final(environ).wf(),
        final(environ).result.tunables == old(environ).result.tunables,
        plans_ok(*old(environ)) ==> plans_ok(*final(environ)),
        fn_boundary(*old(environ)) ==> fn_boundary(*final(environ)),
        table_boundary(*old(environ)) ==> table_boundary(*final(environ)),
        memory_boundary(*old(environ)) ==> memory_boundary(*final(environ)),
        no_start(*old(environ)) ==> no_start(*final(environ)),
        no_passive_elems(*old(environ)) ==> no_passive_elems(*final(environ)),
        no_passive_data(*old(environ)) ==> no_passive_data(*final(environ)),
        match r {
            Ok(end) => end <= data@.len(),
            Err(e) => true,
        },
{
    let (count, mut p) = match read_var_u32(data, pos) {
        Ok(v) => v,
        Err(e) => {
            return Err(e);
        },
    };
    match environ.reserve_globals(count) {
        Ok(()) => (),
        Err(_) => unreached(),
    }
    let mut i: u32 = 0;
    while i < count
        invariant
            environ.wf(),
            environ.result.tunables == old(environ).result.tunables,
            plans_ok(*old(environ)) ==> plans_ok(*environ),
            p <= data@.len(),
            fn_boundary(*old(environ)) ==> fn_boundary(*environ),
            table_boundary(*old(environ)) ==> table_boundary(*environ),
            memory_boundary(*old(environ)) ==> memory_boundary(*environ),
            no_start(*old(environ)) ==> no_start(*environ),
            no_passive_elems(*old(environ)) ==> no_passive_elems(*environ),
            no_passive_data(*old(environ)) ==> no_passive_data(*environ),
        decreases count - i,
    {
        let (b, p2) = match read_byte(data, p) {
            Ok(v) => v,
            Err(e) => {
                return Err(e);
            },
        };
        let ty = match parse_valtype(b, p) {
            Ok(t) => t,
            Err(e) => {
                return Err(e);
            },
        };
        let (mut_byte, p3) = match read_byte(data, p2) {
            Ok(v) => v,
            Err(e) => {
                return Err(e);
            },
        };
        if mut_byte > 1 {
            return Err(err_invalid("invalid global mutability", p2));
        }
        let mutability = if mut_byte == 1 {
            Mutability::Var
        } else {
            Mutability::Const
        };
        let (initializer, p4) = match read_init_expr(data, p3) {
            Ok(v) => v,
            Err(e) => {
                return Err(e);
            },
        };
        let global = crate::types::GlobalType { ty, mutability, initializer };
        match environ.declare_global(global) {
            Ok(()) => (),
            Err(_) => unreached(),
        }
        p = p4;
        i = i + 1;
    }
    Ok(p)
}

/// Decode the export section: a count of (name, kind, index) entries.
fn parse_export_section(data: &[u8], pos: usize, environ: &mut ModuleEnvironment) -> (r: WasmResult<
    usize,
>)
    requires
        old(environ).wf(),
    ensures
        final(environ).wf(),
        final(environ).result.tunables == old(environ).result.tunables,
        plans_ok(*old(environ)) ==> plans_ok(*final(environ)),
        fn_boundary(*old(environ)) ==> fn_boundary(*final(environ)),
        table_boundary(*old(environ)) ==> table_boundary(*final(environ)),
        memory_boundary(*old(environ)) ==> memory_boundary(*final(environ)),
        global_boundary(*old(environ)) ==> global_boundary(*final(environ)),
        no_start(*old(environ)) ==> no_start(*final(environ)),
        no_passive_elems(*old(environ)) ==> no_passive_elems(*final(environ)),
        no_passive_data(*old(environ)) ==> no_passive_data(*final(environ)),
        match r {
            Ok(end) => end <= data@.len(),
            Err(e) => true,
        },
{
    let (count, mut p) = match read_var_u32(data, pos) {
        Ok(v) => v,
        Err(e) => {
            return Err(e);
        },
    };
    match environ.reserve_exports(count) {
        Ok(()) => (),
        Err(_) => unreached(),
    }
    let mut i: u32 = 0;
    while i < count
        invariant
            environ.wf(),
            environ.result.tunables == old(environ).result.tunables,
            plans_ok(*old(environ)) ==> plans_ok(*environ),
            p <= data@.len(),
            fn_boundary(*old(environ)) ==> fn_boundary(*environ),
            table_boundary(*old(environ)) ==> table_boundary(*environ),
            memory_boundary(*old(environ)) ==> memory_boundary(*environ),
            global_boundary(*old(environ)) ==> global_boundary(*environ),
            no_start(*old(environ)) ==> no_start(*environ),
            no_passive_elems(*old(environ)) ==> no_passive_elems(*environ),
            no_passive_data(*old(environ)) ==> no_passive_data(*environ),
        decreases count - i,
    {
        let (name, p2) = match read_name(data, p) {
            Ok(v) => v,
            Err(e) => {
                return Err(e);
            },
        };
        let (kind, p3) = match read_byte(data, p2) {
            Ok(v) => v,
            Err(e) => {
                return Err(e);
            },
        };
        let (index, p4) = match read_var_u32(data, p3) {
            Ok(v) => v,
            Err(e) => {
                return Err(e);
            },
        };
        if kind == 0x00 {
            if index as usize >= environ.result.module.local.functions.len() {
                return Err(err_invalid("exported function index out of bounds", p));
            }
            match environ.declare_func_export(crate::indexes::FuncIndex::from_u32(index), name) {
                Ok(()) => (),
                Err(_) => unreached(),
            }
        } else if kind == 0x01 {
            if index as usize >= environ.result.module.local.table_plans.len() {
                return Err(err_invalid("exported table index out of bounds", p));
            }
            match environ.declare_table_export(crate::indexes::TableIndex::from_u32(index), name) {
                Ok(()) => (),
                Err(_) => unreached(),
            }
        } else if kind == 0x02 {
            if index as usize >= environ.result.module.local.memory_plans.len() {
                return Err(err_invalid("exported memory index out of bounds", p));
            }
            match environ.declare_memory_export(
                crate::indexes::MemoryIndex::from_u32(index),
                name,
            ) {
                Ok(()) => (),
                Err(_) => unreached(),
            }
        } else if kind == 0x03 {
            if index as usize >= environ.result.module.local.globals.len() {
                return Err(err_invalid("exported global index out of bounds", p));
            }
            match environ.declare_global_export(
                crate::indexes::GlobalIndex::from_u32(index),
                name,
            ) {
                Ok(()) => (),
                Err(_) => unreached(),
            }
        } else {
            return Err(err_invalid("invalid export kind", p2));
        }
        p = p4;
        i = i + 1;
    }
    match environ.finish_exports() {
        Ok(()) => (),
        Err(_) => unreached(),
    }
    Ok(p)
}

/// Decode the start section: the index of the start function.
fn parse_start_section(data: &[u8], pos: usize, environ: &mut ModuleEnvironment) -> (r: WasmResult<
    usize,
>)
    requires
        old(environ).wf(),
        no_start(*old(environ)),
    ensures
        final(environ).wf(),
        final(environ).result.tunables == old(environ).result.tunables,
        plans_ok(*old(environ)) ==> plans_ok(*final(environ)),
        fn_boundary(*old(environ)) ==> fn_boundary(*final(environ)),
        table_boundary(*old(environ)) ==> table_boundary(*final(environ)),
        memory_boundary(*old(environ)) ==> memory_boundary(*final(environ)),
        global_boundary(*old(environ)) ==> global_boundary(*final(environ)),
        no_passive_elems(*old(environ)) ==> no_passive_elems(*final(environ)),
        no_passive_data(*old(environ)) ==> no_passive_data(*final(environ)),
        match r {
            Ok(end) => end <= data@.len(),
            Err(e) => true,
        },
{
    let (index, p) = match read_var_u32(data, pos) {
        Ok(v) => v,
        Err(e) => {
            return Err(e);
        },
    };
    if index as usize >= environ.result.module.local.functions.len() {
        return Err(err_invalid("start function index out of bounds", pos));
    }
    match environ.declare_start_func(crate::indexes::FuncIndex::from_u32(index)) {
        Ok(()) => (),
        Err(_) => unreached(),
    }
    Ok(p)
}

/// Read a vector of function indices, each checked against the number of
/// declared functions.
fn read_func_index_vec(data: &[u8], pos: usize, num_funcs: usize) -> (r: WasmResult<
    (Vec<FuncIndex>, usize),
>)
    ensures
        match r {
            Ok((v, end)) => pos < end <= data@.len(),
            Err(e) => e is InvalidWebAssembly,
        },
{
    let (count, mut p) = match read_var_u32(data, pos) {
        Ok(v) => v,
        Err(e) => {
            return Err(e);
        },
    };
    let mut items: Vec<FuncIndex> = Vec::new();
    let mut i: u32 = 0;
    while i < count
        invariant
            pos < p <= data@.len(),
        decreases count - i,
    {
        let (idx, p2) = match read_var_u32(data, p) {
            Ok(v) => v,
            Err(e) => {
                return Err(e);
            },
        };
        if idx as usize >= num_funcs {
            return Err(err_invalid("element function index out of bounds", p));
        }
        items.push(FuncIndex::from_u32(idx));
        p = p2;
        i = i + 1;
    }
    Ok((items, p))
}

/// Decode the element section: active segments become table initializers,
/// passive and declared segments are stored by their segment index.
fn parse_element_section(data: &[u8], pos: usize, environ: &mut ModuleEnvironment) -> (r:
    WasmResult<usize>)
    requires
        old(environ).wf(),
        no_passive_elems(*old(environ)),
    ensures
        final(environ).wf(),
        final(environ).result.tunables == old(environ).result.tunables,
        plans_ok(*old(environ)) ==> plans_ok(*final(environ)),
        fn_boundary(*old(environ)) ==> fn_boundary(*final(environ)),
        table_boundary(*old(environ)) ==> table_boundary(*final(environ)),
        memory_boundary(*old(environ)) ==> memory_boundary(*final(environ)),
        global_boundary(*old(environ)) ==> global_boundary(*final(environ)),
        no_start(*old(environ)) ==> no_start(*final(environ)),
        no_passive_data(*old(environ)) ==> no_passive_data(*final(environ)),
        match r {
            Ok(end) => end <= data@.len(),
            Err(e) => true,
        },
{
    let (count, mut p) = match read_var_u32(data, pos) {
        Ok(v) => v,
        Err(e) => {
            return Err(e);
        },
    };
    match environ.reserve_table_elements(count) {
        Ok(()) => (),
        Err(_) => unreached(),
    }
    let mut i: u32 = 0;
    while i < count
        invariant
            environ.wf(),
            environ.result.tunables == old(environ).result.tunables,
            plans_ok(*old(environ)) ==> plans_ok(*environ),
            p <= data@.len(),
            fn_boundary(*old(environ)) ==> fn_boundary(*environ),
            table_boundary(*old(environ)) ==> table_boundary(*environ),
            memory_boundary(*old(environ)) ==> memory_boundary(*environ),
            global_boundary(*old(environ)) ==> global_boundary(*environ),
            no_start(*old(environ)) ==> no_start(*environ),
            no_passive_data(*old(environ)) ==> no_passive_data(*environ),
            forall|k: int|
                0 <= k < environ.result.module.passive_elements@.len() ==> (
                #[trigger] environ.result.module.passive_elements@[k]).0.0 < i,
        decreases count - i,
    {
        let (flags, p2) = match read_var_u32(data, p) {
            Ok(v) => v,
            Err(e) => {
                return Err(e);
            },
        };
        let num_funcs = environ.result.module.local.functions.len();
        if flags == 0 || flags == 2 {
            let (table_index, p3) = if flags == 2 {
                match read_var_u32(data, p2) {
                    Ok(v) => v,
                    Err(e) => {
                        return Err(e);
                    },
                }
            } else {
                (0u32, p2)
            };
            if table_index as usize >= environ.result.module.local.table_plans.len() {
                return Err(err_invalid("element table index out of bounds", p));
            }
            let ((base, offset), p4) = match read_offset_expr(data, p3) {
                Ok(v) => v,
                Err(e) => {
                    return Err(e);
                },
            };
            let (elements, p5) = match read_func_index_vec(data, p4, num_funcs) {
                Ok(v) => v,
                Err(e) => {
                    return Err(e);
                },
            };
            match environ.declare_table_elements(
                crate::indexes::TableIndex::from_u32(table_index),
                base,
                offset as usize,
                elements,
            ) {
                Ok(()) => (),
                Err(_) => unreached(),
            }
            p = p5;
        } else if flags == 1 || flags == 3 {
            let (elem_kind, p3) = match read_byte(data, p2) {
                Ok(v) => v,
                Err(e) => {
                    return Err(e);
                },
            };
            if elem_kind != 0x00 {
                return Err(err_invalid("invalid element kind", p2));
            }
            let (segments, p4) = match read_func_index_vec(data, p3, num_funcs) {
                Ok(v) => v,
                Err(e) => {
                    return Err(e);
                },
            };
            match environ.declare_passive_element(
                crate::indexes::ElemIndex::from_u32(i),
                segments,
            ) {
                Ok(()) => (),
                Err(_) => unreached(),
            }
            p = p4;
        } else {
            return Err(err_invalid("invalid element segment flags", p));
        }
        i = i + 1;
    }
    Ok(p)
}

/// Decode the code section: one body per local function, recorded with its
/// offset in the binary.
fn parse_code_section(data: &[u8], pos: usize, environ: &mut ModuleEnvironment) -> (r: WasmResult<
    (usize, u32),
>)
    requires
        old(environ).wf(),
    ensures
        final(environ).wf(),
        final(environ).result.tunables == old(environ).result.tunables,
        plans_ok(*old(environ)) ==> plans_ok(*final(environ)),
        fn_boundary(*old(environ)) ==> fn_boundary(*final(environ)),
        table_boundary(*old(environ)) ==> table_boundary(*final(environ)),
        memory_boundary(*old(environ)) ==> memory_boundary(*final(environ)),
        global_boundary(*old(environ)) ==> global_boundary(*final(environ)),
        no_start(*old(environ)) ==> no_start(*final(environ)),
        no_passive_elems(*old(environ)) ==> no_passive_elems(*final(environ)),
        no_passive_data(*old(environ)) ==> no_passive_data(*final(environ)),
        match r {
            Ok((end, count)) => end <= data@.len(),
            Err(e) => true,
        },
{
    let (count, mut p) = match read_var_u32(data, pos) {
        Ok(v) => v,
        Err(e) => {
            return Err(e);
        },
    };
    let num_imported = environ.result.module.local.num_imported_funcs;
    let num_total = environ.result.module.local.functions.len();
    if num_imported > num_total || count as usize != num_total - num_imported {
        return Err(err_invalid("function and code section counts differ", pos));
    }
    let state = ModuleTranslationState { num_translated_functions: count };
    let mut i: u32 = 0;
    while i < count
        invariant
            environ.wf(),
            environ.result.tunables == old(environ).result.tunables,
            plans_ok(*old(environ)) ==> plans_ok(*environ),
            p <= data@.len(),
            fn_boundary(*old(environ)) ==> fn_boundary(*environ),
            table_boundary(*old(environ)) ==> table_boundary(*environ),
            memory_boundary(*old(environ)) ==> memory_boundary(*environ),
            global_boundary(*old(environ)) ==> global_boundary(*environ),
            no_start(*old(environ)) ==> no_start(*environ),
            no_passive_elems(*old(environ)) ==> no_passive_elems(*environ),
            no_passive_data(*old(environ)) ==> no_passive_data(*environ),
        decreases count - i,
    {
        let (size, p2) = match read_var_u32(data, p) {
            Ok(v) => v,
            Err(e) => {
                return Err(e);
            },
        };
        if size as usize > data.len() - p2 {
            return Err(err_invalid("function body extends past end of input", p));
        }
        let body = bytes_of(data, p2, p2 + size as usize);
        match environ.define_function_body(&state, body, p2) {
            Ok(()) => (),
            Err(_) => unreached(),
        }
        p = p2 + size as usize;
        i = i + 1;
    }
    Ok((p, count))
}

/// Decode the data section: active segments become data initializers,
/// passive segments are stored by their segment index.
fn parse_data_section(data: &[u8], pos: usize, environ: &mut ModuleEnvironment) -> (r: WasmResult<
    usize,
>)
    requires
        old(environ).wf(),
        no_passive_data(*old(environ)),
    ensures
        final(environ).wf(),
        final(environ).result.tunables == old(environ).result.tunables,
        plans_ok(*old(environ)) ==> plans_ok(*final(environ)),
        fn_boundary(*old(environ)) ==> fn_boundary(*final(environ)),
        table_boundary(*old(environ)) ==> table_boundary(*final(environ)),
        memory_boundary(*old(environ)) ==> memory_boundary(*final(environ)),
        global_boundary(*old(environ)) ==> global_boundary(*final(environ)),
        no_start(*old(environ)) ==> no_start(*final(environ)),
        no_passive_elems(*old(environ)) ==> no_passive_elems(*final(environ)),
        match r {
            Ok(end) => end <= data@.len(),
            Err(e) => true,
        },
{
    let (count, mut p) = match read_var_u32(data, pos) {
        Ok(v) => v,
        Err(e) => {
            return Err(e);
        },
    };
    match environ.reserve_data_initializers(count) {
        Ok(()) => (),
        Err(_) => unreached(),
    }
    let mut i: u32 = 0;
    while i < count
        invariant
            environ.wf(),
            environ.result.tunables == old(environ).result.tunables,
            plans_ok(*old(environ)) ==> plans_ok(*environ),
            p <= data@.len(),
            fn_boundary(*old(environ)) ==> fn_boundary(*environ),
            table_boundary(*old(environ)) ==> table_boundary(*environ),
            memory_boundary(*old(environ)) ==> memory_boundary(*environ),
            global_boundary(*old(environ)) ==> global_boundary(*environ),
            no_start(*old(environ)) ==> no_start(*environ),
            no_passive_elems(*old(environ)) ==> no_passive_elems(*environ),
            forall|k: int|
                0 <= k < environ.result.module.passive_data@.len() ==> (
                #[trigger] environ.result.module.passive_data@[k]).0.0 < i,
        decreases count - i,
    {
        let (flags, p2) = match read_var_u32(data, p) {
            Ok(v) => v,
            Err(e) => {
                return Err(e);
            },
        };
        if flags == 0 || flags == 2 {
            let (memory_index, p3) = if flags == 2 {
                match read_var_u32(data, p2) {
                    Ok(v) => v,
                    Err(e) => {
                        return Err(e);
                    },
                }
            } else {
                (0u32, p2)
            };
            if memory_index as usize >= environ.result.module.local.memory_plans.len() {
                return Err(err_invalid("data segment memory index out of bounds", p));
            }
            let ((base, offset), p4) = match read_offset_expr(data, p3) {
                Ok(v) => v,
                Err(e) => {
                    return Err(e);
                },
            };
            let (size, p5) = match read_var_u32(data, p4) {
                Ok(v) => v,
                Err(e) => {
                    return Err(e);
                },
            };
            if size as usize > data.len() - p5 {
                return Err(err_invalid("data segment extends past end of input", p));
            }
            let bytes = bytes_of(data, p5, p5 + size as usize);
            match environ.declare_data_initialization(
                crate::indexes::MemoryIndex::from_u32(memory_index),
                base,
                offset as usize,
                bytes,
            ) {
                Ok(()) => (),
                Err(_) => unreached(),
            }
            p = p5 + size as usize;
        } else if flags == 1 {
            let (size, p3) = match read_var_u32(data, p2) {
                Ok(v) => v,
                Err(e) => {
                    return Err(e);
                },
            };
            if size as usize > data.len() - p3 {
                return Err(err_invalid("data segment extends past end of input", p));
            }
            let bytes = bytes_of(data, p3, p3 + size as usize);
            match environ.declare_passive_data(crate::indexes::DataIndex::from_u32(i), bytes) {
                Ok(()) => (),
                Err(_) => unreached(),
            }
            p = p3 + size as usize;
        } else {
            return Err(err_invalid("invalid data segment flags", p));
        }
        i = i + 1;
    }
    Ok(p)
}

/// Decode the name custom section: the module name and the function names.
fn parse_name_section(
    data: &[u8],
    pos: usize,
    end_limit: usize,
    environ: &mut ModuleEnvironment,
) -> (r: WasmResult<usize>)
    requires
        old(environ).wf(),
        pos <= end_limit,
        end_limit <= data@.len(),
    ensures
        final(environ).wf(),
        final(environ).result.tunables == old(environ).result.tunables,
        plans_ok(*old(environ)) ==> plans_ok(*final(environ)),
        fn_boundary(*old(environ)) ==> fn_boundary(*final(environ)),
        table_boundary(*old(environ)) ==> table_boundary(*final(environ)),
        memory_boundary(*old(environ)) ==> memory_boundary(*final(environ)),
        global_boundary(*old(environ)) ==> global_boundary(*final(environ)),
        no_start(*old(environ)) ==> no_start(*final(environ)),
        no_passive_elems(*old(environ)) ==> no_passive_elems(*final(environ)),
        no_passive_data(*old(environ)) ==> no_passive_data(*final(environ)),
        match r {
            Ok(end) => end <= data@.len(),
            Err(e) => true,
        },
{
    let mut p = pos;
    while p < end_limit
        invariant
            environ.wf(),
            environ.result.tunables == old(environ).result.tunables,
            plans_ok(*old(environ)) ==> plans_ok(*environ),
            p <= end_limit,
            end_limit <= data@.len(),
            fn_boundary(*old(environ)) ==> fn_boundary(*environ),
            table_boundary(*old(environ)) ==> table_boundary(*environ),
            memory_boundary(*old(environ)) ==> memory_boundary(*environ),
            global_boundary(*old(environ)) ==> global_boundary(*environ),
            no_start(*old(environ)) ==> no_start(*environ),
            no_passive_elems(*old(environ)) ==> no_passive_elems(*environ),
            no_passive_data(*old(environ)) ==> no_passive_data(*environ),
        decreases end_limit - p,
    {
        let (id, p2) = match read_byte(data, p) {
            Ok(v) => v,
            Err(e) => {
                return Err(e);
            },
        };
        let (size, p3) = match read_var_u32(data, p2) {
            Ok(v) => v,
            Err(e) => {
                return Err(e);
            },
        };
        if p3 > end_limit || size as usize > end_limit - p3 {
            return Err(err_invalid("name subsection extends past the section", p));
        }
        let sub_end = p3 + size as usize;
        if id == 0 {
            let (name, _) = match read_name(data, p3) {
                Ok(v) => v,
                Err(e) => {
                    return Err(e);
                },
            };
            match environ.declare_module_name(name) {
                Ok(()) => (),
                Err(_) => unreached(),
            }
        } else if id == 1 {
            let (count, mut q) = match read_var_u32(data, p3) {
                Ok(v) => v,
                Err(e) => {
                    return Err(e);
                },
            };
            let mut j: u32 = 0;
            while j < count
                invariant
                    environ.wf(),
                    environ.result.tunables == old(environ).result.tunables,
                    plans_ok(*old(environ)) ==> plans_ok(*environ),
                    q <= data@.len(),
                    fn_boundary(*old(environ)) ==> fn_boundary(*environ),
                    table_boundary(*old(environ)) ==> table_boundary(*environ),
                    memory_boundary(*old(environ)) ==> memory_boundary(*environ),
                    global_boundary(*old(environ)) ==> global_boundary(*environ),
                    no_start(*old(environ)) ==> no_start(*environ),
                    no_passive_elems(*old(environ)) ==> no_passive_elems(*environ),
                    no_passive_data(*old(environ)) ==> no_passive_data(*environ),
                decreases count - j,
            {
                let (idx, q2) = match read_var_u32(data, q) {
                    Ok(v) => v,
                    Err(e) => {
                        return Err(e);
                    },
                };
                let (name, q3) = match read_name(data, q2) {
                    Ok(v) => v,
                    Err(e) => {
                        return Err(e);
                    },
                };
                match environ.declare_func_name(crate::indexes::FuncIndex::from_u32(idx), name) {
                    Ok(()) => (),
                    Err(_) => unreached(),
                }
                q = q3;
                j = j + 1;
            }
        }
        p = sub_end;
    }
    Ok(p)
}

/// A well-formed module header: the `\0asm` magic and version one.
pub open spec fn spec_header_ok(s: Seq<u8>) -> bool {
    &&& s.len() >= 8
    &&& s[0] == 0x00u8
    &&& s[1] == 0x61u8
    &&& s[2] == 0x73u8
    &&& s[3] == 0x6du8
    &&& s[4] == 0x01u8
    &&& s[5] == 0x00u8
    &&& s[6] == 0x00u8
    &&& s[7] == 0x00u8
}

/// The position a non-custom section id takes in the required section order,
/// or zero for an id that is no known section.
pub open spec fn spec_section_rank(id: u8) -> u32 {
    if 1 <= id <= 9 {
        id as u32
    } else if id == 12 {
        10
    } else if id == 10 {
        11
    } else if id == 11 {
        12
    } else {
        0
    }
}

/// The rank of a section id in the required order.
fn section_rank(id: u8) -> (r: u32)
    ensures
        r == spec_section_rank(id),
{
    if 1 <= id && id <= 9 {
        id as u32
    } else if id == 12 {
        10
    } else if id == 10 {
        11
    } else if id == 11 {
        12
    } else {
        0
    }
}

/// Stream-decode a whole WebAssembly binary, driving the environment section
/// by section. The environment must be freshly created.
pub fn translate_module(data: &[u8], environ: &mut ModuleEnvironment) -> (r: WasmResult<
    ModuleTranslationState,
>)
    requires
        old(environ).wf(),
        old(environ).result.module.local.signatures@.len() == 0,
        old(environ).result.module.local.functions@.len() == 0,
        old(environ).result.module.local.table_plans@.len() == 0,
        old(environ).result.module.local.memory_plans@.len() == 0,
        old(environ).result.module.local.globals@.len() == 0,
        old(environ).result.module.local.num_imported_funcs == 0,
        old(environ).result.module.local.num_imported_tables == 0,
        old(environ).result.module.local.num_imported_memories == 0,
        old(environ).result.module.local.num_imported_globals == 0,
        old(environ).result.module.start_func is None,
        old(environ).result.module.passive_elements@.len() == 0,
        old(environ).result.module.passive_data@.len() == 0,
    ensures
        final(environ).wf(),
        final(environ).result.tunables == old(environ).result.tunables,
        plans_ok(*final(environ)),
        !spec_header_ok(data@) ==> r is Err,
        data@.len() == 8 && spec_header_ok(data@) ==> r is Ok,
{
    if data.len() < 8 {
        return Err(err_invalid("input too short for a module header", 0));
    }
    if !(data[0] == 0x00 && data[1] == 0x61 && data[2] == 0x73 && data[3] == 0x6d) {
        return Err(err_invalid("bad magic number", 0));
    }
    if !(data[4] == 0x01 && data[5] == 0x00 && data[6] == 0x00 && data[7] == 0x00) {
        return Err(err_invalid("unsupported module version", 4));
    }
    let mut pos: usize = 8;
    let mut max_rank: u32 = 0;
    let mut num_translated: u32 = 0;
    while pos < data.len()
        invariant
            environ.wf(),
            environ.result.tunables == old(environ).result.tunables,
            plans_ok(*old(environ)),
            plans_ok(*environ),
            8 <= pos <= data@.len(),
            max_rank < 3 ==> fn_boundary(*environ),
            max_rank < 4 ==> table_boundary(*environ),
            max_rank < 5 ==> memory_boundary(*environ),
            max_rank < 6 ==> global_boundary(*environ),
            max_rank < 8 ==> no_start(*environ),
            max_rank < 9 ==> no_passive_elems(*environ),
            max_rank < 12 ==> no_passive_data(*environ),
        decreases data@.len() - pos,
    {
        let (id, p1) = match read_byte(data, pos) {
            Ok(v) => v,
            Err(e) => {
                return Err(e);
            },
        };
        let (size, p2) = match read_var_u32(data, p1) {
            Ok(v) => v,
            Err(e) => {
                return Err(e);
            },
        };
        if size as usize > data.len() - p2 {
            return Err(err_invalid("section extends past end of input", pos));
        }
        let payload_end = p2 + size as usize;
        if id == 0 {
            let (name, name_end) = match read_name(data, p2) {
                Ok(v) => v,
                Err(e) => {
                    return Err(e);
                },
            };
            if name_end > payload_end {
                return Err(err_invalid("custom section name extends past the section", pos));
            }
            if name == "name" {
                match parse_name_section(data, name_end, payload_end, environ) {
                    Ok(_) => (),
                    Err(e) => {
                        return Err(e);
                    },
                }
            } else {
                let payload = slice_subrange(data, name_end, payload_end);
                match environ.custom_section(name, payload) {
                    Ok(()) => (),
                    Err(_) => unreached(),
                }
            }
            pos = payload_end;
        } else {
            let rank = section_rank(id);
            if rank == 0 {
                return Err(err_invalid("invalid section id", pos));
            }
            if rank <= max_rank {
                return Err(err_invalid("section out of order", pos));
            }
            let section_end: usize = if id == 1 {
                match parse_type_section(data, p2, environ) {
                    Ok(end) => end,
                    Err(e) => {
                        return Err(e);
                    },
                }
            } else if id == 2 {
                match parse_import_section(data, p2, environ) {
                    Ok(end) => end,
                    Err(e) => {
                        return Err(e);
                    },
                }
            } else if id == 3 {
                match parse_function_section(data, p2, environ) {
                    Ok(end) => end,
                    Err(e) => {
                        return Err(e);
                    },
                }
            } else if id == 4 {
                match parse_table_section(data, p2, environ) {
                    Ok(end) => end,
                    Err(e) => {
                        return Err(e);
                    },
                }
            } else if id == 5 {
                match parse_memory_section(data, p2, environ) {
                    Ok(end) => end,
                    Err(e) => {
                        return Err(e);
                    },
                }
            } else if id == 6 {
                match parse_global_section(data, p2, environ) {
                    Ok(end) => end,
                    Err(e) => {
                        return Err(e);
                    },
                }
            } else if id == 7 {
                match parse_export_section(data, p2, environ) {
                    Ok(end) => end,
                    Err(e) => {
                        return Err(e);
                    },
                }
            } else if id == 8 {
                match parse_start_section(data, p2, environ) {
                    Ok(end) => end,
                    Err(e) => {
                        return Err(e);
                    },
                }
            } else if id == 9 {
                match parse_element_section(data, p2, environ) {
                    Ok(end) => end,
                    Err(e) => {
                        return Err(e);
                    },
                }
            } else if id == 12 {
                let (count, dc_end) = match read_var_u32(data, p2) {
                    Ok(v) => v,
                    Err(e) => {
                        return Err(e);
                    },
                };
                match environ.reserve_passive_data(count) {
                    Ok(()) => (),
                    Err(_) => unreached(),
                }
                dc_end
            } else if id == 10 {
                match parse_code_section(data, p2, environ) {
                    Ok((end, count)) => {
                        num_translated = count;
                        end
                    },
                    Err(e) => {
                        return Err(e);
                    },
                }
            } else {
                match parse_data_section(data, p2, environ) {
                    Ok(end) => end,
                    Err(e) => {
                        return Err(e);
                    },
                }
            };
            if section_end != payload_end {
                return Err(err_invalid("section size mismatch", pos));
            }
            max_rank = rank;
            pos = payload_end;
        }
    }
    Ok(ModuleTranslationState { num_translated_functions: num_translated })
}

} // verus!
