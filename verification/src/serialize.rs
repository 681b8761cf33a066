//! A compact byte form for compiled code: the `Compilation` travels as a
//! little-endian, length-prefixed byte sequence, so an engine can save a
//! module's compiled functions and instantiate them again without
//! recompiling.
//!
//! Every record encoder appends exactly its specified encoding, every record
//! decoder accepts exactly a window holding such an encoding, and the
//! fixed-size record encodings are proved injective: two records with the
//! same encoding are the same record.

use vstd::prelude::*;
use crate::errors::{DeserializeError, SerializeError, TrapCode};
use crate::function::{CompiledFunction, Compilation, TrapInformation};
use crate::relocation::{LibCall, Relocation, RelocationKind, RelocationTarget};
use crate::sourceloc::SourceLoc;
use crate::unwind::{CompiledFunctionUnwindInfo, FDERelocEntry};
use crate::indexes::{FuncIndex, JumpTable};

verus! {

/// The four little-endian bytes of a 32-bit integer.
pub open spec fn spec_u32_le(v: u32) -> Seq<u8> {
    seq![
        (v % 256) as u8,
        ((v / 256) % 256) as u8,
        ((v / 0x1_0000) % 256) as u8,
        ((v / 0x100_0000) % 256) as u8,
    ]
}

/// The eight little-endian bytes of a 64-bit integer.
pub open spec fn spec_u64_le(v: u64) -> Seq<u8> {
    seq![
        (v % 256) as u8,
        ((v / 256) % 256) as u8,
        ((v / 0x1_0000) % 256) as u8,
        ((v / 0x100_0000) % 256) as u8,
        ((v / 0x1_0000_0000) % 256) as u8,
        ((v / 0x100_0000_0000) % 256) as u8,
        ((v / 0x1_0000_0000_0000) % 256) as u8,
        ((v / 0x100_0000_0000_0000) % 256) as u8,
    ]
}

/// Two 32-bit integers with the same encoding are the same integer.
pub proof fn lemma_u32_le_injective(a: u32, b: u32)
    requires
        spec_u32_le(a) == spec_u32_le(b),
    ensures
        a == b,
{
    assert(spec_u32_le(a)[0] == spec_u32_le(b)[0]);
    assert(spec_u32_le(a)[1] == spec_u32_le(b)[1]);
    assert(spec_u32_le(a)[2] == spec_u32_le(b)[2]);
    assert(spec_u32_le(a)[3] == spec_u32_le(b)[3]);
    assert(a == ((a % 256) + 256 * ((a / 256) % 256) + 0x1_0000 * ((a / 0x1_0000) % 256)
        + 0x100_0000 * ((a / 0x100_0000) % 256))) by (bit_vector);
    assert(b == ((b % 256) + 256 * ((b / 256) % 256) + 0x1_0000 * ((b / 0x1_0000) % 256)
        + 0x100_0000 * ((b / 0x100_0000) % 256))) by (bit_vector);
}

/// Two 64-bit integers with the same encoding are the same integer.
pub proof fn lemma_u64_le_injective(a: u64, b: u64)
    requires
        spec_u64_le(a) == spec_u64_le(b),
    ensures
        a == b,
{
    assert(spec_u64_le(a)[0] == spec_u64_le(b)[0]);
    assert(spec_u64_le(a)[1] == spec_u64_le(b)[1]);
    assert(spec_u64_le(a)[2] == spec_u64_le(b)[2]);
    assert(spec_u64_le(a)[3] == spec_u64_le(b)[3]);
    assert(spec_u64_le(a)[4] == spec_u64_le(b)[4]);
    assert(spec_u64_le(a)[5] == spec_u64_le(b)[5]);
    assert(spec_u64_le(a)[6] == spec_u64_le(b)[6]);
    assert(spec_u64_le(a)[7] == spec_u64_le(b)[7]);
    assert(a == ((a % 256) + 256 * ((a / 256) % 256) + 0x1_0000 * ((a / 0x1_0000) % 256)
        + 0x100_0000 * ((a / 0x100_0000) % 256) + 0x1_0000_0000 * ((a / 0x1_0000_0000) % 256)
        + 0x100_0000_0000 * ((a / 0x100_0000_0000) % 256) + 0x1_0000_0000_0000 * ((a
        / 0x1_0000_0000_0000) % 256) + 0x100_0000_0000_0000 * ((a / 0x100_0000_0000_0000)
        % 256))) by (bit_vector);
    assert(b == ((b % 256) + 256 * ((b / 256) % 256) + 0x1_0000 * ((b / 0x1_0000) % 256)
        + 0x100_0000 * ((b / 0x100_0000) % 256) + 0x1_0000_0000 * ((b / 0x1_0000_0000) % 256)
        + 0x100_0000_0000 * ((b / 0x100_0000_0000) % 256) + 0x1_0000_0000_0000 * ((b
        / 0x1_0000_0000_0000) % 256) + 0x100_0000_0000_0000 * ((b / 0x100_0000_0000_0000)
        % 256))) by (bit_vector);
}

/// Append the little-endian bytes of a 32-bit integer.
fn write_u32(out: &mut Vec<u8>, v: u32)
    ensures
        final(out)@ == old(out)@ + spec_u32_le(v),
{
    out.push((v % 256) as u8);
    out.push(((v / 256) % 256) as u8);
    out.push(((v / 0x1_0000) % 256) as u8);
    out.push(((v / 0x100_0000) % 256) as u8);
    proof {
        assert(out@ =~= old(out)@ + spec_u32_le(v));
    }
}

/// Append the little-endian bytes of a 64-bit integer.
fn write_u64(out: &mut Vec<u8>, v: u64)
    ensures
        final(out)@ == old(out)@ + spec_u64_le(v),
{
    out.push((v % 256) as u8);
    out.push(((v / 256) % 256) as u8);
    out.push(((v / 0x1_0000) % 256) as u8);
    out.push(((v / 0x100_0000) % 256) as u8);
    out.push(((v / 0x1_0000_0000) % 256) as u8);
    out.push(((v / 0x100_0000_0000) % 256) as u8);
    out.push(((v / 0x1_0000_0000_0000) % 256) as u8);
    out.push(((v / 0x100_0000_0000_0000) % 256) as u8);
    proof {
        assert(out@ =~= old(out)@ + spec_u64_le(v));
    }
}

/// Read the little-endian bytes of a 32-bit integer: the window read is
/// exactly the returned value's encoding.
fn read_u32(s: &[u8], pos: usize) -> (r: Option<(u32, usize)>)
    ensures
        match r {
            Some(p) => p.1 == pos + 4 && pos + 4 <= s@.len() && spec_u32_le(p.0) == s@.subrange(
                pos as int,
                pos + 4,
            ),
            None => pos + 4 > s@.len(),
        },
{
    if s.len() < 4 || pos > s.len() - 4 {
        return None;
    }
    let b0 = s[pos] as u32;
    let b1 = s[pos + 1] as u32;
    let b2 = s[pos + 2] as u32;
    let b3 = s[pos + 3] as u32;
    let v = b0 + 256 * b1 + 0x1_0000 * b2 + 0x100_0000 * b3;
    proof {
        let b0g = s@[pos as int] as u32;
        let b1g = s@[pos + 1] as u32;
        let b2g = s@[pos + 2] as u32;
        let b3g = s@[pos + 3] as u32;
        assert(b0g < 256 && b1g < 256 && b2g < 256 && b3g < 256);
        let vg = (b0g + 256 * b1g + 0x1_0000 * b2g + 0x100_0000 * b3g) as u32;
        assert(vg % 256 == b0g && (vg / 256) % 256 == b1g && (vg / 0x1_0000) % 256 == b2g && (vg
            / 0x100_0000) % 256 == b3g) by (bit_vector)
            requires
                b0g < 256 && b1g < 256 && b2g < 256 && b3g < 256 && vg == (b0g + 256 * b1g
                    + 0x1_0000 * b2g + 0x100_0000 * b3g) as u32,
        ;
        assert(spec_u32_le(v) =~= s@.subrange(pos as int, pos + 4));
    }
    Some((v, pos + 4))
}

/// Read the little-endian bytes of a 64-bit integer.
fn read_u64(s: &[u8], pos: usize) -> (r: Option<(u64, usize)>)
    ensures
        match r {
            Some(p) => p.1 == pos + 8 && pos + 8 <= s@.len() && spec_u64_le(p.0) == s@.subrange(
                pos as int,
                pos + 8,
            ),
            None => pos + 8 > s@.len(),
        },
{
    if s.len() < 8 || pos > s.len() - 8 {
        return None;
    }
    let b0 = s[pos] as u64;
    let b1 = s[pos + 1] as u64;
    let b2 = s[pos + 2] as u64;
    let b3 = s[pos + 3] as u64;
    let b4 = s[pos + 4] as u64;
    let b5 = s[pos + 5] as u64;
    let b6 = s[pos + 6] as u64;
    let b7 = s[pos + 7] as u64;
    let v = b0 + 256 * b1 + 0x1_0000 * b2 + 0x100_0000 * b3 + 0x1_0000_0000 * b4
        + 0x100_0000_0000 * b5 + 0x1_0000_0000_0000 * b6 + 0x100_0000_0000_0000 * b7;
    proof {
        let b0g = s@[pos as int] as u64;
        let b1g = s@[pos + 1] as u64;
        let b2g = s@[pos + 2] as u64;
        let b3g = s@[pos + 3] as u64;
        let b4g = s@[pos + 4] as u64;
        let b5g = s@[pos + 5] as u64;
        let b6g = s@[pos + 6] as u64;
        let b7g = s@[pos + 7] as u64;
        let vg = (b0g + 256 * b1g + 0x1_0000 * b2g + 0x100_0000 * b3g + 0x1_0000_0000 * b4g
            + 0x100_0000_0000 * b5g + 0x1_0000_0000_0000 * b6g + 0x100_0000_0000_0000 * b7g) as u64;
        assert(vg % 256 == b0g && (vg / 256) % 256 == b1g && (vg / 0x1_0000) % 256 == b2g && (vg
            / 0x100_0000) % 256 == b3g && (vg / 0x1_0000_0000) % 256 == b4g && (vg
            / 0x100_0000_0000) % 256 == b5g && (vg / 0x1_0000_0000_0000) % 256 == b6g && (vg
            / 0x100_0000_0000_0000) % 256 == b7g) by (bit_vector)
            requires
                b0g < 256 && b1g < 256 && b2g < 256 && b3g < 256 && b4g < 256 && b5g < 256 && b6g
                    < 256 && b7g < 256 && vg == (b0g + 256 * b1g + 0x1_0000 * b2g + 0x100_0000
                    * b3g + 0x1_0000_0000 * b4g + 0x100_0000_0000 * b5g + 0x1_0000_0000_0000 * b6g
                    + 0x100_0000_0000_0000 * b7g) as u64,
        ;
        assert(spec_u64_le(v) =~= s@.subrange(pos as int, pos + 8));
    }
    Some((v, pos + 8))
}

/// The tag byte of a trap code.
pub open spec fn spec_trap_tag(t: TrapCode) -> u8 {
    match t {
        TrapCode::StackOverflow => 0,
        TrapCode::HeapAccessOutOfBounds => 1,
        TrapCode::TableAccessOutOfBounds => 2,
        TrapCode::OutOfBounds => 3,
        TrapCode::IndirectCallToNull => 4,
        TrapCode::BadSignature => 5,
        TrapCode::IntegerOverflow => 6,
        TrapCode::IntegerDivisionByZero => 7,
        TrapCode::BadConversionToInteger => 8,
        TrapCode::UnreachableCodeReached => 9,
        TrapCode::Interrupt => 10,
    }
}

/// The tag byte of a trap code.
fn trap_tag(t: TrapCode) -> (r: u8)
    ensures
        r == spec_trap_tag(t),
{
    match t {
        TrapCode::StackOverflow => 0,
        TrapCode::HeapAccessOutOfBounds => 1,
        TrapCode::TableAccessOutOfBounds => 2,
        TrapCode::OutOfBounds => 3,
        TrapCode::IndirectCallToNull => 4,
        TrapCode::BadSignature => 5,
        TrapCode::IntegerOverflow => 6,
        TrapCode::IntegerDivisionByZero => 7,
        TrapCode::BadConversionToInteger => 8,
        TrapCode::UnreachableCodeReached => 9,
        TrapCode::Interrupt => 10,
    }
}

/// The trap code a tag byte stands for.
pub open spec fn spec_trap_of_tag(b: u8) -> Option<TrapCode> {
    if b == 0 {
        Some(TrapCode::StackOverflow)
    } else if b == 1 {
        Some(TrapCode::HeapAccessOutOfBounds)
    } else if b == 2 {
        Some(TrapCode::TableAccessOutOfBounds)
    } else if b == 3 {
        Some(TrapCode::OutOfBounds)
    } else if b == 4 {
        Some(TrapCode::IndirectCallToNull)
    } else if b == 5 {
        Some(TrapCode::BadSignature)
    } else if b == 6 {
        Some(TrapCode::IntegerOverflow)
    } else if b == 7 {
        Some(TrapCode::IntegerDivisionByZero)
    } else if b == 8 {
        Some(TrapCode::BadConversionToInteger)
    } else if b == 9 {
        Some(TrapCode::UnreachableCodeReached)
    } else if b == 10 {
        Some(TrapCode::Interrupt)
    } else {
        None
    }
}

/// The trap code a tag byte stands for.
fn trap_of_tag(b: u8) -> (r: Option<TrapCode>)
    ensures
        r == spec_trap_of_tag(b),
{
    if b == 0 {
        Some(TrapCode::StackOverflow)
    } else if b == 1 {
        Some(TrapCode::HeapAccessOutOfBounds)
    } else if b == 2 {
        Some(TrapCode::TableAccessOutOfBounds)
    } else if b == 3 {
        Some(TrapCode::OutOfBounds)
    } else if b == 4 {
        Some(TrapCode::IndirectCallToNull)
    } else if b == 5 {
        Some(TrapCode::BadSignature)
    } else if b == 6 {
        Some(TrapCode::IntegerOverflow)
    } else if b == 7 {
        Some(TrapCode::IntegerDivisionByZero)
    } else if b == 8 {
        Some(TrapCode::BadConversionToInteger)
    } else if b == 9 {
        Some(TrapCode::UnreachableCodeReached)
    } else if b == 10 {
        Some(TrapCode::Interrupt)
    } else {
        None
    }
}

/// Tagging a trap code and reading the tag back yields the code again.
pub proof fn lemma_trap_tag_roundtrip(t: TrapCode)
    ensures
        spec_trap_of_tag(spec_trap_tag(t)) == Some(t),
{
}

/// The nine-byte encoding of one trap record: the code offset, the source
/// location bits, and the trap code's tag.
pub open spec fn spec_trap_record_enc(t: TrapInformation) -> Seq<u8> {
    spec_u32_le(t.code_offset) + spec_u32_le(t.srcloc.spec_bits()) + seq![spec_trap_tag(
        t.trap_code,
    )]
}

/// Two trap records with the same encoding are the same record.
pub proof fn lemma_trap_record_enc_injective(a: TrapInformation, b: TrapInformation)
    requires
        spec_trap_record_enc(a) == spec_trap_record_enc(b),
    ensures
        a.code_offset == b.code_offset,
        a.srcloc.spec_bits() == b.srcloc.spec_bits(),
        a.trap_code == b.trap_code,
{
    assert(spec_u32_le(a.code_offset) =~= spec_trap_record_enc(a).subrange(0, 4));
    assert(spec_u32_le(b.code_offset) =~= spec_trap_record_enc(b).subrange(0, 4));
    lemma_u32_le_injective(a.code_offset, b.code_offset);
    assert(spec_u32_le(a.srcloc.spec_bits()) =~= spec_trap_record_enc(a).subrange(4, 8));
    assert(spec_u32_le(b.srcloc.spec_bits()) =~= spec_trap_record_enc(b).subrange(4, 8));
    lemma_u32_le_injective(a.srcloc.spec_bits(), b.srcloc.spec_bits());
    assert(spec_trap_record_enc(a)[8] == spec_trap_tag(a.trap_code));
    assert(spec_trap_record_enc(b)[8] == spec_trap_tag(b.trap_code));
    lemma_trap_tag_roundtrip(a.trap_code);
    lemma_trap_tag_roundtrip(b.trap_code);
}

/// Append the encoding of one trap record.
fn write_trap_record(out: &mut Vec<u8>, t: &TrapInformation)
    ensures
        final(out)@ == old(out)@ + spec_trap_record_enc(*t),
{
    write_u32(out, t.code_offset);
    write_u32(out, t.srcloc.bits());
    out.push(trap_tag(t.trap_code));
    proof {
        assert(out@ =~= old(out)@ + spec_trap_record_enc(*t));
    }
}

/// Read one trap record: the window read is exactly the returned record's
/// encoding.
fn read_trap_record(s: &[u8], pos: usize) -> (r: Option<(TrapInformation, usize)>)
    ensures
        match r {
            Some(p) => p.1 == pos + 9 && pos + 9 <= s@.len() && spec_trap_record_enc(p.0)
                == s@.subrange(pos as int, pos + 9),
            None => true,
        },
{
    let (code_offset, p1) = match read_u32(s, pos) {
        Some(v) => v,
        None => {
            return None;
        },
    };
    let (bits, p2) = match read_u32(s, p1) {
        Some(v) => v,
        None => {
            return None;
        },
    };
    if p2 >= s.len() {
        return None;
    }
    let trap_code = match trap_of_tag(s[p2]) {
        Some(t) => t,
        None => {
            return None;
        },
    };
    let t = TrapInformation { code_offset, srcloc: SourceLoc::new(bits), trap_code };
    proof {
        lemma_trap_tag_roundtrip(trap_code);
        assert(spec_trap_record_enc(t) =~= s@.subrange(pos as int, pos + 9));
    }
    Some((t, pos + 9))
}

/// Append a length-prefixed byte sequence.
fn write_bytes(out: &mut Vec<u8>, bytes: &Vec<u8>)
    requires
        bytes@.len() <= u32::MAX,
    ensures
        final(out)@ == old(out)@ + spec_u32_le(bytes@.len() as u32) + bytes@,
{
    write_u32(out, bytes.len() as u32);
    let mut i: usize = 0;
    let ghost mid = out@;
    while i < bytes.len()
        invariant
            i <= bytes@.len(),
            out@ == mid + bytes@.subrange(0, i as int),
        decreases bytes@.len() - i,
    {
        out.push(bytes[i]);
        proof {
            assert(out@ =~= mid + bytes@.subrange(0, i + 1));
        }
        i = i + 1;
    }
    proof {
        assert(bytes@.subrange(0, bytes@.len() as int) =~= bytes@);
    }
}

/// Read a length-prefixed byte sequence.
fn read_bytes(s: &[u8], pos: usize) -> (r: Option<(Vec<u8>, usize)>)
    ensures
        match r {
            Some(p) => {
                &&& p.0@.len() <= u32::MAX
                &&& p.1 == pos + 4 + p.0@.len()
                &&& p.1 <= s@.len()
                &&& spec_u32_le(p.0@.len() as u32) + p.0@ == s@.subrange(pos as int, p.1 as int)
            },
            None => true,
        },
{
    let (len, p1) = match read_u32(s, pos) {
        Some(v) => v,
        None => {
            return None;
        },
    };
    if (len as usize) > s.len() - p1 {
        return None;
    }
    let bytes = vstd::slice::slice_to_vec(
        vstd::slice::slice_subrange(s, p1, p1 + len as usize),
    );
    proof {
        assert(spec_u32_le(bytes@.len() as u32) + bytes@ =~= s@.subrange(
            pos as int,
            pos + 4 + bytes@.len(),
        ));
    }
    Some((bytes, p1 + len as usize))
}

/// The tag byte of a relocation kind.
pub open spec fn spec_reloc_kind_tag(k: RelocationKind) -> u8 {
    match k {
        RelocationKind::Abs4 => 0,
        RelocationKind::Abs8 => 1,
        RelocationKind::X86PCRel4 => 2,
        RelocationKind::X86PCRelRodata4 => 3,
        RelocationKind::X86CallPCRel4 => 4,
    }
}

/// The tag byte of a libcall.
pub open spec fn spec_libcall_tag(l: LibCall) -> u8 {
    match l {
        LibCall::CeilF32 => 0,
        LibCall::CeilF64 => 1,
        LibCall::FloorF32 => 2,
        LibCall::FloorF64 => 3,
        LibCall::NearestF32 => 4,
        LibCall::NearestF64 => 5,
        LibCall::TruncF32 => 6,
        LibCall::TruncF64 => 7,
        LibCall::Probestack => 8,
    }
}

/// The variant tag of a relocation target.
pub open spec fn spec_target_tag(t: RelocationTarget) -> u8 {
    match t {
        RelocationTarget::UserFunc(_) => 0,
        RelocationTarget::LibCall(_) => 1,
        RelocationTarget::JumpTable(_, _) => 2,
    }
}

/// The first payload slot of a relocation target.
pub open spec fn spec_target_payload_a(t: RelocationTarget) -> u32 {
    match t {
        RelocationTarget::UserFunc(f) => f.0,
        RelocationTarget::LibCall(l) => spec_libcall_tag(l) as u32,
        RelocationTarget::JumpTable(f, _) => f.0,
    }
}

/// The second payload slot of a relocation target.
pub open spec fn spec_target_payload_b(t: RelocationTarget) -> u32 {
    match t {
        RelocationTarget::UserFunc(_) => 0,
        RelocationTarget::LibCall(_) => 0,
        RelocationTarget::JumpTable(_, jt) => jt.0,
    }
}

/// The nine-byte encoding of a relocation target: a variant tag and two
/// 32-bit payload slots.
pub open spec fn spec_reloc_target_enc(t: RelocationTarget) -> Seq<u8> {
    seq![spec_target_tag(t)] + spec_u32_le(spec_target_payload_a(t)) + spec_u32_le(
        spec_target_payload_b(t),
    )
}

/// The 22-byte encoding of one relocation record.
pub open spec fn spec_reloc_enc(r: Relocation) -> Seq<u8> {
    seq![spec_reloc_kind_tag(r.kind)] + spec_reloc_target_enc(r.reloc_target) + spec_u32_le(
        r.offset,
    ) + spec_u64_le(r.addend as u64)
}

/// Two relocation targets with the same encoding are the same target.
pub proof fn lemma_reloc_target_enc_injective(ta: RelocationTarget, tb: RelocationTarget)
    requires
        spec_reloc_target_enc(ta) == spec_reloc_target_enc(tb),
    ensures
        ta == tb,
{
    let ea = spec_reloc_target_enc(ta);
    let eb = spec_reloc_target_enc(tb);
    assert(seq![spec_target_tag(ta)].len() == 1);
    assert(seq![spec_target_tag(tb)].len() == 1);
    assert(ea[0] == spec_target_tag(ta));
    assert(eb[0] == spec_target_tag(tb));
    assert(spec_target_tag(ta) == spec_target_tag(tb));
    assert(spec_u32_le(spec_target_payload_a(ta)) =~= spec_reloc_target_enc(ta).subrange(1, 5));
    assert(spec_u32_le(spec_target_payload_a(tb)) =~= spec_reloc_target_enc(tb).subrange(1, 5));
    lemma_u32_le_injective(spec_target_payload_a(ta), spec_target_payload_a(tb));
    assert(spec_u32_le(spec_target_payload_b(ta)) =~= spec_reloc_target_enc(ta).subrange(5, 9));
    assert(spec_u32_le(spec_target_payload_b(tb)) =~= spec_reloc_target_enc(tb).subrange(5, 9));
    lemma_u32_le_injective(spec_target_payload_b(ta), spec_target_payload_b(tb));
}

/// Where each field of a relocation record lies in its encoding.
pub proof fn lemma_reloc_enc_fields(a: Relocation)
    ensures
        spec_reloc_enc(a).len() == 22,
        spec_reloc_enc(a)[0] == spec_reloc_kind_tag(a.kind),
        spec_reloc_target_enc(a.reloc_target) == spec_reloc_enc(a).subrange(1, 10),
        spec_u32_le(a.offset) == spec_reloc_enc(a).subrange(10, 14),
        spec_u64_le(a.addend as u64) == spec_reloc_enc(a).subrange(14, 22),
{
    assert(seq![spec_reloc_kind_tag(a.kind)].len() == 1);
    assert(spec_reloc_target_enc(a.reloc_target).len() == 9);
    assert(spec_reloc_target_enc(a.reloc_target) =~= spec_reloc_enc(a).subrange(1, 10));
    assert(spec_u32_le(a.offset) =~= spec_reloc_enc(a).subrange(10, 14));
    assert(spec_u64_le(a.addend as u64) =~= spec_reloc_enc(a).subrange(14, 22));
}

/// Two relocation records with the same encoding are the same record.
pub proof fn lemma_reloc_enc_injective(a: Relocation, b: Relocation)
    requires
        spec_reloc_enc(a) == spec_reloc_enc(b),
    ensures
        a == b,
{
    lemma_reloc_enc_fields(a);
    lemma_reloc_enc_fields(b);
    assert(a.kind == b.kind);
    lemma_reloc_target_enc_injective(a.reloc_target, b.reloc_target);
    lemma_u32_le_injective(a.offset, b.offset);
    lemma_u64_le_injective(a.addend as u64, b.addend as u64);
    let aa = a.addend;
    let bb = b.addend;
    assert(aa == bb) by (bit_vector)
        requires
            aa as u64 == bb as u64,
    ;
}

/// Append the encoding of one relocation target.
fn write_reloc_target(out: &mut Vec<u8>, t: &RelocationTarget)
    ensures
        final(out)@ == old(out)@ + spec_reloc_target_enc(*t),
{
    match *t {
        RelocationTarget::UserFunc(f) => {
            out.push(0);
            write_u32(out, f.0);
            write_u32(out, 0);
        },
        RelocationTarget::LibCall(l) => {
            out.push(1);
            let lt: u8 = match l {
                LibCall::CeilF32 => 0,
                LibCall::CeilF64 => 1,
                LibCall::FloorF32 => 2,
                LibCall::FloorF64 => 3,
                LibCall::NearestF32 => 4,
                LibCall::NearestF64 => 5,
                LibCall::TruncF32 => 6,
                LibCall::TruncF64 => 7,
                LibCall::Probestack => 8,
            };
            write_u32(out, lt as u32);
            write_u32(out, 0);
        },
        RelocationTarget::JumpTable(f, jt) => {
            out.push(2);
            write_u32(out, f.0);
            write_u32(out, jt.0);
        },
    }
    proof {
        assert(out@ =~= old(out)@ + spec_reloc_target_enc(*t));
    }
}

/// Append the encoding of one relocation record.
fn write_reloc(out: &mut Vec<u8>, r: &Relocation)
    ensures
        final(out)@ == old(out)@ + spec_reloc_enc(*r),
{
    let kind_tag: u8 = match r.kind {
        RelocationKind::Abs4 => 0,
        RelocationKind::Abs8 => 1,
        RelocationKind::X86PCRel4 => 2,
        RelocationKind::X86PCRelRodata4 => 3,
        RelocationKind::X86CallPCRel4 => 4,
    };
    out.push(kind_tag);
    write_reloc_target(out, &r.reloc_target);
    write_u32(out, r.offset);
    #[verifier::truncate]
    let addend_bits = r.addend as u64;
    write_u64(out, addend_bits);
    proof {
        assert(out@ =~= old(out)@ + spec_reloc_enc(*r));
    }
}

/// Read one relocation target: the window read is exactly the returned
/// target's encoding.
fn read_reloc_target(s: &[u8], pos: usize) -> (r: Option<(RelocationTarget, usize)>)
    ensures
        match r {
            Some(p) => p.1 == pos + 9 && pos + 9 <= s@.len() && spec_reloc_target_enc(p.0)
                == s@.subrange(pos as int, pos + 9),
            None => true,
        },
{
    if pos >= s.len() {
        return None;
    }
    let target_tag = s[pos];
    let (pa, p2) = match read_u32(s, pos + 1) {
        Some(v) => v,
        None => {
            return None;
        },
    };
    let (pb, p3) = match read_u32(s, p2) {
        Some(v) => v,
        None => {
            return None;
        },
    };
    let target = if target_tag == 0 {
        if pb != 0 {
            return None;
        }
        RelocationTarget::UserFunc(FuncIndex::from_u32(pa))
    } else if target_tag == 1 {
        if pb != 0 {
            return None;
        }
        let l = match pa {
            0 => LibCall::CeilF32,
            1 => LibCall::CeilF64,
            2 => LibCall::FloorF32,
            3 => LibCall::FloorF64,
            4 => LibCall::NearestF32,
            5 => LibCall::NearestF64,
            6 => LibCall::TruncF32,
            7 => LibCall::TruncF64,
            8 => LibCall::Probestack,
            _ => {
                return None;
            },
        };
        RelocationTarget::LibCall(l)
    } else if target_tag == 2 {
        RelocationTarget::JumpTable(FuncIndex::from_u32(pa), JumpTable::from_u32(pb))
    } else {
        return None;
    };
    proof {
        assert(spec_reloc_target_enc(target) =~= s@.subrange(pos as int, pos + 9));
    }
    Some((target, pos + 9))
}

/// Read one relocation record: the window read is exactly the returned
/// record's encoding.
#[verifier::rlimit(100)]
#[verifier::spinoff_prover]
fn read_reloc(s: &[u8], pos: usize) -> (r: Option<(Relocation, usize)>)
    ensures
        match r {
            Some(p) => p.1 == pos + 22 && pos + 22 <= s@.len() && spec_reloc_enc(p.0)
                == s@.subrange(pos as int, pos + 22),
            None => true,
        },
{
    if pos >= s.len() {
        return None;
    }
    let kind = match s[pos] {
        0 => RelocationKind::Abs4,
        1 => RelocationKind::Abs8,
        2 => RelocationKind::X86PCRel4,
        3 => RelocationKind::X86PCRelRodata4,
        4 => RelocationKind::X86CallPCRel4,
        _ => {
            return None;
        },
    };
    let (reloc_target, p3) = match read_reloc_target(s, pos + 1) {
        Some(v) => v,
        None => {
            return None;
        },
    };
    let (offset, p4) = match read_u32(s, p3) {
        Some(v) => v,
        None => {
            return None;
        },
    };
    let (addend_bits, p5) = match read_u64(s, p4) {
        Some(v) => v,
        None => {
            return None;
        },
    };
    #[verifier::truncate]
    let addend = addend_bits as i64;
    let out = Relocation { kind, reloc_target, offset, addend };
    proof {
        assert(addend as u64 == addend_bits) by (bit_vector)
            requires
                addend == addend_bits as i64,
        ;
        assert(spec_reloc_enc(out) =~= s@.subrange(pos as int, pos + 22));
    }
    Some((out, pos + 22))
}

/// The seventeen-byte encoding of one frame-description relocation entry.
pub open spec fn spec_fde_entry_enc(e: FDERelocEntry) -> Seq<u8> {
    spec_u64_le(e.0 as u64) + spec_u64_le(e.1 as u64) + seq![e.2]
}

/// The concatenated encodings of frame-description relocation entries.
#[verifier::opaque]
pub open spec fn spec_fde_entries_enc(rs: Seq<FDERelocEntry>) -> Seq<u8>
    decreases rs.len(),
{
    if rs.len() == 0 {
        Seq::empty()
    } else {
        spec_fde_entries_enc(rs.drop_last()) + spec_fde_entry_enc(rs.last())
    }
}

/// The encoding of a length-prefixed byte sequence.
pub open spec fn spec_bytes_enc(b: Seq<u8>) -> Seq<u8> {
    spec_u32_le(b.len() as u32) + b
}

/// The encoding of the unwind information: a variant tag, then for Windows
/// the bytes, and for a frame layout the bytes, the frame-description-entry
/// offset, and the relocation entries.
pub open spec fn spec_unwind_enc(u: CompiledFunctionUnwindInfo) -> Seq<u8> {
    match u {
        CompiledFunctionUnwindInfo::NoInfo => seq![0u8],
        CompiledFunctionUnwindInfo::Windows(d) => seq![1u8] + spec_bytes_enc(d@),
        CompiledFunctionUnwindInfo::FrameLayout(c, f, rs) => seq![2u8] + spec_bytes_enc(c@)
            + spec_u64_le(f as u64) + spec_u32_le(rs@.len() as u32) + spec_fde_entries_enc(rs@),
    }
}

/// Whether the unwind information's lists fit their 32-bit length fields.
pub open spec fn spec_unwind_fits(u: CompiledFunctionUnwindInfo) -> bool {
    match u {
        CompiledFunctionUnwindInfo::NoInfo => true,
        CompiledFunctionUnwindInfo::Windows(d) => d@.len() <= u32::MAX,
        CompiledFunctionUnwindInfo::FrameLayout(c, _, rs) => c@.len() <= u32::MAX && rs@.len()
            <= u32::MAX,
    }
}

/// The concatenated encodings of relocation records.
#[verifier::opaque]
pub open spec fn spec_relocs_enc(rs: Seq<Relocation>) -> Seq<u8>
    decreases rs.len(),
{
    if rs.len() == 0 {
        Seq::empty()
    } else {
        spec_relocs_enc(rs.drop_last()) + spec_reloc_enc(rs.last())
    }
}

/// The concatenated encodings of trap records.
#[verifier::opaque]
pub open spec fn spec_traps_enc(ts: Seq<TrapInformation>) -> Seq<u8>
    decreases ts.len(),
{
    if ts.len() == 0 {
        Seq::empty()
    } else {
        spec_traps_enc(ts.drop_last()) + spec_trap_record_enc(ts.last())
    }
}

/// The concatenated encodings of jump-table offsets.
#[verifier::opaque]
pub open spec fn spec_jts_enc(js: Seq<u32>) -> Seq<u8>
    decreases js.len(),
{
    if js.len() == 0 {
        Seq::empty()
    } else {
        spec_jts_enc(js.drop_last()) + spec_u32_le(js.last())
    }
}

/// The encoding of one compiled function: the body, then each metadata list
/// behind its count, then the unwind information.
pub open spec fn spec_function_enc(f: CompiledFunction) -> Seq<u8> {
    spec_bytes_enc(f.body@) + spec_u32_le(f.relocations@.len() as u32) + spec_relocs_enc(
        f.relocations@,
    ) + spec_u32_le(f.traps@.len() as u32) + spec_traps_enc(f.traps@) + spec_u32_le(
        f.jt_offsets@.len() as u32,
    ) + spec_jts_enc(f.jt_offsets@) + spec_unwind_enc(f.unwind_info)
}

/// Whether one compiled function's lists fit their 32-bit length fields.
pub open spec fn spec_function_fits(f: CompiledFunction) -> bool {
    &&& f.body@.len() <= u32::MAX
    &&& f.relocations@.len() <= u32::MAX
    &&& f.traps@.len() <= u32::MAX
    &&& f.jt_offsets@.len() <= u32::MAX
    &&& spec_unwind_fits(f.unwind_info)
}

/// The concatenated encodings of compiled functions.
#[verifier::opaque]
pub open spec fn spec_functions_enc(fs: Seq<CompiledFunction>) -> Seq<u8>
    decreases fs.len(),
{
    if fs.len() == 0 {
        Seq::empty()
    } else {
        spec_functions_enc(fs.drop_last()) + spec_function_enc(fs.last())
    }
}

/// The encoding of a whole compilation: the function count, then each
/// function's encoding.
pub open spec fn spec_compilation_enc(c: Compilation) -> Seq<u8> {
    spec_u32_le(c.spec_functions().len() as u32) + spec_functions_enc(c.spec_functions())
}

/// Whether a compilation fits the format's 32-bit length fields.
pub open spec fn spec_compilation_fits(c: Compilation) -> bool {
    &&& c.spec_functions().len() <= u32::MAX
    &&& forall|i: int|
        0 <= i < c.spec_functions().len() ==> spec_function_fits(#[trigger] c.spec_functions()[i])
}

/// Sequence concatenation associates.
proof fn lemma_add_assoc(a: Seq<u8>, b: Seq<u8>, c: Seq<u8>)
    ensures
        a + b + c == a + (b + c),
{
    assert(a + b + c =~= a + (b + c));
}

/// A window of a sequence splits at any midpoint.
proof fn lemma_subrange_split(s: Seq<u8>, a: int, b: int, c: int)
    requires
        0 <= a <= b <= c <= s.len(),
    ensures
        s.subrange(a, c) == s.subrange(a, b) + s.subrange(b, c),
{
    assert(s.subrange(a, c) =~= s.subrange(a, b) + s.subrange(b, c));
}

/// Appending one relocation extends the list encoding by its record.
proof fn lemma_relocs_enc_push(rs: Seq<Relocation>, r: Relocation)
    ensures
        spec_relocs_enc(rs.push(r)) == spec_relocs_enc(rs) + spec_reloc_enc(r),
{
    reveal_with_fuel(spec_relocs_enc, 2);
    assert(rs.push(r).drop_last() =~= rs);
    assert(rs.push(r).last() == r);
}

/// Appending one trap record extends the list encoding by its record.
proof fn lemma_traps_enc_push(ts: Seq<TrapInformation>, t: TrapInformation)
    ensures
        spec_traps_enc(ts.push(t)) == spec_traps_enc(ts) + spec_trap_record_enc(t),
{
    reveal_with_fuel(spec_traps_enc, 2);
    assert(ts.push(t).drop_last() =~= ts);
    assert(ts.push(t).last() == t);
}

/// Appending one offset extends the list encoding by its bytes.
proof fn lemma_jts_enc_push(js: Seq<u32>, v: u32)
    ensures
        spec_jts_enc(js.push(v)) == spec_jts_enc(js) + spec_u32_le(v),
{
    reveal_with_fuel(spec_jts_enc, 2);
    assert(js.push(v).drop_last() =~= js);
    assert(js.push(v).last() == v);
}

/// Appending one entry extends the list encoding by its record.
proof fn lemma_fde_entries_enc_push(rs: Seq<FDERelocEntry>, e: FDERelocEntry)
    ensures
        spec_fde_entries_enc(rs.push(e)) == spec_fde_entries_enc(rs) + spec_fde_entry_enc(e),
{
    reveal_with_fuel(spec_fde_entries_enc, 2);
    assert(rs.push(e).drop_last() =~= rs);
    assert(rs.push(e).last() == e);
}

/// Appending one function extends the list encoding by its bytes.
proof fn lemma_functions_enc_push(fs: Seq<CompiledFunction>, f: CompiledFunction)
    ensures
        spec_functions_enc(fs.push(f)) == spec_functions_enc(fs) + spec_function_enc(f),
{
    reveal_with_fuel(spec_functions_enc, 2);
    assert(fs.push(f).drop_last() =~= fs);
    assert(fs.push(f).last() == f);
}

/// The empty list encodes to nothing, for each list form.
proof fn lemma_encs_empty()
    ensures
        spec_relocs_enc(Seq::empty()) == Seq::<u8>::empty(),
        spec_traps_enc(Seq::empty()) == Seq::<u8>::empty(),
        spec_jts_enc(Seq::empty()) == Seq::<u8>::empty(),
        spec_fde_entries_enc(Seq::empty()) == Seq::<u8>::empty(),
        spec_functions_enc(Seq::empty()) == Seq::<u8>::empty(),
{
    reveal_with_fuel(spec_relocs_enc, 1);
    reveal_with_fuel(spec_traps_enc, 1);
    reveal_with_fuel(spec_jts_enc, 1);
    reveal_with_fuel(spec_fde_entries_enc, 1);
    reveal_with_fuel(spec_functions_enc, 1);
}

/// The full-range prefix of a list is the list itself, so a loop that has
/// encoded every prefix element has encoded the list.
proof fn lemma_subrange_full<T>(s: Seq<T>)
    ensures
        s.subrange(0, s.len() as int) == s,
{
    assert(s.subrange(0, s.len() as int) =~= s);
}

/// Consecutive windows holding the pieces of a frame layout's encoding
/// assemble to the whole encoding.
proof fn lemma_assemble_frame_layout(
    s: Seq<u8>,
    pos: int,
    p1: int,
    p2: int,
    p3: int,
    p: int,
    u: CompiledFunctionUnwindInfo,
)
    requires
        0 <= pos < p1 <= p2 <= p3 <= p <= s.len(),
        u is FrameLayout,
        s.subrange(pos, pos + 1) == seq![2u8],
        match u {
            CompiledFunctionUnwindInfo::FrameLayout(code, f, rs) => {
                &&& s.subrange(pos + 1, p1) == spec_bytes_enc(code@)
                &&& s.subrange(p1, p2) == spec_u64_le(f as u64)
                &&& s.subrange(p2, p3) == spec_u32_le(rs@.len() as u32)
                &&& s.subrange(p3, p) == spec_fde_entries_enc(rs@)
            },
            _ => false,
        },
    ensures
        s.subrange(pos, p) == spec_unwind_enc(u),
{
    match u {
        CompiledFunctionUnwindInfo::FrameLayout(code, f, rs) => {
            lemma_subrange_split(s, pos, pos + 1, p1);
            lemma_subrange_split(s, pos, p1, p2);
            lemma_subrange_split(s, pos, p2, p3);
            lemma_subrange_split(s, pos, p3, p);
            assert(s.subrange(pos, p1) == seq![2u8] + spec_bytes_enc(code@));
            assert(s.subrange(pos, p2) == seq![2u8] + spec_bytes_enc(code@) + spec_u64_le(
                f as u64,
            ));
            assert(s.subrange(pos, p3) == seq![2u8] + spec_bytes_enc(code@) + spec_u64_le(f as u64)
                + spec_u32_le(rs@.len() as u32));
        },
        _ => {},
    }
}

/// Consecutive windows holding the pieces of a compiled function's encoding
/// assemble to the whole encoding.
proof fn lemma_assemble_function(
    s: Seq<u8>,
    pos: int,
    p1: int,
    p2: int,
    relocs_end: int,
    p3: int,
    traps_end: int,
    p4: int,
    jts_end: int,
    p5: int,
    out: CompiledFunction,
)
    requires
        0 <= pos < p1 <= p2 <= relocs_end <= p3 <= traps_end <= p4 <= jts_end <= p5 <= s.len(),
        s.subrange(pos, p1) == spec_bytes_enc(out.body@),
        s.subrange(p1, p2) == spec_u32_le(out.relocations@.len() as u32),
        s.subrange(p2, relocs_end) == spec_relocs_enc(out.relocations@),
        s.subrange(relocs_end, p3) == spec_u32_le(out.traps@.len() as u32),
        s.subrange(p3, traps_end) == spec_traps_enc(out.traps@),
        s.subrange(traps_end, p4) == spec_u32_le(out.jt_offsets@.len() as u32),
        s.subrange(p4, jts_end) == spec_jts_enc(out.jt_offsets@),
        s.subrange(jts_end, p5) == spec_unwind_enc(out.unwind_info),
    ensures
        s.subrange(pos, p5) == spec_function_enc(out),
{
    let e1 = spec_bytes_enc(out.body@);
    let c2 = spec_u32_le(out.relocations@.len() as u32);
    let e3 = spec_relocs_enc(out.relocations@);
    let c4 = spec_u32_le(out.traps@.len() as u32);
    let e5 = spec_traps_enc(out.traps@);
    let c6 = spec_u32_le(out.jt_offsets@.len() as u32);
    let e7 = spec_jts_enc(out.jt_offsets@);
    lemma_subrange_split(s, pos, p1, p2);
    assert(s.subrange(pos, p2) == e1 + c2);
    lemma_subrange_split(s, pos, p2, relocs_end);
    assert(s.subrange(pos, relocs_end) == e1 + c2 + e3);
    lemma_subrange_split(s, pos, relocs_end, p3);
    assert(s.subrange(pos, p3) == e1 + c2 + e3 + c4);
    lemma_subrange_split(s, pos, p3, traps_end);
    assert(s.subrange(pos, traps_end) == e1 + c2 + e3 + c4 + e5);
    lemma_subrange_split(s, pos, traps_end, p4);
    assert(s.subrange(pos, p4) == e1 + c2 + e3 + c4 + e5 + c6);
    lemma_subrange_split(s, pos, p4, jts_end);
    assert(s.subrange(pos, jts_end) == e1 + c2 + e3 + c4 + e5 + c6 + e7);
    lemma_subrange_split(s, pos, jts_end, p5);
}

/// A header window and a functions window assemble to a whole compilation
/// encoding.
proof fn lemma_assemble_compilation(s: Seq<u8>, mid: int, c: Compilation)
    requires
        0 <= mid <= s.len(),
        s.subrange(0, mid) == spec_u32_le(c.spec_functions().len() as u32),
        s.subrange(mid, s.len() as int) == spec_functions_enc(c.spec_functions()),
    ensures
        s == spec_compilation_enc(c),
{
    lemma_subrange_split(s, 0, mid, s.len() as int);
    assert(s.subrange(0, s.len() as int) =~= s);
}

/// Append the encoding of the unwind information. Fails, leaving the output
/// untouched, exactly where a list is too long for its length field.
fn write_unwind(out: &mut Vec<u8>, u: &CompiledFunctionUnwindInfo) -> (r: Result<
    (),
    SerializeError,
>)
    ensures
        r is Ok <==> spec_unwind_fits(*u),
        r is Ok ==> final(out)@ == old(out)@ + spec_unwind_enc(*u),
        r is Err ==> final(out)@ == old(out)@,
{
    match u {
        CompiledFunctionUnwindInfo::NoInfo => {
            out.push(0);
            proof {
                assert(out@ =~= old(out)@ + spec_unwind_enc(*u));
            }
            Ok(())
        },
        CompiledFunctionUnwindInfo::Windows(d) => {
            if d.len() > u32::MAX as usize {
                return Err(SerializeError::TooLarge);
            }
            out.push(1);
            let ghost tagged = out@;
            write_bytes(out, d);
            proof {
                assert(tagged =~= old(out)@ + seq![1u8]);
                lemma_add_assoc(old(out)@, seq![1u8], spec_bytes_enc(d@));
                assert(out@ == old(out)@ + spec_unwind_enc(*u));
            }
            Ok(())
        },
        CompiledFunctionUnwindInfo::FrameLayout(code, fde_offset, entries) => {
            if code.len() > u32::MAX as usize || entries.len() > u32::MAX as usize {
                return Err(SerializeError::TooLarge);
            }
            out.push(2);
            let ghost o1 = out@;
            write_bytes(out, code);
            write_u64(out, *fde_offset as u64);
            write_u32(out, entries.len() as u32);
            let ghost mid = out@;
            proof {
                lemma_encs_empty();
                assert(entries@.subrange(0, 0) =~= Seq::<FDERelocEntry>::empty());
                assert(mid + Seq::<u8>::empty() =~= mid);
            }
            let mut i: usize = 0;
            while i < entries.len()
                invariant
                    i <= entries@.len(),
                    out@ == mid + spec_fde_entries_enc(entries@.subrange(0, i as int)),
                decreases entries@.len() - i,
            {
                let ghost before = out@;
                let e = entries[i];
                #[verifier::truncate]
                let bits = e.0 as u64;
                write_u64(out, bits);
                write_u64(out, e.1 as u64);
                out.push(e.2);
                proof {
                    let sub = entries@.subrange(0, i as int);
                    let sub1 = entries@.subrange(0, i + 1);
                    assert(sub1 =~= sub.push(entries@[i as int]));
                    lemma_fde_entries_enc_push(sub, entries@[i as int]);
                    assert(out@ =~= before + spec_fde_entry_enc(entries@[i as int]));
                    lemma_add_assoc(
                        mid,
                        spec_fde_entries_enc(sub),
                        spec_fde_entry_enc(entries@[i as int]),
                    );
                }
                i = i + 1;
            }
            proof {
                lemma_subrange_full(entries@);
                assert(o1 =~= old(out)@ + seq![2u8]);
                lemma_add_assoc(old(out)@, seq![2u8], spec_bytes_enc(code@));
                lemma_add_assoc(
                    old(out)@,
                    seq![2u8] + spec_bytes_enc(code@),
                    spec_u64_le(*fde_offset as u64),
                );
                lemma_add_assoc(
                    old(out)@,
                    seq![2u8] + spec_bytes_enc(code@) + spec_u64_le(*fde_offset as u64),
                    spec_u32_le(entries@.len() as u32),
                );
                lemma_add_assoc(
                    old(out)@,
                    seq![2u8] + spec_bytes_enc(code@) + spec_u64_le(*fde_offset as u64)
                        + spec_u32_le(entries@.len() as u32),
                    spec_fde_entries_enc(entries@),
                );
                assert(out@ == old(out)@ + spec_unwind_enc(*u));
            }
            Ok(())
        },
    }
}

/// Read the unwind information: the window read is exactly the returned
/// information's encoding.
#[verifier::rlimit(100)]
#[verifier::spinoff_prover]
fn read_unwind(s: &[u8], pos: usize) -> (r: Option<(CompiledFunctionUnwindInfo, usize)>)
    ensures
        match r {
            Some(p) => pos < p.1 <= s@.len() && s@.subrange(pos as int, p.1 as int)
                == spec_unwind_enc(p.0),
            None => true,
        },
{
    if pos >= s.len() {
        return None;
    }
    let tag = s[pos];
    if tag == 0 {
        let u = CompiledFunctionUnwindInfo::NoInfo;
        proof {
            assert(s@.subrange(pos as int, pos + 1) =~= spec_unwind_enc(u));
        }
        Some((u, pos + 1))
    } else if tag == 1 {
        let (d, p1) = match read_bytes(s, pos + 1) {
            Some(v) => v,
            None => {
                return None;
            },
        };
        let u = CompiledFunctionUnwindInfo::Windows(d);
        proof {
            lemma_subrange_split(s@, pos as int, pos + 1, p1 as int);
            assert(s@.subrange(pos as int, pos + 1) =~= seq![1u8]);
            assert(s@.subrange(pos as int, p1 as int) == spec_unwind_enc(u));
        }
        Some((u, p1))
    } else if tag == 2 {
        let (code, p1) = match read_bytes(s, pos + 1) {
            Some(v) => v,
            None => {
                return None;
            },
        };
        let (fde_bits, p2) = match read_u64(s, p1) {
            Some(v) => v,
            None => {
                return None;
            },
        };
        if fde_bits > usize::MAX as u64 {
            return None;
        }
        let (count, p3) = match read_u32(s, p2) {
            Some(v) => v,
            None => {
                return None;
            },
        };
        let mut entries: Vec<FDERelocEntry> = Vec::new();
        proof {
            lemma_encs_empty();
            assert(s@.subrange(p3 as int, p3 as int) =~= Seq::<u8>::empty());
        }
        let mut p = p3;
        let mut i: u32 = 0;
        while i < count
            invariant
                pos < p3 <= p <= s@.len(),
                i <= count,
                i == entries@.len(),
                s@.subrange(p3 as int, p as int) == spec_fde_entries_enc(entries@),
            decreases count - i,
        {
            let (a_bits, q1) = match read_u64(s, p) {
                Some(v) => v,
                None => {
                    return None;
                },
            };
            let (b_bits, q2) = match read_u64(s, q1) {
                Some(v) => v,
                None => {
                    return None;
                },
            };
            if b_bits > usize::MAX as u64 {
                return None;
            }
            if q2 >= s.len() {
                return None;
            }
            #[verifier::truncate]
            let a = a_bits as i64;
            let entry = FDERelocEntry(a, b_bits as usize, s[q2]);
            proof {
                assert(a as u64 == a_bits) by (bit_vector)
                    requires
                        a == a_bits as i64,
                ;
                lemma_subrange_split(s@, p as int, q1 as int, q2 + 1);
                lemma_subrange_split(s@, q1 as int, q2 as int, q2 + 1);
                assert(s@.subrange(q2 as int, q2 + 1) =~= seq![s@[q2 as int]]);
                lemma_add_assoc(
                    spec_u64_le(a_bits),
                    spec_u64_le(b_bits),
                    seq![s@[q2 as int]],
                );
                assert(s@.subrange(p as int, q2 + 1) == spec_fde_entry_enc(entry));
                lemma_subrange_split(s@, p3 as int, p as int, q2 + 1);
                lemma_fde_entries_enc_push(entries@, entry);
            }
            entries.push(entry);
            p = q2 + 1;
            i = i + 1;
        }
        let u = CompiledFunctionUnwindInfo::FrameLayout(code, fde_bits as usize, entries);
        proof {
            assert(fde_bits as usize as u64 == fde_bits);
            assert(s@.subrange(pos as int, pos + 1) =~= seq![2u8]);
            assert(entries@.len() == count);
            lemma_assemble_frame_layout(
                s@,
                pos as int,
                p1 as int,
                p2 as int,
                p3 as int,
                p as int,
                u,
            );
        }
        Some((u, p))
    } else {
        None
    }
}

/// Append the encoding of one compiled function. Fails exactly where one of
/// its lists is too long for its length field; the output is then partial
/// and the caller discards it.
fn write_function(out: &mut Vec<u8>, f: &CompiledFunction) -> (r: Result<(), SerializeError>)
    ensures
        r is Ok <==> spec_function_fits(*f),
        r is Ok ==> final(out)@ == old(out)@ + spec_function_enc(*f),
{
    if f.body.len() > u32::MAX as usize || f.relocations.len() > u32::MAX as usize
        || f.traps.len() > u32::MAX as usize || f.jt_offsets.len() > u32::MAX as usize {
        return Err(SerializeError::TooLarge);
    }
    let ghost o0 = out@;
    write_bytes(out, &f.body);
    proof {
        lemma_add_assoc(o0, spec_u32_le(f.body@.len() as u32), f.body@);
        assert(out@ == o0 + spec_bytes_enc(f.body@));
    }
    let ghost p1 = spec_bytes_enc(f.body@);
    write_u32(out, f.relocations.len() as u32);
    proof {
        lemma_add_assoc(o0, p1, spec_u32_le(f.relocations@.len() as u32));
    }
    let ghost p2 = p1 + spec_u32_le(f.relocations@.len() as u32);
    let ghost reloc_mid = out@;
    proof {
        lemma_encs_empty();
        assert(f.relocations@.subrange(0, 0) =~= Seq::<Relocation>::empty());
        assert(reloc_mid + Seq::<u8>::empty() =~= reloc_mid);
    }
    let mut j: usize = 0;
    while j < f.relocations.len()
        invariant
            j <= f.relocations@.len(),
            out@ == reloc_mid + spec_relocs_enc(f.relocations@.subrange(0, j as int)),
        decreases f.relocations@.len() - j,
    {
        write_reloc(out, &f.relocations[j]);
        proof {
            let sub = f.relocations@.subrange(0, j as int);
            let sub1 = f.relocations@.subrange(0, j + 1);
            assert(sub1 =~= sub.push(f.relocations@[j as int]));
            lemma_relocs_enc_push(sub, f.relocations@[j as int]);
            lemma_add_assoc(
                reloc_mid,
                spec_relocs_enc(sub),
                spec_reloc_enc(f.relocations@[j as int]),
            );
        }
        j = j + 1;
    }
    proof {
        lemma_subrange_full(f.relocations@);
        lemma_add_assoc(o0, p2, spec_relocs_enc(f.relocations@));
    }
    let ghost p3 = p2 + spec_relocs_enc(f.relocations@);
    write_u32(out, f.traps.len() as u32);
    proof {
        lemma_add_assoc(o0, p3, spec_u32_le(f.traps@.len() as u32));
    }
    let ghost p4 = p3 + spec_u32_le(f.traps@.len() as u32);
    let ghost trap_mid = out@;
    proof {
        lemma_encs_empty();
        assert(f.traps@.subrange(0, 0) =~= Seq::<TrapInformation>::empty());
        assert(trap_mid + Seq::<u8>::empty() =~= trap_mid);
    }
    let mut j: usize = 0;
    while j < f.traps.len()
        invariant
            j <= f.traps@.len(),
            out@ == trap_mid + spec_traps_enc(f.traps@.subrange(0, j as int)),
        decreases f.traps@.len() - j,
    {
        write_trap_record(out, &f.traps[j]);
        proof {
            let sub = f.traps@.subrange(0, j as int);
            let sub1 = f.traps@.subrange(0, j + 1);
            assert(sub1 =~= sub.push(f.traps@[j as int]));
            lemma_traps_enc_push(sub, f.traps@[j as int]);
            lemma_add_assoc(
                trap_mid,
                spec_traps_enc(sub),
                spec_trap_record_enc(f.traps@[j as int]),
            );
        }
        j = j + 1;
    }
    proof {
        lemma_subrange_full(f.traps@);
        lemma_add_assoc(o0, p4, spec_traps_enc(f.traps@));
    }
    let ghost p5 = p4 + spec_traps_enc(f.traps@);
    write_u32(out, f.jt_offsets.len() as u32);
    proof {
        lemma_add_assoc(o0, p5, spec_u32_le(f.jt_offsets@.len() as u32));
    }
    let ghost p6 = p5 + spec_u32_le(f.jt_offsets@.len() as u32);
    let ghost jt_mid = out@;
    proof {
        lemma_encs_empty();
        assert(f.jt_offsets@.subrange(0, 0) =~= Seq::<u32>::empty());
        assert(jt_mid + Seq::<u8>::empty() =~= jt_mid);
    }
    let mut j: usize = 0;
    while j < f.jt_offsets.len()
        invariant
            j <= f.jt_offsets@.len(),
            out@ == jt_mid + spec_jts_enc(f.jt_offsets@.subrange(0, j as int)),
        decreases f.jt_offsets@.len() - j,
    {
        write_u32(out, f.jt_offsets[j]);
        proof {
            let sub = f.jt_offsets@.subrange(0, j as int);
            let sub1 = f.jt_offsets@.subrange(0, j + 1);
            assert(sub1 =~= sub.push(f.jt_offsets@[j as int]));
            lemma_jts_enc_push(sub, f.jt_offsets@[j as int]);
            lemma_add_assoc(jt_mid, spec_jts_enc(sub), spec_u32_le(f.jt_offsets@[j as int]));
        }
        j = j + 1;
    }
    proof {
        lemma_subrange_full(f.jt_offsets@);
        lemma_add_assoc(o0, p6, spec_jts_enc(f.jt_offsets@));
    }
    let ghost p7 = p6 + spec_jts_enc(f.jt_offsets@);
    match write_unwind(out, &f.unwind_info) {
        Ok(()) => (),
        Err(e) => {
            return Err(e);
        },
    }
    proof {
        lemma_add_assoc(o0, p7, spec_unwind_enc(f.unwind_info));
        assert(out@ == o0 + spec_function_enc(*f));
    }
    Ok(())
}

/// Serialize a compilation: the number of functions, then per function the
/// body, the relocations, the traps, the jump-table offsets and the unwind
/// info, each length-prefixed. Fails exactly where a list is too long for
/// its 32-bit length field; on success the output is the compilation's
/// specified encoding.
pub fn serialize_compilation(c: &Compilation) -> (r: Result<Vec<u8>, SerializeError>)
    ensures
        r is Ok <==> spec_compilation_fits(*c),
        match r {
            Ok(bytes) => bytes@ == spec_compilation_enc(*c),
            Err(_) => true,
        },
{
    let mut out: Vec<u8> = Vec::new();
    let n = c.len();
    if n > u32::MAX as usize {
        return Err(SerializeError::TooLarge);
    }
    write_u32(&mut out, n as u32);
    let ghost header = spec_u32_le(n as u32);
    proof {
        lemma_encs_empty();
        assert(c.spec_functions().subrange(0, 0) =~= Seq::<CompiledFunction>::empty());
        assert(header + Seq::<u8>::empty() =~= header);
    }
    let mut i: usize = 0;
    while i < n
        invariant
            n == c.spec_functions().len(),
            n <= u32::MAX,
            i <= n,
            out@ == header + spec_functions_enc(c.spec_functions().subrange(0, i as int)),
            header == spec_u32_le(n as u32),
            forall|k: int|
                0 <= k < i ==> spec_function_fits(#[trigger] c.spec_functions()[k]),
        decreases n - i,
    {
        let f = c.get(crate::indexes::DefinedFuncIndex::from_u32(i as u32));
        match write_function(&mut out, f) {
            Ok(()) => (),
            Err(e) => {
                return Err(e);
            },
        }
        proof {
            let sub = c.spec_functions().subrange(0, i as int);
            let sub1 = c.spec_functions().subrange(0, i + 1);
            assert(sub1 =~= sub.push(c.spec_functions()[i as int]));
            lemma_functions_enc_push(sub, c.spec_functions()[i as int]);
            lemma_add_assoc(header, spec_functions_enc(sub), spec_function_enc(*f));
        }
        i = i + 1;
    }
    proof {
        lemma_subrange_full(c.spec_functions());
    }
    Ok(out)
}

/// Read one compiled function: the window read is exactly the returned
/// function's encoding.
#[verifier::rlimit(100)]
#[verifier::spinoff_prover]
fn read_compiled_function(s: &[u8], pos: usize) -> (r: Option<(CompiledFunction, usize)>)
    ensures
        match r {
            Some(p) => pos < p.1 <= s@.len() && s@.subrange(pos as int, p.1 as int)
                == spec_function_enc(p.0),
            None => true,
        },
{
    let (body, p1) = match read_bytes(s, pos) {
        Some(v) => v,
        None => {
            return None;
        },
    };
    let (reloc_count, p2) = match read_u32(s, p1) {
        Some(v) => v,
        None => {
            return None;
        },
    };
    let mut relocations: Vec<Relocation> = Vec::new();
    proof {
        lemma_encs_empty();
        assert(s@.subrange(p2 as int, p2 as int) =~= Seq::<u8>::empty());
    }
    let mut p = p2;
    let mut i: u32 = 0;
    while i < reloc_count
        invariant
            pos < p2 <= p <= s@.len(),
            i <= reloc_count,
            i == relocations@.len(),
            s@.subrange(p2 as int, p as int) == spec_relocs_enc(relocations@),
        decreases reloc_count - i,
    {
        let (rel, q) = match read_reloc(s, p) {
            Some(v) => v,
            None => {
                return None;
            },
        };
        proof {
            lemma_subrange_split(s@, p2 as int, p as int, q as int);
            lemma_relocs_enc_push(relocations@, rel);
        }
        relocations.push(rel);
        p = q;
        i = i + 1;
    }
    let ghost relocs_end = p as int;
    let (trap_count, p3) = match read_u32(s, p) {
        Some(v) => v,
        None => {
            return None;
        },
    };
    let mut traps: Vec<TrapInformation> = Vec::new();
    proof {
        lemma_encs_empty();
        assert(s@.subrange(p3 as int, p3 as int) =~= Seq::<u8>::empty());
    }
    let mut p = p3;
    let mut i: u32 = 0;
    while i < trap_count
        invariant
            pos < p3 <= p <= s@.len(),
            i <= trap_count,
            i == traps@.len(),
            s@.subrange(p3 as int, p as int) == spec_traps_enc(traps@),
        decreases trap_count - i,
    {
        let (t, q) = match read_trap_record(s, p) {
            Some(v) => v,
            None => {
                return None;
            },
        };
        proof {
            lemma_subrange_split(s@, p3 as int, p as int, q as int);
            lemma_traps_enc_push(traps@, t);
        }
        traps.push(t);
        p = q;
        i = i + 1;
    }
    let ghost traps_end = p as int;
    let (jt_count, p4) = match read_u32(s, p) {
        Some(v) => v,
        None => {
            return None;
        },
    };
    let mut jt_offsets: Vec<u32> = Vec::new();
    proof {
        lemma_encs_empty();
        assert(s@.subrange(p4 as int, p4 as int) =~= Seq::<u8>::empty());
    }
    let mut p = p4;
    let mut i: u32 = 0;
    while i < jt_count
        invariant
            pos < p4 <= p <= s@.len(),
            i <= jt_count,
            i == jt_offsets@.len(),
            s@.subrange(p4 as int, p as int) == spec_jts_enc(jt_offsets@),
        decreases jt_count - i,
    {
        let (v, q) = match read_u32(s, p) {
            Some(v) => v,
            None => {
                return None;
            },
        };
        proof {
            lemma_subrange_split(s@, p4 as int, p as int, q as int);
            lemma_jts_enc_push(jt_offsets@, v);
        }
        jt_offsets.push(v);
        p = q;
        i = i + 1;
    }
    let ghost jts_end = p as int;
    let (unwind_info, p5) = match read_unwind(s, p) {
        Some(v) => v,
        None => {
            return None;
        },
    };
    let out = CompiledFunction { body, relocations, traps, jt_offsets, unwind_info };
    proof {
        assert(out.relocations@.len() == reloc_count);
        assert(out.traps@.len() == trap_count);
        assert(out.jt_offsets@.len() == jt_count);
        lemma_assemble_function(
            s@,
            pos as int,
            p1 as int,
            p2 as int,
            relocs_end,
            p3 as int,
            traps_end,
            p4 as int,
            jts_end,
            p5 as int,
            out,
        );
    }
    Some((out, p5))
}

/// Deserialize a compilation from bytes produced by `serialize_compilation`:
/// the whole input must be consumed, and it is exactly the returned
/// compilation's encoding.
#[verifier::rlimit(100)]
#[verifier::spinoff_prover]
pub fn deserialize_compilation(s: &[u8]) -> (r: Result<Compilation, DeserializeError>)
    ensures
        match r {
            Ok(c) => s@ == spec_compilation_enc(c),
            Err(_) => true,
        },
{
    let (count, p0) = match read_u32(s, 0) {
        Some(v) => v,
        None => {
            return Err(DeserializeError::Corrupt);
        },
    };
    let mut functions: Vec<CompiledFunction> = Vec::new();
    proof {
        lemma_encs_empty();
        assert(s@.subrange(p0 as int, p0 as int) =~= Seq::<u8>::empty());
    }
    let mut p = p0;
    let mut i: u32 = 0;
    while i < count
        invariant
            p0 == 4,
            p0 <= p <= s@.len(),
            i <= count,
            i == functions@.len(),
            s@.subrange(p0 as int, p as int) == spec_functions_enc(functions@),
        decreases count - i,
    {
        let (f, q) = match read_compiled_function(s, p) {
            Some(v) => v,
            None => {
                return Err(DeserializeError::Corrupt);
            },
        };
        proof {
            lemma_subrange_split(s@, p0 as int, p as int, q as int);
            lemma_functions_enc_push(functions@, f);
        }
        functions.push(f);
        p = q;
        i = i + 1;
    }
    if p != s.len() {
        return Err(DeserializeError::Corrupt);
    }
    let c = Compilation::new(functions);
    proof {
        assert(c.spec_functions().len() == count);
        lemma_assemble_compilation(s@, p0 as int, c);
    }
    Ok(c)
}

} // verus!
