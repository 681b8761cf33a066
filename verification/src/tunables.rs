//! Target-derived memory sizing policy: the static memory bound and the
//! guard-page sizes used when planning linear memories.

use vstd::prelude::*;

verus! {

#[verifier::external_type_specification]
#[verifier::external_body]
pub struct ExTriple(target_lexicon::Triple);

/// Relies on target_lexicon::Triple's derived Clone: cloning a plain data
/// structure yields an equal value.
pub assume_specification[ <target_lexicon::Triple as Clone>::clone ](
    t: &target_lexicon::Triple,
) -> (r: target_lexicon::Triple)
    ensures
        r == *t,
;

/// Relies on target_lexicon::Triple::pointer_width and PointerWidth::bytes:
/// when the width is known it is 16, 32 or 64 bits, so 2, 4 or 8 bytes.
#[verifier::external_body]
fn triple_pointer_bytes(triple: &target_lexicon::Triple) -> (r: Option<u8>)
    ensures
        match r {
            Some(b) => b == 2 || b == 4 || b == 8,
            None => true,
        },
{
    match triple.pointer_width() {
        Ok(w) => Some(w.bytes()),
        Err(()) => None,
    }
}

/// Relies on target_lexicon::Triple's operating_system field to tell Windows
/// from every other operating system.
#[verifier::external_body]
fn triple_is_windows(triple: &target_lexicon::Triple) -> (r: bool) {
    match triple.operating_system {
        target_lexicon::OperatingSystem::Windows => true,
        _ => false,
    }
}

/// Relies on target_lexicon::Triple::host: the triple of the machine this
/// program was compiled for.
#[verifier::external_body]
pub(crate) fn host_triple() -> (r: target_lexicon::Triple) {
    target_lexicon::Triple::host()
}

/// Tunable parameters for WebAssembly compilation. These numbers are part of
/// the ABI between the translator and the memory creator.
#[derive(Clone, Debug, PartialEq, Eq, Structural)]
pub struct Tunables {
    /// For static heaps, the size in wasm pages of the heap protected by bounds checking.
    pub static_memory_bound: u32,

    /// The size in bytes of the offset guard for static heaps.
    pub static_memory_offset_guard_size: u64,

    /// The size in bytes of the offset guard for dynamic heaps.
    pub dynamic_memory_offset_guard_size: u64,
}

impl Tunables {
    /// The tunables profile for a pointer width in bytes, with the Windows
    /// clamp applied where asked: 16-bit targets get a 0x400-page bound and a
    /// 4 KiB guard, 32-bit targets 0x4000 pages and a 64 KiB guard, 64-bit
    /// targets 0x1_0000 pages (4 GiB) and a 2 GiB guard; on Windows the bound
    /// is clamped to 0x100 pages and the static guard to 64 KiB. The dynamic
    /// guard is always 64 KiB.
    pub open spec fn spec_for_pointer_width(pointer_bytes: u8, windows: bool) -> Tunables {
        let bound: u32 = if pointer_bytes == 2 {
            0x400
        } else if pointer_bytes == 4 {
            0x4000
        } else {
            0x1_0000
        };
        let guard: u64 = if pointer_bytes == 2 {
            0x1000
        } else if pointer_bytes == 4 {
            0x1_0000
        } else {
            0x8000_0000
        };
        Tunables {
            static_memory_bound: if windows && bound > 0x100 {
                0x100
            } else {
                bound
            },
            static_memory_offset_guard_size: if windows && guard > 0x1_0000 {
                0x1_0000
            } else {
                guard
            },
            dynamic_memory_offset_guard_size: 0x1_0000,
        }
    }

    /// The tunables for a target with the given pointer width in bytes.
    pub fn for_pointer_width(pointer_bytes: u8, windows: bool) -> (r: Self)
        requires
            pointer_bytes == 2 || pointer_bytes == 4 || pointer_bytes == 8,
        ensures
            r == Self::spec_for_pointer_width(pointer_bytes, windows),
    {
        let (mut static_memory_bound, mut static_memory_offset_guard_size): (u32, u64) =
            if pointer_bytes == 2 {
                (0x400, 0x1000)
            } else if pointer_bytes == 4 {
                (0x4000, 0x1_0000)
            } else {
                // A 4 GiB bound avoids explicit bounds checks; a 2 GiB guard
                // lets wasm offsets translate into x86 offsets aggressively.
                (0x1_0000, 0x8000_0000)
            };

        if windows {
            // Use a smaller footprint on Windows to avoid outstripping the
            // paging file.
            if static_memory_bound > 0x100 {
                static_memory_bound = 0x100;
            }
            if static_memory_offset_guard_size > 0x1_0000 {
                static_memory_offset_guard_size = 0x1_0000;
            }
        }

        Tunables {
            static_memory_bound,
            static_memory_offset_guard_size,
            // A small guard optimizes common cases without wasting memory.
            dynamic_memory_offset_guard_size: 0x1_0000,
        }
    }

    /// Get the `Tunables` for a specific target triple, or `None` when the
    /// triple's pointer width is unknown.
    pub fn for_target(triple: &target_lexicon::Triple) -> (r: Option<Self>)
        ensures
            match r {
                Some(t) => exists|pw: u8, win: bool|
                    (pw == 2 || pw == 4 || pw == 8) && t == Self::spec_for_pointer_width(pw, win),
                None => true,
            },
    {
        let windows = triple_is_windows(triple);
        match triple_pointer_bytes(triple) {
            Some(pw) => {
                let t = Self::for_pointer_width(pw, windows);
                proof {
                    assert((pw == 2 || pw == 4 || pw == 8) && t == Self::spec_for_pointer_width(
                        pw,
                        windows,
                    ));
                }
                Some(t)
            },
            None => None,
        }
    }
}

impl Default for Tunables {
    /// The tunables of the host target.
    fn default() -> (r: Self)
        ensures
            exists|pw: u8, win: bool|
                (pw == 2 || pw == 4 || pw == 8) && r == Tunables::spec_for_pointer_width(pw, win),
    {
        let host = host_triple();
        match Tunables::for_target(&host) {
            Some(t) => t,
            None => Tunables::for_pointer_width(8, false),
        }
    }
}

} // verus!
