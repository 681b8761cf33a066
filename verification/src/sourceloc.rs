//! Source locations.

use vstd::prelude::*;
use vstd::string::StringExecFns;

verus! {

/// The lowercase hex digit character for a value below sixteen.
pub open spec fn spec_hex_digit(d: int) -> char {
    if d == 0 {
        '0'
    } else if d == 1 {
        '1'
    } else if d == 2 {
        '2'
    } else if d == 3 {
        '3'
    } else if d == 4 {
        '4'
    } else if d == 5 {
        '5'
    } else if d == 6 {
        '6'
    } else if d == 7 {
        '7'
    } else if d == 8 {
        '8'
    } else if d == 9 {
        '9'
    } else if d == 10 {
        'a'
    } else if d == 11 {
        'b'
    } else if d == 12 {
        'c'
    } else if d == 13 {
        'd'
    } else if d == 14 {
        'e'
    } else {
        'f'
    }
}

/// The hex digits of `n`, most significant first, without leading zeros;
/// zero itself is a single digit.
pub open spec fn spec_hex_seq(n: int) -> Seq<char>
    decreases n,
{
    if n < 16 {
        seq![spec_hex_digit(n)]
    } else {
        spec_hex_seq(n / 16).push(spec_hex_digit(n % 16))
    }
}

/// The lowercase hex digit for a value below sixteen.
fn hex_digit_str(d: u32) -> (r: &'static str)
    requires
        d < 16,
    ensures
        r@ =~= seq![spec_hex_digit(d as int)],
{
    proof {
        reveal_strlit("0");
        reveal_strlit("1");
        reveal_strlit("2");
        reveal_strlit("3");
        reveal_strlit("4");
        reveal_strlit("5");
        reveal_strlit("6");
        reveal_strlit("7");
        reveal_strlit("8");
        reveal_strlit("9");
        reveal_strlit("a");
        reveal_strlit("b");
        reveal_strlit("c");
        reveal_strlit("d");
        reveal_strlit("e");
        reveal_strlit("f");
    }
    match d {
        0 => "0",
        1 => "1",
        2 => "2",
        3 => "3",
        4 => "4",
        5 => "5",
        6 => "6",
        7 => "7",
        8 => "8",
        9 => "9",
        10 => "a",
        11 => "b",
        12 => "c",
        13 => "d",
        14 => "e",
        _ => "f",
    }
}

/// Append the hex digits of `n`, most significant first, to `s`.
fn push_hex(s: &mut String, n: u32)
    ensures
        final(s)@ == old(s)@ + spec_hex_seq(n as int),
    decreases n,
{
    if n >= 16 {
        push_hex(s, n / 16);
    }
    let d = hex_digit_str(n % 16);
    s.append(d);
    proof {
        if n < 16 {
            assert(n as int % 16 == n as int);
        }
        assert(s@ =~= old(s)@ + spec_hex_seq(n as int));
    }
}

/// A source location.
///
/// The default source location uses the all-ones bit pattern. It is used for
/// instructions that can't be given a real source location.
#[derive(Clone, Copy, Debug, PartialEq, Eq, Structural)]
pub struct SourceLoc {
    bits: u32,
}

impl SourceLoc {
    /// The bit pattern carried by this source location.
    pub closed spec fn spec_bits(self) -> u32 {
        self.bits
    }

    /// Whether this is the "no location" pattern.
    pub open spec fn spec_is_default(self) -> bool {
        self.spec_bits() == u32::MAX
    }

    /// Create a new source location with the given bits.
    pub fn new(bits: u32) -> (r: Self)
        ensures
            r.spec_bits() == bits,
    {
        SourceLoc { bits }
    }

    /// Is this the default source location?
    pub fn is_default(self) -> (r: bool)
        ensures
            r == self.spec_is_default(),
    {
        self.bits == u32::MAX
    }

    /// Read the bits of this source location.
    pub fn bits(self) -> (r: u32)
        ensures
            r == self.spec_bits(),
    {
        self.bits
    }

    /// How this location prints: the default location as `0x-`, any other as
    /// its hex digits after `0x`, zero-padded to at least four digits.
    pub open spec fn spec_display(self) -> Seq<char> {
        if self.spec_is_default() {
            "0x-"@
        } else {
            "0x"@ + (if self.spec_bits() < 0x10 {
                seq!['0', '0', '0']
            } else if self.spec_bits() < 0x100 {
                seq!['0', '0']
            } else if self.spec_bits() < 0x1000 {
                seq!['0']
            } else {
                Seq::<char>::empty()
            }) + spec_hex_seq(self.spec_bits() as int)
        }
    }

    /// Render this source location as text.
    pub fn display(&self) -> (r: String)
        ensures
            r@ == self.spec_display(),
    {
        proof {
            reveal_strlit("0x-");
            reveal_strlit("0x");
            reveal_strlit("0");
            reveal_strlit("00");
            reveal_strlit("000");
        }
        if self.is_default() {
            let mut s = String::new();
            s.append("0x-");
            proof {
                assert(s@ =~= self.spec_display());
            }
            s
        } else {
            let mut s = String::new();
            s.append("0x");
            if self.bits < 0x10 {
                s.append("000");
            } else if self.bits < 0x100 {
                s.append("00");
            } else if self.bits < 0x1000 {
                s.append("0");
            }
            push_hex(&mut s, self.bits);
            proof {
                assert("000"@ =~= seq!['0', '0', '0']);
                assert("00"@ =~= seq!['0', '0']);
                assert("0"@ =~= seq!['0']);
                assert(s@ =~= self.spec_display());
            }
            s
        }
    }
}

impl Default for SourceLoc {
    /// The default source location: the all-ones bit pattern.
    fn default() -> (r: Self)
        ensures
            r.spec_is_default(),
            r.spec_bits() == u32::MAX,
    {
        SourceLoc { bits: u32::MAX }
    }
}

/// The bit pattern wholly determines a source location: two locations with the
/// same bits are the same location, and the all-ones pattern is the default.
pub proof fn lemma_source_loc_bits_roundtrip(a: SourceLoc, b: SourceLoc)
    requires
        a.spec_bits() == b.spec_bits(),
    ensures
        a == b,
        a.spec_bits() == u32::MAX ==> a.spec_is_default(),
{
}

} // verus!
