//! Globally unique identifier made of four 32-bit words.

use vstd::prelude::*;
use vstd::arithmetic::div_mod::{lemma_mod_breakdown, lemma_small_mod};
use vstd::arithmetic::power::{lemma_pow_positive, pow};
use vstd::string::StringExecFns;
use crate::clock::current_unix_nanos;
use crate::parse::{
    all_radix_digits, digit_v, lemma_split_on_no_sep, lemma_split_on_prefix, parse_uint_chars,
    parse_uint_spec, radix_val, split_chars, split_on, str_to_chars,
};
use crate::strfmt::{hex_digit, hex_str_fixed, lemma_hex_str_fixed_len, u32_to_hex_fixed};

verus! {

/// A 128-bit identifier stored as four 32-bit words.
#[derive(Debug, Clone, Copy, PartialEq, Eq, Structural, Hash)]
pub struct Guid {
    /// First 32 bits
    pub a: u32,
    /// Second 32 bits
    pub b: u32,
    /// Third 32 bits
    pub c: u32,
    /// Fourth 32 bits
    pub d: u32,
}

/// The text form of an identifier: four groups of eight uppercase
/// hexadecimal digits, separated by dashes.
pub open spec fn guid_str(g: Guid) -> Seq<char> {
    hex_str_fixed(g.a as nat, 8) + seq!['-'] + hex_str_fixed(g.b as nat, 8) + seq!['-']
        + hex_str_fixed(g.c as nat, 8) + seq!['-'] + hex_str_fixed(g.d as nat, 8)
}

/// What one dash-separated group parses to: a hexadecimal 32-bit value.
pub open spec fn guid_part(p: Seq<char>) -> Option<nat> {
    parse_uint_spec(p, 16, 0xFFFF_FFFF as nat)
}

impl Guid {
    /// Create a new identifier from its four words.
    pub fn new(a: u32, b: u32, c: u32, d: u32) -> (r: Self)
        ensures
            r == (Guid { a, b, c, d }),
    {
        Self { a, b, c, d }
    }

    /// The all-zero identifier, used as the invalid sentinel.
    pub fn invalid() -> (r: Self)
        ensures
            r == (Guid { a: 0u32, b: 0u32, c: 0u32, d: 0u32 }),
    {
        Self { a: 0, b: 0, c: 0, d: 0 }
    }

    /// An identifier is valid exactly when at least one word is non-zero.
    pub fn is_valid(self) -> (r: bool)
        ensures
            r == !(self.a == 0 && self.b == 0 && self.c == 0 && self.d == 0),
    {
        self.a != 0 || self.b != 0 || self.c != 0 || self.d != 0
    }

    /// Derives an identifier from a seed by splitting its bits and mixing
    /// it with two linear-congruential steps.
    pub fn from_seed(seed: u64) -> (r: Self)
        ensures
            r.a == (seed & 0xFFFF_FFFF) as u32,
            r.b == ((seed >> 32) & 0xFFFF_FFFF) as u32,
            r.c == (seed.wrapping_mul(1103515245).wrapping_add(12345) & 0xFFFF_FFFF) as u32,
            r.d == (seed.wrapping_mul(214013).wrapping_add(2531011) & 0xFFFF_FFFF) as u32,
    {
        proof {
            assert(forall|x: u64| #[trigger] (x & 0xFFFF_FFFF) <= 0xFFFF_FFFF) by (bit_vector);
        }
        let a = (seed & 0xFFFF_FFFF) as u32;
        let b = ((seed >> 32) & 0xFFFF_FFFF) as u32;
        let c = (seed.wrapping_mul(1103515245).wrapping_add(12345) & 0xFFFF_FFFF) as u32;
        let d = (seed.wrapping_mul(214013).wrapping_add(2531011) & 0xFFFF_FFFF) as u32;
        Self { a, b, c, d }
    }

    /// A fresh identifier seeded from the clock. Two calls may still
    /// collide within the clock's resolution.
    pub fn new_guid() -> Self {
        let nanos = current_unix_nanos();
        #[verifier::truncate]
        let seed = nanos as u64;
        Self::from_seed(seed)
    }

    /// Parses the dash-separated hexadecimal form, reporting the first
    /// group that fails.
    pub fn parse(s: &str) -> (r: Result<Self, &'static str>)
        ensures
            ({
                let parts = split_on(s@, '-');
                &&& (r is Ok <==> parts.len() == 4 && guid_part(parts[0]) is Some && guid_part(
                    parts[1],
                ) is Some && guid_part(parts[2]) is Some && guid_part(parts[3]) is Some)
                &&& (r matches Ok(g) ==> g.a == guid_part(parts[0]).unwrap() && g.b == guid_part(
                    parts[1],
                ).unwrap() && g.c == guid_part(parts[2]).unwrap() && g.d == guid_part(
                    parts[3],
                ).unwrap())
                &&& (parts.len() != 4 ==> (r matches Err(m) && m@ == "Invalid GUID format"@))
                &&& (parts.len() == 4 && guid_part(parts[0]) is None ==> (r matches Err(m) && m@
                    == "Invalid hex in part A"@))
                &&& (parts.len() == 4 && guid_part(parts[0]) is Some && guid_part(parts[1]) is None
                    ==> (r matches Err(m) && m@ == "Invalid hex in part B"@))
                &&& (parts.len() == 4 && guid_part(parts[0]) is Some && guid_part(parts[1]) is Some
                    && guid_part(parts[2]) is None ==> (r matches Err(m) && m@
                    == "Invalid hex in part C"@))
                &&& (parts.len() == 4 && guid_part(parts[0]) is Some && guid_part(parts[1]) is Some
                    && guid_part(parts[2]) is Some && guid_part(parts[3]) is None ==> (r
                    matches Err(m) && m@ == "Invalid hex in part D"@))
            }),
    {
        let chars = str_to_chars(s);
        let parts = split_chars(&chars, '-');
        proof {
            assert(forall|k: int|
                0 <= k < parts@.len() ==> parts@.map_values(|p: Vec<char>| p@)[k] == #[trigger] (
                parts@[k]@));
        }
        if parts.len() != 4 {
            return Err("Invalid GUID format");
        }
        let a = match parse_uint_chars(&parts[0], 16, 0xFFFF_FFFF) {
            Some(x) => x,
            None => {
                return Err("Invalid hex in part A");
            },
        };
        let b = match parse_uint_chars(&parts[1], 16, 0xFFFF_FFFF) {
            Some(x) => x,
            None => {
                return Err("Invalid hex in part B");
            },
        };
        let c = match parse_uint_chars(&parts[2], 16, 0xFFFF_FFFF) {
            Some(x) => x,
            None => {
                return Err("Invalid hex in part C");
            },
        };
        let d = match parse_uint_chars(&parts[3], 16, 0xFFFF_FFFF) {
            Some(x) => x,
            None => {
                return Err("Invalid hex in part D");
            },
        };
        Ok(Self { a, b, c, d })
    }

    /// Renders the identifier as four groups of eight uppercase
    /// hexadecimal digits, separated by dashes.
    pub fn to_string(self) -> (s: String)
        ensures
            s@ == guid_str(self),
    {
        proof {
            reveal_strlit("-");
        }
        let mut s = u32_to_hex_fixed(self.a, 8);
        s.append("-");
        s.append(u32_to_hex_fixed(self.b, 8).as_str());
        s.append("-");
        s.append(u32_to_hex_fixed(self.c, 8).as_str());
        s.append("-");
        s.append(u32_to_hex_fixed(self.d, 8).as_str());
        proof {
            assert("-"@ =~= seq!['-']);
            assert(s@ =~= guid_str(self));
        }
        s
    }

    /// The sixteen bytes of the identifier, each word big-endian, in
    /// word order.
    pub fn to_bytes(self) -> (r: [u8; 16])
        ensures
            r@ == word_bytes(self.a) + word_bytes(self.b) + word_bytes(self.c) + word_bytes(
                self.d,
            ),
    {
        proof {
            assert(forall|v: u32| #[trigger] (v >> 24) <= 0xFF) by (bit_vector);
            assert(forall|v: u32| #[trigger] ((v >> 16) & 0xFF) <= 0xFF) by (bit_vector);
            assert(forall|v: u32| #[trigger] ((v >> 8) & 0xFF) <= 0xFF) by (bit_vector);
            assert(forall|v: u32| #[trigger] (v & 0xFF) <= 0xFF) by (bit_vector);
        }
        let r: [u8; 16] = [
            (self.a >> 24) as u8,
            ((self.a >> 16) & 0xFF) as u8,
            ((self.a >> 8) & 0xFF) as u8,
            (self.a & 0xFF) as u8,
            (self.b >> 24) as u8,
            ((self.b >> 16) & 0xFF) as u8,
            ((self.b >> 8) & 0xFF) as u8,
            (self.b & 0xFF) as u8,
            (self.c >> 24) as u8,
            ((self.c >> 16) & 0xFF) as u8,
            ((self.c >> 8) & 0xFF) as u8,
            (self.c & 0xFF) as u8,
            (self.d >> 24) as u8,
            ((self.d >> 16) & 0xFF) as u8,
            ((self.d >> 8) & 0xFF) as u8,
            (self.d & 0xFF) as u8,
        ];
        proof {
            assert(r@ =~= word_bytes(self.a) + word_bytes(self.b) + word_bytes(self.c)
                + word_bytes(self.d));
        }
        r
    }

    /// Rebuilds the identifier from its sixteen big-endian bytes.
    pub fn from_bytes(bytes: [u8; 16]) -> (r: Self)
        ensures
            r.a == word_from_bytes(bytes[0], bytes[1], bytes[2], bytes[3]),
            r.b == word_from_bytes(bytes[4], bytes[5], bytes[6], bytes[7]),
            r.c == word_from_bytes(bytes[8], bytes[9], bytes[10], bytes[11]),
            r.d == word_from_bytes(bytes[12], bytes[13], bytes[14], bytes[15]),
    {
        let a = ((bytes[0] as u32) << 24) | ((bytes[1] as u32) << 16) | ((bytes[2] as u32) << 8) | (
        bytes[3] as u32);
        let b = ((bytes[4] as u32) << 24) | ((bytes[5] as u32) << 16) | ((bytes[6] as u32) << 8) | (
        bytes[7] as u32);
        let c = ((bytes[8] as u32) << 24) | ((bytes[9] as u32) << 16) | ((bytes[10] as u32) << 8)
            | (bytes[11] as u32);
        let d = ((bytes[12] as u32) << 24) | ((bytes[13] as u32) << 16) | ((bytes[14] as u32) << 8)
            | (bytes[15] as u32);
        Self { a, b, c, d }
    }
}

impl Default for Guid {
    /// The default identifier is the invalid sentinel.
    fn default() -> (r: Self)
        ensures
            r == (Guid { a: 0u32, b: 0u32, c: 0u32, d: 0u32 }),
    {
        Self::invalid()
    }
}

/// Reading a hexadecimal digit character back gives the digit.
proof fn lemma_hex_digit_value(d: int)
    requires
        0 <= d < 16,
    ensures
        digit_v(hex_digit(d)) == d,
{
}

/// Every character of a fixed-width hexadecimal rendering is a
/// hexadecimal digit.
proof fn lemma_hex_fixed_digits(n: nat, width: nat)
    ensures
        all_radix_digits(hex_str_fixed(n, width), 16),
    decreases width,
{
    if width > 0 {
        lemma_hex_fixed_digits(n / 16, (width - 1) as nat);
        lemma_hex_digit_value((n % 16) as int);
        let prev = hex_str_fixed(n / 16, (width - 1) as nat);
        let whole = hex_str_fixed(n, width);
        assert forall|i: int| 0 <= i < whole.len() implies digit_v(whole[i]) < 16 by {
            if i < prev.len() {
                assert(whole[i] == prev[i]);
                assert(digit_v(prev[i]) < 16);
            } else {
                assert(whole[i] == hex_digit((n % 16) as int));
            }
        }
    }
}

/// The value read back from a fixed-width hexadecimal rendering: the
/// number, reduced modulo the width's range.
proof fn lemma_hex_fixed_val(n: nat, width: nat)
    ensures
        radix_val(hex_str_fixed(n, width), 16) == n as int % pow(16, width),
    decreases width,
{
    reveal(pow);
    if width == 0 {
        assert(pow(16, 0) == 1);
        assert(n % 1 == 0) by (nonlinear_arith);
    } else {
        let w1 = (width - 1) as nat;
        lemma_hex_fixed_val(n / 16, w1);
        lemma_hex_digit_value((n % 16) as int);
        lemma_pow_positive(16, w1);
        let prev = hex_str_fixed(n / 16, w1);
        let whole = hex_str_fixed(n, width);
        assert(whole.drop_last() =~= prev);
        assert(whole.last() == hex_digit((n % 16) as int));
        assert(radix_val(whole, 16) == radix_val(prev, 16) * 16 + n % 16);
        lemma_mod_breakdown(n as int, 16, pow(16, w1));
        assert(pow(16, width) == 16 * pow(16, w1));
        assert(radix_val(prev, 16) * 16 == 16 * ((n as int / 16) % pow(16, w1)));
    }
}

/// An eight-digit hexadecimal rendering of a 32-bit word parses back
/// to the word.
proof fn lemma_guid_part_hex(n: u32)
    ensures
        guid_part(hex_str_fixed(n as nat, 8)) == Some(n as nat),
{
    reveal(pow);
    let s = hex_str_fixed(n as nat, 8);
    lemma_hex_str_fixed_len(n as nat, 8);
    lemma_hex_fixed_digits(n as nat, 8);
    lemma_hex_fixed_val(n as nat, 8);
    assert(digit_v(s[0]) < 16);
    assert(digit_v('+') == 99);
    assert(s[0] != '+');
    assert(pow(16, 1) == 16 * pow(16, 0));
    assert(pow(16, 2) == 16 * pow(16, 1));
    assert(pow(16, 3) == 16 * pow(16, 2));
    assert(pow(16, 4) == 16 * pow(16, 3));
    assert(pow(16, 5) == 16 * pow(16, 4));
    assert(pow(16, 6) == 16 * pow(16, 5));
    assert(pow(16, 7) == 16 * pow(16, 6));
    assert(pow(16, 8) == 16 * pow(16, 7));
    assert(pow(16, 8) == 0x1_0000_0000);
    lemma_small_mod(n as nat, 0x1_0000_0000);
}

/// No character of a fixed-width hexadecimal rendering is a dash.
proof fn lemma_hex_fixed_no_dash(n: nat, width: nat)
    ensures
        forall|i: int|
            0 <= i < hex_str_fixed(n, width).len() ==> hex_str_fixed(n, width)[i] != '-',
{
    lemma_hex_fixed_digits(n, width);
    let s = hex_str_fixed(n, width);
    assert forall|i: int| 0 <= i < s.len() implies s[i] != '-' by {
        assert(digit_v(s[i]) < 16);
        assert(digit_v('-') == 99);
    }
}

/// The text of an identifier parses back to the identifier: its
/// dash-split has exactly four groups, and each group reads back the
/// corresponding word. With the contract of `parse`, parsing
/// `to_string`'s result therefore returns the identifier itself.
#[verifier::rlimit(100)]
pub proof fn lemma_guid_text_parses_back(g: Guid)
    ensures
        split_on(guid_str(g), '-').len() == 4,
        guid_part(split_on(guid_str(g), '-')[0]) == Some(g.a as nat),
        guid_part(split_on(guid_str(g), '-')[1]) == Some(g.b as nat),
        guid_part(split_on(guid_str(g), '-')[2]) == Some(g.c as nat),
        guid_part(split_on(guid_str(g), '-')[3]) == Some(g.d as nat),
{
    let pa = hex_str_fixed(g.a as nat, 8);
    let pb = hex_str_fixed(g.b as nat, 8);
    let pc = hex_str_fixed(g.c as nat, 8);
    let pd = hex_str_fixed(g.d as nat, 8);
    lemma_hex_fixed_no_dash(g.a as nat, 8);
    lemma_hex_fixed_no_dash(g.b as nat, 8);
    lemma_hex_fixed_no_dash(g.c as nat, 8);
    lemma_hex_fixed_no_dash(g.d as nat, 8);
    let tail_c = pc + seq!['-'] + pd;
    let tail_b = pb + seq!['-'] + tail_c;
    assert(guid_str(g) =~= pa + seq!['-'] + tail_b);
    lemma_split_on_no_sep(pd, '-');
    lemma_split_on_prefix(pc, pd, '-');
    lemma_split_on_prefix(pb, tail_c, '-');
    lemma_split_on_prefix(pa, tail_b, '-');
    assert(split_on(guid_str(g), '-') =~= seq![pa, pb, pc, pd]);
    lemma_guid_part_hex(g.a);
    lemma_guid_part_hex(g.b);
    lemma_guid_part_hex(g.c);
    lemma_guid_part_hex(g.d);
}

/// The four bytes of a 32-bit word, big-endian.
pub open spec fn word_bytes(v: u32) -> Seq<u8> {
    seq![(v >> 24) as u8, ((v >> 16) & 0xFF) as u8, ((v >> 8) & 0xFF) as u8, (v & 0xFF) as u8]
}

/// The 32-bit word read from four bytes, big-endian.
pub open spec fn word_from_bytes(b0: u8, b1: u8, b2: u8, b3: u8) -> u32 {
    ((b0 as u32) << 24) | ((b1 as u32) << 16) | ((b2 as u32) << 8) | (b3 as u32)
}

} // verus!
