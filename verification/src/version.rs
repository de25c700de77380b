//! Version numbers with major, minor, patch and build fields.

use vstd::prelude::*;
use vstd::string::StringExecFns;
use crate::parse::{
    all_radix_digits, digit_v, lemma_split_on_no_sep, lemma_split_on_prefix, parse_uint_chars,
    parse_uint_spec, radix_val, split_chars, split_on, str_to_chars,
};
use crate::strfmt::{dec_digit, dec_str, u64_to_dec};

verus! {

/// A version number: `major.minor.patch.build`.
#[derive(Debug, Clone, Copy, PartialEq, Eq, Structural, PartialOrd, Ord, Hash)]
pub struct Version {
    /// Major version number
    pub major: u16,
    /// Minor version number
    pub minor: u16,
    /// Patch version number
    pub patch: u16,
    /// Build number
    pub build: u16,
}

/// What one dot-separated field parses to: a decimal 16-bit value.
pub open spec fn version_part(p: Seq<char>) -> Option<nat> {
    parse_uint_spec(p, 10, 0xFFFF as nat)
}

/// The text form of a version: three dot-separated decimal fields, with
/// the build number appended as a fourth only when it is non-zero.
pub open spec fn version_str(v: Version) -> Seq<char> {
    let head = dec_str(v.major as nat) + seq!['.'] + dec_str(v.minor as nat) + seq!['.'] + dec_str(
        v.patch as nat,
    );
    if v.build == 0 {
        head
    } else {
        head + seq!['.'] + dec_str(v.build as nat)
    }
}

impl Version {
    /// Create a new version from all four fields.
    pub fn new(major: u16, minor: u16, patch: u16, build: u16) -> (r: Self)
        ensures
            r == (Version { major, minor, patch, build }),
    {
        Self { major, minor, patch, build }
    }

    /// Create a version with just major, minor and patch; the build
    /// number is zero.
    pub fn from_semver(major: u16, minor: u16, patch: u16) -> (r: Self)
        ensures
            r == (Version { major, minor, patch, build: 0u16 }),
    {
        Self::new(major, minor, patch, 0)
    }

    /// Parses `major.minor.patch` or `major.minor.patch.build`,
    /// reporting the first field that fails.
    pub fn parse(s: &str) -> (r: Result<Self, &'static str>)
        ensures
            ({
                let parts = split_on(s@, '.');
                let build_ok = parts.len() == 3 || version_part(parts[3]) is Some;
                &&& (r is Ok <==> (parts.len() == 3 || parts.len() == 4) && version_part(
                    parts[0],
                ) is Some && version_part(parts[1]) is Some && version_part(parts[2]) is Some
                    && build_ok)
                &&& (r matches Ok(v) ==> v.major == version_part(parts[0]).unwrap() && v.minor
                    == version_part(parts[1]).unwrap() && v.patch == version_part(
                    parts[2],
                ).unwrap() && v.build == (if parts.len() == 3 {
                    0nat
                } else {
                    version_part(parts[3]).unwrap()
                }))
                &&& (parts.len() < 3 || parts.len() > 4 ==> (r matches Err(m) && m@
                    == "Invalid version format"@))
                &&& ((parts.len() == 3 || parts.len() == 4) && version_part(parts[0]) is None ==> (
                r matches Err(m) && m@ == "Invalid major version"@))
                &&& ((parts.len() == 3 || parts.len() == 4) && version_part(parts[0]) is Some
                    && version_part(parts[1]) is None ==> (r matches Err(m) && m@
                    == "Invalid minor version"@))
                &&& ((parts.len() == 3 || parts.len() == 4) && version_part(parts[0]) is Some
                    && version_part(parts[1]) is Some && version_part(parts[2]) is None ==> (r
                    matches Err(m) && m@ == "Invalid patch version"@))
                &&& (parts.len() == 4 && version_part(parts[0]) is Some && version_part(
                    parts[1],
                ) is Some && version_part(parts[2]) is Some && version_part(parts[3]) is None ==> (
                r matches Err(m) && m@ == "Invalid build number"@))
            }),
    {
        let chars = str_to_chars(s);
        let parts = split_chars(&chars, '.');
        proof {
            assert(forall|k: int|
                0 <= k < parts@.len() ==> parts@.map_values(|p: Vec<char>| p@)[k] == #[trigger] (
                parts@[k]@));
        }
        if parts.len() < 3 || parts.len() > 4 {
            return Err("Invalid version format");
        }
        let major = match parse_uint_chars(&parts[0], 10, 0xFFFF) {
            Some(x) => x as u16,
            None => {
                return Err("Invalid major version");
            },
        };
        let minor = match parse_uint_chars(&parts[1], 10, 0xFFFF) {
            Some(x) => x as u16,
            None => {
                return Err("Invalid minor version");
            },
        };
        let patch = match parse_uint_chars(&parts[2], 10, 0xFFFF) {
            Some(x) => x as u16,
            None => {
                return Err("Invalid patch version");
            },
        };
        let build = if parts.len() > 3 {
            match parse_uint_chars(&parts[3], 10, 0xFFFF) {
                Some(x) => x as u16,
                None => {
                    return Err("Invalid build number");
                },
            }
        } else {
            0
        };
        Ok(Self { major, minor, patch, build })
    }

    /// Renders the version as dot-separated decimal fields, leaving a
    /// zero build number off.
    pub fn to_string(self) -> (s: String)
        ensures
            s@ == version_str(self),
    {
        proof {
            reveal_strlit(".");
        }
        let mut s = u64_to_dec(self.major as u64);
        s.append(".");
        s.append(u64_to_dec(self.minor as u64).as_str());
        s.append(".");
        s.append(u64_to_dec(self.patch as u64).as_str());
        if self.build != 0 {
            s.append(".");
            s.append(u64_to_dec(self.build as u64).as_str());
        }
        proof {
            assert("."@ =~= seq!['.']);
            assert(s@ =~= version_str(self));
        }
        s
    }

    /// Two versions are compatible exactly when their major versions
    /// agree.
    pub fn is_compatible_with(self, other: Version) -> (r: bool)
        ensures
            r == (self.major == other.major),
    {
        self.major == other.major
    }
}

/// Reading a decimal digit character back gives the digit.
proof fn lemma_dec_digit_value(d: int)
    requires
        0 <= d < 10,
    ensures
        digit_v(dec_digit(d)) == d,
{
}

/// A decimal rendering is never empty, every character is a decimal
/// digit, and it reads back to the number it renders.
proof fn lemma_dec_str_reads_back(n: nat)
    ensures
        dec_str(n).len() >= 1,
        all_radix_digits(dec_str(n), 10),
        radix_val(dec_str(n), 10) == n,
    decreases n,
{
    if n < 10 {
        lemma_dec_digit_value(n as int);
        let whole = dec_str(n);
        assert(whole.drop_last() =~= Seq::<char>::empty());
        assert(radix_val(whole, 10) == radix_val(whole.drop_last(), 10) * 10 + n);
    } else {
        lemma_dec_str_reads_back(n / 10);
        lemma_dec_digit_value((n % 10) as int);
        let prev = dec_str(n / 10);
        let whole = dec_str(n);
        assert(whole.drop_last() =~= prev);
        assert(whole.last() == dec_digit((n % 10) as int));
        assert(radix_val(whole, 10) == radix_val(prev, 10) * 10 + n % 10);
        assert((n / 10) * 10 + n % 10 == n) by (nonlinear_arith);
        assert forall|i: int| 0 <= i < whole.len() implies digit_v(whole[i]) < 10 by {
            if i < prev.len() {
                assert(whole[i] == prev[i]);
                assert(digit_v(prev[i]) < 10);
            } else {
                assert(whole[i] == dec_digit((n % 10) as int));
            }
        }
    }
}

/// A decimal rendering of a 16-bit field parses back to the field.
proof fn lemma_version_part_dec(v: u16)
    ensures
        version_part(dec_str(v as nat)) == Some(v as nat),
{
    let s = dec_str(v as nat);
    lemma_dec_str_reads_back(v as nat);
    assert(digit_v(s[0]) < 10);
    assert(digit_v('+') == 99);
    assert(s[0] != '+');
}

/// No character of a decimal rendering is a dot.
proof fn lemma_dec_str_no_dot(n: nat)
    ensures
        forall|i: int| 0 <= i < dec_str(n).len() ==> dec_str(n)[i] != '.',
{
    lemma_dec_str_reads_back(n);
    let s = dec_str(n);
    assert forall|i: int| 0 <= i < s.len() implies s[i] != '.' by {
        assert(digit_v(s[i]) < 10);
        assert(digit_v('.') == 99);
    }
}

/// The text of a version parses back to the version: its dot-split
/// has three groups, or four when the build number is non-zero, and
/// each group reads back the corresponding field. With the contract
/// of `parse`, parsing `to_string`'s result therefore returns the
/// version itself.
#[verifier::rlimit(100)]
pub proof fn lemma_version_text_parses_back(v: Version)
    ensures
        ({
            let parts = split_on(version_str(v), '.');
            &&& parts.len() == (if v.build == 0 {
                3int
            } else {
                4int
            })
            &&& version_part(parts[0]) == Some(v.major as nat)
            &&& version_part(parts[1]) == Some(v.minor as nat)
            &&& version_part(parts[2]) == Some(v.patch as nat)
            &&& v.build != 0 ==> version_part(parts[3]) == Some(v.build as nat)
        }),
{
    let pa = dec_str(v.major as nat);
    let pb = dec_str(v.minor as nat);
    let pc = dec_str(v.patch as nat);
    lemma_dec_str_no_dot(v.major as nat);
    lemma_dec_str_no_dot(v.minor as nat);
    lemma_dec_str_no_dot(v.patch as nat);
    lemma_version_part_dec(v.major);
    lemma_version_part_dec(v.minor);
    lemma_version_part_dec(v.patch);
    if v.build == 0 {
        let tail_b = pb + seq!['.'] + pc;
        assert(version_str(v) =~= pa + seq!['.'] + tail_b);
        lemma_split_on_no_sep(pc, '.');
        lemma_split_on_prefix(pb, pc, '.');
        lemma_split_on_prefix(pa, tail_b, '.');
        assert(split_on(version_str(v), '.') =~= seq![pa, pb, pc]);
    } else {
        let pd = dec_str(v.build as nat);
        lemma_dec_str_no_dot(v.build as nat);
        lemma_version_part_dec(v.build);
        let tail_c = pc + seq!['.'] + pd;
        let tail_b = pb + seq!['.'] + tail_c;
        assert(version_str(v) =~= pa + seq!['.'] + tail_b);
        lemma_split_on_no_sep(pd, '.');
        lemma_split_on_prefix(pc, pd, '.');
        lemma_split_on_prefix(pb, tail_c, '.');
        lemma_split_on_prefix(pa, tail_b, '.');
        assert(split_on(version_str(v), '.') =~= seq![pa, pb, pc, pd]);
    }
}

impl Default for Version {
    /// The default version is 1.0.0.0.
    fn default() -> (r: Self)
        ensures
            r == (Version { major: 1u16, minor: 0u16, patch: 0u16, build: 0u16 }),
    {
        Self::new(1, 0, 0, 0)
    }
}

} // verus!
