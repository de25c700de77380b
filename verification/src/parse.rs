//! Verified parsing primitives: splitting text on a separator and reading
//! unsigned integers in a given radix, as the standard numeric parsers do.

use vstd::prelude::*;
use vstd::string::StrSliceExecFns;

verus! {

/// The numeric value of a digit character in radix up to 16
/// (`0-9`, `a-f`, `A-F`); any other character maps to 99.
pub open spec fn digit_v(c: char) -> int {
    let u = c as u32;
    if 48 <= u && u <= 57 {
        u - 48
    } else if 97 <= u && u <= 102 {
        u - 87
    } else if 65 <= u && u <= 70 {
        u - 55
    } else {
        99
    }
}

/// Whether `c` is a digit of the given radix.
pub open spec fn is_radix_digit(c: char, radix: nat) -> bool {
    digit_v(c) < radix
}

/// Whether every character of `s` is a digit of the given radix.
pub open spec fn all_radix_digits(s: Seq<char>, radix: nat) -> bool {
    forall|i: int| 0 <= i < s.len() ==> is_radix_digit(#[trigger] s[i], radix)
}

/// The value of `s` read as digits in the given radix, most significant
/// first; characters that are not digits contribute zero.
pub open spec fn radix_val(s: Seq<char>, radix: nat) -> nat
    decreases s.len(),
{
    if s.len() == 0 {
        0
    } else {
        let d = digit_v(s.last());
        radix_val(s.drop_last(), radix) * radix + (if 0 <= d < radix {
            d as nat
        } else {
            0
        })
    }
}

/// What the standard unsigned parsers accept: an optional leading `'+'`,
/// then at least one digit of the radix, with a value of at most `max`.
/// `None` on any other input.
pub open spec fn parse_uint_spec(s: Seq<char>, radix: nat, max: nat) -> Option<nat> {
    let body = if s.len() > 0 && s[0] == '+' {
        s.skip(1)
    } else {
        s
    };
    if body.len() > 0 && all_radix_digits(body, radix) && radix_val(body, radix) <= max {
        Some(radix_val(body, radix))
    } else {
        None
    }
}

/// The index of the first occurrence of `sep` in `s`, or -1 when absent.
pub open spec fn find_first(s: Seq<char>, sep: char) -> int
    decreases s.len(),
{
    if s.len() == 0 {
        -1
    } else if s[0] == sep {
        0
    } else {
        let r = find_first(s.skip(1), sep);
        if r < 0 {
            -1
        } else {
            r + 1
        }
    }
}

/// `s` split on `sep`: the parts between occurrences of the separator,
/// in order. The whole of `s` as one part when the separator is absent.
pub open spec fn split_on(s: Seq<char>, sep: char) -> Seq<Seq<char>>
    decreases s.len(),
{
    let f = find_first(s, sep);
    if f < 0 || f >= s.len() {
        seq![s]
    } else {
        seq![s.take(f)] + split_on(s.skip(f + 1), sep)
    }
}

/// Where the first occurrence of a separator lies: a characterisation of
/// `find_first` by the characters of `s`.
pub proof fn lemma_find_first(s: Seq<char>, sep: char)
    ensures
        find_first(s, sep) == -1 ==> forall|i: int| 0 <= i < s.len() ==> s[i] != sep,
        find_first(s, sep) >= 0 ==> {
            let f = find_first(s, sep);
            &&& 0 <= f < s.len()
            &&& s[f] == sep
            &&& forall|i: int| 0 <= i < f ==> s[i] != sep
        },
    decreases s.len(),
{
    if s.len() == 0 {
    } else if s[0] == sep {
    } else {
        lemma_find_first(s.skip(1), sep);
        let r = find_first(s.skip(1), sep);
        assert(forall|i: int| 0 <= i < s.skip(1).len() ==> s.skip(1)[i] == s[i + 1]);
        if r < 0 {
            assert forall|i: int| 0 <= i < s.len() implies s[i] != sep by {
                if i > 0 {
                    assert(s.skip(1)[i - 1] != sep);
                }
            }
        } else {
            assert(s[r + 1] == s.skip(1)[r]);
            assert forall|i: int| 0 <= i < r + 1 implies s[i] != sep by {
                if i > 0 {
                    assert(s.skip(1)[i - 1] != sep);
                }
            }
        }
    }
}

/// A position with the separator and none before it is exactly what
/// `find_first` returns.
pub proof fn lemma_find_first_is(s: Seq<char>, sep: char, k: int)
    requires
        0 <= k < s.len(),
        s[k] == sep,
        forall|i: int| 0 <= i < k ==> s[i] != sep,
    ensures
        find_first(s, sep) == k,
{
    lemma_find_first(s, sep);
    let f = find_first(s, sep);
    if f == -1 {
        assert(s[k] != sep);
    } else {
        if f < k {
            assert(s[f] != sep);
        }
        if k < f {
            assert(s[k] != sep);
        }
    }
}

/// Text without the separator splits into itself as the only part.
pub proof fn lemma_split_on_no_sep(s: Seq<char>, sep: char)
    requires
        forall|i: int| 0 <= i < s.len() ==> s[i] != sep,
    ensures
        split_on(s, sep) == seq![s],
{
    lemma_find_first(s, sep);
    if find_first(s, sep) >= 0 {
        assert(s[find_first(s, sep)] != sep);
    }
}

/// A separator after a clean prefix splits the prefix off: the split
/// of `a + sep + rest` is `a` followed by the split of `rest`.
pub proof fn lemma_split_on_prefix(a: Seq<char>, rest: Seq<char>, sep: char)
    requires
        forall|i: int| 0 <= i < a.len() ==> a[i] != sep,
    ensures
        split_on(a + seq![sep] + rest, sep) == seq![a] + split_on(rest, sep),
{
    let s = a + seq![sep] + rest;
    assert(s[a.len() as int] == sep);
    assert(forall|i: int| 0 <= i < a.len() ==> s[i] == a[i]);
    lemma_find_first_is(s, sep, a.len() as int);
    assert(s.take(a.len() as int) =~= a);
    assert(s.skip(a.len() as int + 1) =~= rest);
}

/// Reading more digits never lowers the value.
pub proof fn lemma_radix_val_monotone(s: Seq<char>, radix: nat, i: int, j: int)
    requires
        radix >= 1,
        0 <= i <= j <= s.len(),
    ensures
        radix_val(s.take(i), radix) <= radix_val(s.take(j), radix),
    decreases j - i,
{
    if i < j {
        lemma_radix_val_monotone(s, radix, i, j - 1);
        let t = s.take(j);
        assert(t.drop_last() =~= s.take(j - 1));
        assert(radix_val(s.take(j - 1), radix) * radix >= radix_val(s.take(j - 1), radix)) by (
        nonlinear_arith)
            requires
                radix >= 1,
                radix_val(s.take(j - 1), radix) >= 0,
        ;
    }
}

/// Copies the characters of `s` into a vector.
pub fn str_to_chars(s: &str) -> (v: Vec<char>)
    ensures
        v@ == s@,
{
    let n = s.unicode_len();
    let mut v: Vec<char> = Vec::new();
    let mut i: usize = 0;
    while i < n
        invariant
            n == s@.len(),
            0 <= i <= n,
            v@ == s@.take(i as int),
        decreases n - i,
    {
        let c = s.get_char(i);
        v.push(c);
        i = i + 1;
        proof {
            assert(v@ =~= s@.take(i as int));
        }
    }
    proof {
        assert(v@ =~= s@);
    }
    v
}

/// Copies `v[from..to]` into a new vector.
fn subvec(v: &Vec<char>, from: usize, to: usize) -> (r: Vec<char>)
    requires
        from <= to <= v@.len(),
    ensures
        r@ == v@.subrange(from as int, to as int),
{
    let mut r: Vec<char> = Vec::new();
    let mut j: usize = from;
    while j < to
        invariant
            from <= j <= to <= v@.len(),
            r@ == v@.subrange(from as int, j as int),
        decreases to - j,
    {
        r.push(v[j]);
        j = j + 1;
        proof {
            assert(r@ =~= v@.subrange(from as int, j as int));
        }
    }
    r
}

/// Splits `v` on the separator, as `split_on` describes.
pub fn split_chars(v: &Vec<char>, sep: char) -> (parts: Vec<Vec<char>>)
    ensures
        parts@.map_values(|p: Vec<char>| p@) == split_on(v@, sep),
{
    let mut parts: Vec<Vec<char>> = Vec::new();
    let mut start: usize = 0;
    let mut i: usize = 0;
    let n = v.len();
    proof {
        assert(v@.skip(0) =~= v@);
        assert(parts@.map_values(|p: Vec<char>| p@) + split_on(v@, sep) =~= split_on(v@, sep));
    }
    while i < n
        invariant
            n == v@.len(),
            0 <= start <= i <= n,
            split_on(v@, sep) == parts@.map_values(|p: Vec<char>| p@) + split_on(
                v@.skip(start as int),
                sep,
            ),
            forall|j: int| start <= j < i ==> v@[j] != sep,
        decreases n - i,
    {
        if v[i] == sep {
            let part = subvec(v, start, i);
            proof {
                let rest = v@.skip(start as int);
                assert(forall|j: int| 0 <= j < rest.len() ==> rest[j] == v@[j + start]);
                lemma_find_first_is(rest, sep, i - start);
                assert(rest.take(i - start) =~= v@.subrange(start as int, i as int));
                assert(rest.skip(i - start + 1) =~= v@.skip(i + 1));
                let with = parts@.map_values(|p: Vec<char>| p@).push(part@);
                assert(with =~= parts@.push(part).map_values(|p: Vec<char>| p@));
                assert(split_on(v@, sep) =~= with + split_on(v@.skip(i + 1), sep));
            }
            parts.push(part);
            start = i + 1;
        }
        i = i + 1;
    }
    let last = subvec(v, start, n);
    proof {
        let rest = v@.skip(start as int);
        assert(forall|j: int| 0 <= j < rest.len() ==> rest[j] == v@[j + start]);
        lemma_find_first(rest, sep);
        if find_first(rest, sep) >= 0 {
            let f = find_first(rest, sep);
            assert(v@[f + start] == sep);
        }
        assert(split_on(rest, sep) == seq![rest]);
        assert(last@ =~= rest);
        let with = parts@.map_values(|p: Vec<char>| p@).push(last@);
        assert(with =~= parts@.push(last).map_values(|p: Vec<char>| p@));
        assert(split_on(v@, sep) =~= with);
    }
    parts.push(last);
    parts
}

/// Reads `v` as an unsigned integer in the given radix, accepting an
/// optional leading `'+'` and rejecting values above `max`, exactly as
/// `parse_uint_spec` describes.
pub fn parse_uint_chars(v: &Vec<char>, radix: u32, max: u32) -> (r: Option<u32>)
    requires
        2 <= radix <= 16,
    ensures
        match r {
            Some(x) => parse_uint_spec(v@, radix as nat, max as nat) == Some(x as nat),
            None => parse_uint_spec(v@, radix as nat, max as nat) is None,
        },
{
    let n = v.len();
    let mut i: usize = 0;
    if n > 0 && v[0] == '+' {
        i = 1;
    }
    let start = i;
    let ghost body = if v@.len() > 0 && v@[0] == '+' {
        v@.skip(1)
    } else {
        v@
    };
    proof {
        assert(forall|j: int| 0 <= j < body.len() ==> body[j] == v@[j + start]);
    }
    if i == n {
        return None;
    }
    let mut acc: u64 = 0;
    while i < n
        invariant
            n == v@.len(),
            start <= i <= n,
            start <= 1,
            body == (if v@.len() > 0 && v@[0] == '+' {
                v@.skip(1)
            } else {
                v@
            }),
            body.len() == n - start,
            forall|j: int| 0 <= j < body.len() ==> body[j] == v@[j + start],
            2 <= radix <= 16,
            acc <= max,
            acc == radix_val(body.take(i - start), radix as nat),
            all_radix_digits(body.take(i - start), radix as nat),
        decreases n - i,
    {
        let c = v[i];
        let u = c as u32;
        let d: u32 = if 48 <= u && u <= 57 {
            u - 48
        } else if 97 <= u && u <= 102 {
            u - 87
        } else if 65 <= u && u <= 70 {
            u - 55
        } else {
            99
        };
        proof {
            assert(d == digit_v(c));
        }
        if d >= radix {
            proof {
                assert(body[i - start] == c);
                assert(is_radix_digit(body[i - start], radix as nat) == false);
                assert(!all_radix_digits(body, radix as nat));
            }
            return None;
        }
        proof {
            assert(acc as int * (radix as int) + (d as int) < 0x10_0000_0000int * 16) by (
            nonlinear_arith)
                requires
                    acc <= 0xFFFF_FFFFu32,
                    radix <= 16,
                    d < 16,
            ;
        }
        let acc2: u64 = acc * (radix as u64) + (d as u64);
        proof {
            let k = i - start;
            assert(body.take(k + 1).drop_last() =~= body.take(k));
            assert(body.take(k + 1).last() == body[k]);
            assert(radix_val(body.take(k + 1), radix as nat) == radix_val(
                body.take(k),
                radix as nat,
            ) * (radix as nat) + digit_v(c));
        }
        if acc2 > max as u64 {
            proof {
                lemma_radix_val_monotone(body, radix as nat, i - start + 1, body.len() as int);
                assert(body.take(body.len() as int) =~= body);
                assert(radix_val(body, radix as nat) > max);
            }
            return None;
        }
        acc = acc2;
        i = i + 1;
    }
    proof {
        assert(body.take(body.len() as int) =~= body);
    }
    Some(acc as u32)
}

} // verus!
