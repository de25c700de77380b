//! Interned-style names: a string with its hash cached for fast
//! comparison.

use vstd::prelude::*;
use vstd::string::StringSliceAdditionalSpecFns;
use vstd::utf8::encode_utf8;

verus! {

/// One step of the FNV-1a hash: fold a byte in, then multiply.
pub open spec fn fnv1a_step(h: u64, b: u8) -> u64 {
    (h ^ (b as u64)).wrapping_mul(0x100000001b3)
}

/// The FNV-1a hash of a byte sequence.
pub open spec fn fnv1a_bytes(bs: Seq<u8>) -> u64
    decreases bs.len(),
{
    if bs.len() == 0 {
        0xcbf29ce484222325
    } else {
        fnv1a_step(fnv1a_bytes(bs.drop_last()), bs.last())
    }
}

/// The hash of a name: FNV-1a over the UTF-8 bytes of its text.
pub open spec fn name_hash(s: Seq<char>) -> u64 {
    fnv1a_bytes(encode_utf8(s))
}

/// A name: its text together with the hash of that text. The cached
/// hash always matches the text. A name's view is its text.
#[derive(Debug)]
pub struct Name {
    value: String,
    hash: u64,
}

impl View for Name {
    type V = Seq<char>;

    closed spec fn view(&self) -> Seq<char> {
        self.value@
    }
}

impl Name {
    /// The cached hash is the hash of the text.
    #[verifier::type_invariant]
    closed spec fn wf(self) -> bool {
        self.hash == name_hash(self.value@)
    }

    /// Computes the FNV-1a hash of the UTF-8 bytes of `s`.
    fn hash_of(s: &str) -> (h: u64)
        ensures
            h == name_hash(s@),
    {
        let bytes = s.as_bytes();
        let n = bytes.len();
        let mut h: u64 = 0xcbf29ce484222325;
        let mut i: usize = 0;
        proof {
            assert(bytes@.take(0) =~= Seq::<u8>::empty());
        }
        while i < n
            invariant
                n == bytes@.len(),
                0 <= i <= n,
                bytes@ == s.spec_bytes(),
                h == fnv1a_bytes(bytes@.take(i as int)),
            decreases n - i,
        {
            h = (h ^ (bytes[i] as u64)).wrapping_mul(0x100000001b3);
            i = i + 1;
            proof {
                assert(bytes@.take(i as int).drop_last() =~= bytes@.take(i - 1));
                assert(bytes@.take(i as int).last() == bytes@[i - 1]);
            }
        }
        proof {
            assert(bytes@.take(n as int) =~= bytes@);
        }
        h
    }

    /// Create a name from its text, caching the hash of the text.
    pub fn new(value: &str) -> (r: Self)
        ensures
            r@ == value@,
    {
        let hash = Self::hash_of(value);
        Self { value: value.to_owned(), hash }
    }

    /// The text of the name.
    pub fn as_str(&self) -> (r: &str)
        ensures
            r@ == self@,
    {
        self.value.as_str()
    }

    /// The cached hash, always the hash of the text.
    pub fn hash(&self) -> (r: u64)
        ensures
            r == name_hash(self@),
    {
        proof {
            use_type_invariant(self);
        }
        self.hash
    }

    /// Whether the name has no text.
    pub fn is_empty(&self) -> (r: bool)
        ensures
            r == (self@.len() == 0),
    {
        self.value.as_str().is_empty()
    }

    /// The length of the text in UTF-8 bytes.
    pub fn len(&self) -> (r: usize)
        ensures
            r == encode_utf8(self@).len() as usize,
    {
        self.value.as_str().len()
    }
}

impl PartialEq for Name {
    /// Two names are equal when their texts and cached hashes agree.
    fn eq(&self, other: &Self) -> (r: bool) {
        proof {
            use_type_invariant(self);
            use_type_invariant(other);
        }
        self.value == other.value && self.hash == other.hash
    }
}

impl vstd::std_specs::cmp::PartialEqSpecImpl for Name {
    open spec fn obeys_eq_spec() -> bool {
        true
    }

    open spec fn eq_spec(&self, other: &Self) -> bool {
        self@ == other@
    }
}

impl Default for Name {
    /// The default name is empty.
    fn default() -> (r: Self)
        ensures
            r@ == Seq::<char>::empty(),
    {
        proof {
            reveal_strlit("");
            assert(""@ =~= Seq::<char>::empty());
        }
        Self::new("")
    }
}

} // verus!
