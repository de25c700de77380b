//! A growable array with engine-style method names, backed by a vector.

use vstd::prelude::*;
use vstd::laws_cmp::{obeys_cmp, obeys_cmp_ord, obeys_cmp_partial_ord,
    obeys_partial_cmp_spec_properties};
use vstd::seq_lib::lemma_multiset_commutative;
use vstd::std_specs::cmp::{OrdSpec, PartialEqSpec, PartialOrdSpec};
use vstd::string::StringExecFns;
use core::cmp::Ordering;
use crate::strfmt::{dec_str_signed, i64_to_dec};

verus! {

/// The index of the first element of `s` that equals `x` under the
/// type's own equality, or -1 when none does.
pub open spec fn first_match<T: PartialEq>(s: Seq<T>, x: &T) -> int
    decreases s.len(),
{
    if s.len() == 0 {
        -1
    } else if s[0].eq_spec(x) {
        0
    } else {
        let r = first_match(s.skip(1), x);
        if r < 0 {
            -1
        } else {
            r + 1
        }
    }
}

/// Where the first match lies: a characterisation of `first_match` by
/// the elements of `s`.
pub proof fn lemma_first_match<T: PartialEq>(s: Seq<T>, x: &T)
    ensures
        first_match(s, x) == -1 ==> forall|i: int| 0 <= i < s.len() ==> !s[i].eq_spec(x),
        first_match(s, x) >= 0 ==> {
            let f = first_match(s, x);
            &&& 0 <= f < s.len()
            &&& s[f].eq_spec(x)
            &&& forall|i: int| 0 <= i < f ==> !s[i].eq_spec(x)
        },
    decreases s.len(),
{
    if s.len() == 0 {
    } else if s[0].eq_spec(x) {
    } else {
        lemma_first_match(s.skip(1), x);
        let r = first_match(s.skip(1), x);
        assert(forall|i: int| 0 <= i < s.skip(1).len() ==> s.skip(1)[i] == s[i + 1]);
        if r < 0 {
            assert forall|i: int| 0 <= i < s.len() implies !s[i].eq_spec(x) by {
                if i > 0 {
                    assert(!s.skip(1)[i - 1].eq_spec(x));
                }
            }
        } else {
            assert(s[r + 1] == s.skip(1)[r]);
            assert forall|i: int| 0 <= i < r + 1 implies !s[i].eq_spec(x) by {
                if i > 0 {
                    assert(!s.skip(1)[i - 1].eq_spec(x));
                }
            }
        }
    }
}

/// A mutable reference into a slice at an index; what the caller
/// writes through it replaces that element.
fn slice_get_mut<T>(sl: &mut [T], i: usize) -> (r: &mut T)
    requires
        i < old(sl)@.len(),
    ensures
        *r == old(sl)@[i as int],
        final(sl)@ == old(sl)@.update(i as int, *final(r)),
{
    let (left, right) = sl.split_at_mut(i);
    let r = right.first_mut().unwrap();
    proof {
        assert(final(left)@ == left@);
        assert(old(sl)@.update(i as int, *final(r)) =~= left@ + old(sl)@.skip(i as int).update(
            0,
            *final(r),
        ));
    }
    r
}

/// A growable array. Its view is the sequence of its elements.
#[derive(Debug, Clone, PartialEq, Eq)]
pub struct TArray<T> {
    data: Vec<T>,
}

impl<T> View for TArray<T> {
    type V = Seq<T>;

    closed spec fn view(&self) -> Seq<T> {
        self.data@
    }
}

impl<T> TArray<T> {
    /// Create a new empty array.
    pub fn new() -> (r: Self)
        ensures
            r@ == Seq::<T>::empty(),
    {
        Self { data: Vec::new() }
    }

    /// Create an empty array with room for `capacity` elements.
    pub fn with_capacity(capacity: usize) -> (r: Self)
        ensures
            r@ == Seq::<T>::empty(),
    {
        Self { data: Vec::with_capacity(capacity) }
    }

    /// Create an array that takes its elements from a vector.
    pub fn from_vec(vec: Vec<T>) -> (r: Self)
        ensures
            r@ == vec@,
    {
        Self { data: vec }
    }

    /// Gives the elements up as a vector.
    pub fn into_vec(self) -> (r: Vec<T>)
        ensures
            r@ == self@,
    {
        self.data
    }

    /// The number of elements as a 32-bit count, exact as long as the
    /// length fits it.
    pub fn num(&self) -> (r: i32)
        ensures
            self@.len() <= i32::MAX ==> r == self@.len(),
    {
        #[verifier::truncate]
        let r = self.data.len() as i32;
        r
    }

    /// The number of elements.
    pub fn len(&self) -> (r: usize)
        ensures
            r == self@.len(),
    {
        self.data.len()
    }

    /// Whether the array has no elements.
    pub fn is_empty(&self) -> (r: bool)
        ensures
            r == (self@.len() == 0),
    {
        self.data.is_empty()
    }

    /// Relies on Vec::capacity: how many elements the array can hold
    /// before reallocating, never fewer than it holds now.
    #[verifier::external_body]
    pub fn capacity(&self) -> (r: usize)
        ensures
            r >= self@.len(),
    {
        self.data.capacity()
    }

    /// Appends an element and returns its index as a 32-bit count,
    /// exact as long as it fits.
    pub fn add(&mut self, item: T) -> (r: i32)
        ensures
            final(self)@ == old(self)@.push(item),
            old(self)@.len() < i32::MAX ==> r == old(self)@.len(),
    {
        self.data.push(item);
        #[verifier::truncate]
        let r = (self.data.len() - 1) as i32;
        r
    }

    /// Appends an element.
    pub fn push(&mut self, item: T)
        ensures
            final(self)@ == old(self)@.push(item),
    {
        self.data.push(item);
    }

    /// Removes and returns the last element, `None` when the array is
    /// empty.
    pub fn pop(&mut self) -> (r: Option<T>)
        ensures
            old(self)@.len() > 0 ==> (r matches Some(v) && v == old(self)@.last() && final(self)@
                == old(self)@.drop_last()),
            old(self)@.len() == 0 ==> r is None && final(self)@ == old(self)@,
    {
        self.data.pop()
    }

    /// Inserts an element at an index, shifting what follows; out of
    /// range, the array is left alone.
    pub fn insert(&mut self, index: i32, item: T)
        ensures
            0 <= index && index as int <= old(self)@.len() ==> final(self)@ == old(self)@.insert(
                index as int,
                item,
            ),
            !(0 <= index && index as int <= old(self)@.len()) ==> final(self)@ == old(self)@,
    {
        if index >= 0 && (index as usize) <= self.data.len() {
            self.data.insert(index as usize, item);
        }
    }

    /// Removes and returns the element at an index, shifting what
    /// follows; `None` out of range.
    pub fn remove_at(&mut self, index: i32) -> (r: Option<T>)
        ensures
            0 <= index && (index as int) < old(self)@.len() ==> (r matches Some(v) && v == old(
                self,
            )@[index as int] && final(self)@ == old(self)@.remove(index as int)),
            !(0 <= index && (index as int) < old(self)@.len()) ==> r is None && final(self)@ == old(
                self,
            )@,
    {
        if index >= 0 && (index as usize) < self.data.len() {
            Some(self.data.remove(index as usize))
        } else {
            None
        }
    }

    /// Removes every element.
    pub fn empty(&mut self)
        ensures
            final(self)@ == Seq::<T>::empty(),
    {
        self.data.clear();
    }

    /// Removes every element.
    pub fn clear(&mut self)
        ensures
            final(self)@ == Seq::<T>::empty(),
    {
        self.data.clear();
    }

    /// Reserves room for at least `additional` more elements.
    pub fn reserve(&mut self, additional: usize)
        ensures
            final(self)@ == old(self)@,
    {
        self.data.reserve(additional);
    }

    /// A reference to the element at an index, `None` out of range.
    pub fn get(&self, index: i32) -> (r: Option<&T>)
        ensures
            0 <= index && (index as int) < self@.len() ==> (r matches Some(v) && *v
                == self@[index as int]),
            !(0 <= index && (index as int) < self@.len()) ==> r is None,
    {
        if index >= 0 && (index as usize) < self.data.len() {
            Some(&self.data[index as usize])
        } else {
            None
        }
    }

    /// Whether an index lies within the array.
    pub fn is_valid_index(&self, index: i32) -> (r: bool)
        ensures
            r == (0 <= index && (index as int) < self@.len()),
    {
        index >= 0 && (index as usize) < self.data.len()
    }

    /// A reference to the last element, `None` when the array is empty.
    pub fn last(&self) -> (r: Option<&T>)
        ensures
            self@.len() > 0 ==> (r matches Some(v) && *v == self@.last()),
            self@.len() == 0 ==> r is None,
    {
        self.data.as_slice().last()
    }

    /// Moves every element of `other` to the end of this array,
    /// leaving `other` empty.
    pub fn append(&mut self, other: &mut TArray<T>)
        ensures
            final(self)@ == old(self)@ + old(other)@,
            final(other)@ == Seq::<T>::empty(),
    {
        self.data.append(&mut other.data);
    }

    /// The elements as a slice.
    pub fn as_slice(&self) -> (r: &[T])
        ensures
            r@ == self@,
    {
        self.data.as_slice()
    }

    /// The elements as a mutable slice; what the caller writes through
    /// it becomes the array's contents.
    pub fn as_mut_slice(&mut self) -> (r: &mut [T])
        ensures
            r@ == old(self)@,
            final(self)@ == final(r)@,
    {
        self.data.as_mut_slice()
    }

    /// A mutable reference to the element at an index, `None` out of
    /// range; what the caller writes through it replaces that element.
    pub fn get_mut(&mut self, index: i32) -> (r: Option<&mut T>)
        ensures
            0 <= index && (index as int) < old(self)@.len() ==> (r matches Some(v) && *v == old(
                self,
            )@[index as int] && final(self)@ == old(self)@.update(index as int, *final(v))),
            !(0 <= index && (index as int) < old(self)@.len()) ==> r is None && final(self)@ == old(
                self,
            )@,
    {
        if index >= 0 && (index as usize) < self.data.len() {
            Some(slice_get_mut(self.data.as_mut_slice(), index as usize))
        } else {
            None
        }
    }

    /// A mutable reference to the last element, `None` when the array
    /// is empty; what the caller writes through it replaces that
    /// element.
    pub fn last_mut(&mut self) -> (r: Option<&mut T>)
        ensures
            old(self)@.len() > 0 ==> (r matches Some(v) && *v == old(self)@.last() && final(self)@
                == old(self)@.update(old(self)@.len() - 1, *final(v))),
            old(self)@.len() == 0 ==> r is None && final(self)@ == old(self)@,
    {
        self.data.as_mut_slice().last_mut()
    }
}

impl<T: Default + Clone> TArray<T> {
    /// Resizes the array to `new_size` elements, filling new slots with
    /// the type's default value; a negative size is ignored.
    pub fn set_num(&mut self, new_size: i32)
        ensures
            new_size >= 0 ==> final(self)@.len() == new_size,
            0 <= new_size && new_size as int <= old(self)@.len() ==> final(self)@ == old(
                self,
            )@.subrange(0, new_size as int),
            new_size as int > old(self)@.len() ==> final(self)@.subrange(
                0,
                old(self)@.len() as int,
            ) == old(self)@,
            new_size < 0 ==> final(self)@ == old(self)@,
    {
        if new_size >= 0 {
            self.data.resize(new_size as usize, T::default());
        }
    }
}

impl<T: PartialEq> TArray<T> {
    /// Whether some element equals `item`, under the type's own
    /// equality.
    pub fn contains(&self, item: &T) -> (r: bool)
        ensures
            T::obeys_eq_spec() ==> r == exists|i: int|
                0 <= i < self@.len() && self@[i].eq_spec(item),
    {
        let n = self.data.len();
        let mut j: usize = 0;
        while j < n
            invariant
                n == self@.len(),
                0 <= j <= n,
                T::obeys_eq_spec() ==> forall|k: int| 0 <= k < j ==> !self@[k].eq_spec(item),
            decreases n - j,
        {
            if self.data[j].eq(item) {
                return true;
            }
            j = j + 1;
        }
        false
    }

    /// The index of the first element that equals `item`, or -1 when
    /// none does; exact as long as the index fits a 32-bit count.
    pub fn find(&self, item: &T) -> (r: i32)
        ensures
            T::obeys_eq_spec() && first_match(self@, item) <= i32::MAX ==> r == first_match(
                self@,
                item,
            ),
    {
        let n = self.data.len();
        let mut j: usize = 0;
        while j < n
            invariant
                n == self@.len(),
                0 <= j <= n,
                T::obeys_eq_spec() ==> forall|k: int| 0 <= k < j ==> !self@[k].eq_spec(item),
            decreases n - j,
        {
            if self.data[j].eq(item) {
                proof {
                    if T::obeys_eq_spec() {
                        lemma_first_match(self@, item);
                        if first_match(self@, item) != j {
                            assert(false);
                        }
                    }
                }
                #[verifier::truncate]
                let r = j as i32;
                return r;
            }
            j = j + 1;
        }
        proof {
            if T::obeys_eq_spec() {
                lemma_first_match(self@, item);
            }
        }
        -1
    }

    /// Removes the first element that equals `item`; whether one was
    /// there.
    pub fn remove(&mut self, item: &T) -> (r: bool)
        ensures
            T::obeys_eq_spec() ==> {
                let f = first_match(old(self)@, item);
                &&& r == (f >= 0)
                &&& f >= 0 ==> final(self)@ == old(self)@.remove(f)
                &&& f < 0 ==> final(self)@ == old(self)@
            },
    {
        let n = self.data.len();
        let mut j: usize = 0;
        while j < n
            invariant
                n == self@.len(),
                0 <= j <= n,
                self@ == old(self)@,
                T::obeys_eq_spec() ==> forall|k: int| 0 <= k < j ==> !self@[k].eq_spec(item),
            decreases n - j,
        {
            if self.data[j].eq(item) {
                proof {
                    if T::obeys_eq_spec() {
                        lemma_first_match(self@, item);
                        if first_match(self@, item) != j {
                            assert(false);
                        }
                    }
                }
                self.data.remove(j);
                return true;
            }
            j = j + 1;
        }
        proof {
            if T::obeys_eq_spec() {
                lemma_first_match(self@, item);
            }
        }
        false
    }
}

/// No element is greater than the one after it, under the type's own
/// order.
pub open spec fn nondescending<T: Ord>(s: Seq<T>) -> bool {
    forall|k: int|
        0 <= k < s.len() - 1 ==> (#[trigger] s[k].cmp_spec(&s[k + 1])) != Ordering::Greater
}

/// Under a lawful order, one element greater than another means the
/// other is less than it.
proof fn lemma_greater_flips<T: Ord>(x: T, y: T)
    requires
        obeys_cmp::<T>(),
        x.cmp_spec(&y) == Ordering::Greater,
    ensures
        y.cmp_spec(&x) == Ordering::Less,
{
    reveal(obeys_cmp_ord);
    reveal(obeys_partial_cmp_spec_properties);
    assert(x.partial_cmp_spec(&y) == Some(Ordering::Greater));
    assert(y.partial_cmp_spec(&x) == Some(Ordering::Less));
}

impl<T: Ord> TArray<T> {
    /// Sorts the array in place by the type's own order: afterwards no
    /// element is greater than its successor, and the elements are a
    /// rearrangement of what they were. The order statement holds
    /// whenever the order is lawful (`vstd::laws_cmp::obeys_cmp`), as
    /// it is for every primitive integer.
    pub fn sort(&mut self)
        ensures
            final(self)@.to_multiset() == old(self)@.to_multiset(),
            final(self)@.len() == old(self)@.len(),
            obeys_cmp::<T>() ==> nondescending(final(self)@),
    {
        let n = self.data.len();
        let mut i: usize = 1;
        while i < n
            invariant
                n == self@.len(),
                i >= 1,
                self@.to_multiset() == old(self)@.to_multiset(),
                obeys_cmp::<T>() ==> forall|k: int|
                    0 <= k < i - 1 ==> (#[trigger] self@[k].cmp_spec(&self@[k + 1]))
                        != Ordering::Greater,
            decreases n - i,
        {
            let ghost orig = self@;
            let key = self.data.remove(i);
            let mut j: usize = i;
            while j > 0 && self.data[j - 1].gt(&key)
                invariant
                    0 <= j <= i < n,
                    n == orig.len(),
                    self@ == orig.remove(i as int),
                    key == orig[i as int],
                    orig.to_multiset() == old(self)@.to_multiset(),
                    obeys_cmp::<T>() ==> forall|k: int|
                        j <= k < i ==> (#[trigger] orig[k].cmp_spec(&orig[i as int]))
                            == Ordering::Greater,
                    obeys_cmp::<T>() ==> forall|k: int|
                        0 <= k < i - 1 ==> (#[trigger] orig[k].cmp_spec(&orig[k + 1]))
                            != Ordering::Greater,
                decreases j,
            {
                proof {
                    if obeys_cmp::<T>() {
                        reveal(obeys_cmp_partial_ord);
                        reveal(obeys_cmp_ord);
                        assert(self@[j - 1] == orig[j - 1]);
                        assert(orig[j - 1].partial_cmp_spec(&orig[i as int]) == Some(
                            orig[j - 1].cmp_spec(&orig[i as int]),
                        ));
                    }
                }
                j = j - 1;
            }
            proof {
                let jj = j as int;
                let ii = i as int;
                let nn = n as int;
                if obeys_cmp::<T>() {
                    reveal(obeys_cmp_partial_ord);
                    reveal(obeys_cmp_ord);
                    if j > 0 {
                        assert(self@[jj - 1] == orig[jj - 1]);
                        assert(orig[jj - 1].partial_cmp_spec(&orig[ii]) == Some(
                            orig[jj - 1].cmp_spec(&orig[ii]),
                        ));
                        assert(orig[jj - 1].cmp_spec(&orig[ii]) != Ordering::Greater);
                    }
                    if j < i {
                        lemma_greater_flips(orig[jj], orig[ii]);
                    }
                }
                // The multiset is unchanged: both the old and the new
                // sequence decompose into the same three pieces plus the
                // moved element.
                let removed = orig.remove(ii);
                let inserted = removed.insert(jj, orig[ii]);
                assert(removed =~= orig.take(ii) + orig.skip(ii + 1));
                assert(inserted =~= orig.take(jj) + seq![orig[ii]] + (orig.subrange(jj, ii)
                    + orig.skip(ii + 1)));
                assert(orig =~= orig.take(ii) + (seq![orig[ii]] + orig.skip(ii + 1)));
                assert(orig.take(ii) =~= orig.take(jj) + orig.subrange(jj, ii));
                lemma_multiset_commutative(orig.take(ii), seq![orig[ii]] + orig.skip(ii + 1));
                lemma_multiset_commutative(seq![orig[ii]], orig.skip(ii + 1));
                lemma_multiset_commutative(orig.take(jj), orig.subrange(jj, ii));
                lemma_multiset_commutative(
                    orig.take(jj) + seq![orig[ii]],
                    orig.subrange(jj, ii) + orig.skip(ii + 1),
                );
                lemma_multiset_commutative(orig.take(jj), seq![orig[ii]]);
                lemma_multiset_commutative(orig.subrange(jj, ii), orig.skip(ii + 1));
                assert(inserted.to_multiset() =~= orig.to_multiset());
            }
            self.data.insert(j, key);
            proof {
                let jj = j as int;
                let ii = i as int;
                assert(self@ =~= orig.take(jj) + seq![orig[ii]] + (orig.subrange(jj, ii)
                    + orig.skip(ii + 1)));
                assert(forall|k: int| 0 <= k < jj ==> self@[k] == orig[k]);
                assert(self@[jj] == orig[ii]);
                assert(forall|k: int| jj < k <= ii ==> self@[k] == orig[k - 1]);
                if obeys_cmp::<T>() {
                    assert forall|k: int|
                        0 <= k < i implies (#[trigger] self@[k].cmp_spec(&self@[k + 1]))
                        != Ordering::Greater by {
                        if k < jj - 1 {
                            assert(self@[k] == orig[k] && self@[k + 1] == orig[k + 1]);
                            assert(orig[k].cmp_spec(&orig[k + 1]) != Ordering::Greater);
                        } else if k == jj - 1 {
                            assert(self@[k] == orig[k] && self@[k + 1] == orig[ii]);
                            assert(orig[jj - 1].cmp_spec(&orig[ii]) != Ordering::Greater);
                        } else if k == jj {
                            assert(self@[k] == orig[ii] && self@[k + 1] == orig[jj]);
                            assert(orig[jj].cmp_spec(&orig[ii]) == Ordering::Greater);
                            assert(orig[ii].cmp_spec(&orig[jj]) == Ordering::Less);
                        } else {
                            let km = k - 1;
                            assert(self@[k] == orig[km] && self@[k + 1] == orig[km + 1]);
                            assert(orig[km].cmp_spec(&orig[km + 1]) != Ordering::Greater);
                        }
                    }
                }
            }
            i = i + 1;
        }
    }
}

impl TArray<i32> {
    /// Renders the elements in decimal between brackets, separated by
    /// commas.
    pub fn to_display_string(&self) -> (s: String)
        ensures
            s@ == "TArray["@ + int_list_str(self@) + "]"@,
    {
        let mut s: String = "TArray[".to_owned();
        let n = self.data.len();
        let mut i: usize = 0;
        proof {
            assert(self@.take(0) =~= Seq::<i32>::empty());
        }
        while i < n
            invariant
                n == self@.len(),
                0 <= i <= n,
                s@ == "TArray["@ + int_list_str(self@.take(i as int)),
            decreases n - i,
        {
            if i > 0 {
                s.append(", ");
            }
            s.append(i64_to_dec(self.data[i] as i64).as_str());
            i = i + 1;
            proof {
                reveal_strlit(", ");
                assert(self@.take(i as int).drop_last() =~= self@.take(i - 1));
                assert(", "@ =~= seq![',', ' ']);
                assert(s@ =~= "TArray["@ + int_list_str(self@.take(i as int)));
            }
        }
        s.append("]");
        proof {
            assert(self@.take(n as int) =~= self@);
        }
        s
    }
}

/// Signed decimal renderings of the elements, joined by a comma and a
/// space.
pub open spec fn int_list_str(s: Seq<i32>) -> Seq<char>
    decreases s.len(),
{
    if s.len() == 0 {
        Seq::empty()
    } else if s.len() == 1 {
        dec_str_signed(s[0] as int)
    } else {
        int_list_str(s.drop_last()) + seq![',', ' '] + dec_str_signed(s.last() as int)
    }
}

impl<T> Default for TArray<T> {
    /// The default array is empty.
    fn default() -> (r: Self)
        ensures
            r@ == Seq::<T>::empty(),
    {
        Self::new()
    }
}

} // verus!
