//! A hash set with engine-style method names.
//!
//! The contracts hold whenever the element type obeys the hash-table
//! key model (`vstd::std_specs::hash::obeys_key_model`), as every
//! primitive integer and boolean element does.

use vstd::prelude::*;
use std::collections::HashSet;
use std::hash::Hash;
use crate::tmap::map_contracts_hold;

verus! {

/// A hash set. Its view is the set of its elements.
#[derive(Debug)]
pub struct TSet<T: Eq + Hash> {
    data: HashSet<T>,
}

impl<T: Eq + Hash> View for TSet<T> {
    type V = Set<T>;

    closed spec fn view(&self) -> Set<T> {
        self.data@
    }
}

impl<T: Eq + Hash> TSet<T> {
    /// Create a new empty set.
    pub fn new() -> (r: Self)
        ensures
            r@ == Set::<T>::empty(),
    {
        Self { data: HashSet::new() }
    }

    /// Create an empty set with room for `capacity` elements.
    pub fn with_capacity(capacity: usize) -> (r: Self)
        ensures
            r@ == Set::<T>::empty(),
    {
        Self { data: HashSet::with_capacity(capacity) }
    }

    /// Create a set that takes its elements from a hash set.
    pub fn from_hash_set(set: HashSet<T>) -> (r: Self)
        ensures
            r@ == set@,
    {
        Self { data: set }
    }

    /// Gives the elements up as a hash set.
    pub fn into_hash_set(self) -> (r: HashSet<T>)
        ensures
            r@ == self@,
    {
        self.data
    }

    /// The number of elements as a 32-bit count, exact as long as it
    /// fits.
    pub fn num(&self) -> (r: i32)
        ensures
            map_contracts_hold::<T>() && self@.len() <= i32::MAX ==> r == self@.len(),
    {
        #[verifier::truncate]
        let r = self.data.len() as i32;
        r
    }

    /// The number of elements.
    pub fn len(&self) -> (r: usize)
        ensures
            map_contracts_hold::<T>() ==> r == self@.len(),
    {
        self.data.len()
    }

    /// Whether the set has no elements.
    pub fn is_empty(&self) -> (r: bool)
        ensures
            r == self@.is_empty(),
    {
        self.data.is_empty()
    }

    /// Adds an element; whether it was new.
    pub fn add(&mut self, item: T) -> (r: bool)
        ensures
            map_contracts_hold::<T>() ==> {
                &&& final(self)@ == old(self)@.insert(item)
                &&& r == !old(self)@.contains(item)
            },
    {
        self.data.insert(item)
    }

    /// Adds an element; whether it was new.
    pub fn insert(&mut self, item: T) -> (r: bool)
        ensures
            map_contracts_hold::<T>() ==> {
                &&& final(self)@ == old(self)@.insert(item)
                &&& r == !old(self)@.contains(item)
            },
    {
        self.data.insert(item)
    }

    /// Removes an element; whether it was there.
    pub fn remove(&mut self, item: &T) -> (r: bool)
        ensures
            map_contracts_hold::<T>() ==> {
                &&& final(self)@ == old(self)@.remove(*item)
                &&& r == old(self)@.contains(*item)
            },
    {
        self.data.remove(item)
    }

    /// Whether the set holds the element.
    pub fn contains(&self, item: &T) -> (r: bool)
        ensures
            map_contracts_hold::<T>() ==> r == self@.contains(*item),
    {
        self.data.contains(item)
    }

    /// Removes every element.
    pub fn empty(&mut self)
        ensures
            final(self)@ == Set::<T>::empty(),
    {
        self.data.clear();
    }

    /// Removes every element.
    pub fn clear(&mut self)
        ensures
            final(self)@ == Set::<T>::empty(),
    {
        self.data.clear();
    }

    /// Reserves room for at least `additional` more elements.
    pub fn reserve(&mut self, additional: usize)
        ensures
            final(self)@ == old(self)@,
    {
        self.data.reserve(additional);
    }
}

impl<T: Eq + Hash> Default for TSet<T> {
    /// The default set is empty.
    fn default() -> (r: Self)
        ensures
            r@ == Set::<T>::empty(),
    {
        Self::new()
    }
}

} // verus!
