//! A hash map with engine-style method names.
//!
//! The contracts hold whenever the key type obeys the hash-table key
//! model (`vstd::std_specs::hash::obeys_key_model`), as every primitive
//! integer and boolean key does.

use vstd::prelude::*;
use vstd::std_specs::hash::obeys_key_model;
use std::collections::HashMap;
use std::hash::Hash;

verus! {

/// Whether contracts over a map keyed by `K` are meaningful: the key
/// type must obey the hash-table key model.
pub open spec fn map_contracts_hold<K: ?Sized>() -> bool {
    obeys_key_model::<K>()
}

/// A hash map. Its view is the map of its entries.
#[derive(Debug, Clone)]
pub struct TMap<K: Eq + Hash, V> {
    data: HashMap<K, V>,
}

impl<K: Eq + Hash, V> View for TMap<K, V> {
    type V = Map<K, V>;

    closed spec fn view(&self) -> Map<K, V> {
        self.data@
    }
}

impl<K: Eq + Hash, V> TMap<K, V> {
    /// Create a new empty map.
    pub fn new() -> (r: Self)
        ensures
            r@ == Map::<K, V>::empty(),
    {
        Self { data: HashMap::new() }
    }

    /// Create an empty map with room for `capacity` entries.
    pub fn with_capacity(capacity: usize) -> (r: Self)
        ensures
            r@ == Map::<K, V>::empty(),
    {
        Self { data: HashMap::with_capacity(capacity) }
    }

    /// Create a map that takes its entries from a hash map.
    pub fn from_hash_map(map: HashMap<K, V>) -> (r: Self)
        ensures
            r@ == map@,
    {
        Self { data: map }
    }

    /// Gives the entries up as a hash map.
    pub fn into_hash_map(self) -> (r: HashMap<K, V>)
        ensures
            r@ == self@,
    {
        self.data
    }

    /// The number of entries as a 32-bit count, exact as long as it
    /// fits.
    pub fn num(&self) -> (r: i32)
        ensures
            map_contracts_hold::<K>() && self@.len() <= i32::MAX ==> r == self@.len(),
    {
        #[verifier::truncate]
        let r = self.data.len() as i32;
        r
    }

    /// The number of entries.
    pub fn len(&self) -> (r: usize)
        ensures
            map_contracts_hold::<K>() ==> r == self@.len(),
    {
        self.data.len()
    }

    /// Whether the map has no entries.
    pub fn is_empty(&self) -> (r: bool)
        ensures
            r == self@.is_empty(),
    {
        self.data.is_empty()
    }

    /// Inserts an entry, returning the value the key held before, if
    /// any.
    pub fn add(&mut self, key: K, value: V) -> (r: Option<V>)
        ensures
            map_contracts_hold::<K>() ==> {
                &&& final(self)@ == old(self)@.insert(key, value)
                &&& (r matches Some(v) ==> old(self)@.contains_key(key) && v == old(self)@[key])
                &&& (r is None ==> !old(self)@.contains_key(key))
            },
    {
        self.data.insert(key, value)
    }

    /// Inserts an entry, returning the value the key held before, if
    /// any.
    pub fn insert(&mut self, key: K, value: V) -> (r: Option<V>)
        ensures
            map_contracts_hold::<K>() ==> {
                &&& final(self)@ == old(self)@.insert(key, value)
                &&& (r matches Some(v) ==> old(self)@.contains_key(key) && v == old(self)@[key])
                &&& (r is None ==> !old(self)@.contains_key(key))
            },
    {
        self.data.insert(key, value)
    }

    /// Removes a key, returning the value it held, if any.
    pub fn remove(&mut self, key: &K) -> (r: Option<V>)
        ensures
            map_contracts_hold::<K>() ==> {
                &&& final(self)@ == old(self)@.remove(*key)
                &&& (r matches Some(v) ==> old(self)@.contains_key(*key) && v == old(self)@[*key])
                &&& (r is None ==> !old(self)@.contains_key(*key))
            },
    {
        self.data.remove(key)
    }

    /// Whether the map holds the key.
    pub fn contains(&self, key: &K) -> (r: bool)
        ensures
            map_contracts_hold::<K>() ==> r == self@.contains_key(*key),
    {
        self.data.contains_key(key)
    }

    /// A reference to the value a key holds, `None` when the key is
    /// absent.
    pub fn find(&self, key: &K) -> (r: Option<&V>)
        ensures
            map_contracts_hold::<K>() ==> {
                &&& (r matches Some(v) ==> self@.contains_key(*key) && *v == self@[*key])
                &&& (r is None ==> !self@.contains_key(*key))
            },
    {
        self.data.get(key)
    }

    /// Removes every entry.
    pub fn empty(&mut self)
        ensures
            final(self)@ == Map::<K, V>::empty(),
    {
        self.data.clear();
    }

    /// Removes every entry.
    pub fn clear(&mut self)
        ensures
            final(self)@ == Map::<K, V>::empty(),
    {
        self.data.clear();
    }

    /// Reserves room for at least `additional` more entries.
    pub fn reserve(&mut self, additional: usize)
        ensures
            final(self)@ == old(self)@,
    {
        self.data.reserve(additional);
    }
}

impl<K: Eq + Hash, V> Default for TMap<K, V> {
    /// The default map is empty.
    fn default() -> (r: Self)
        ensures
            r@ == Map::<K, V>::empty(),
    {
        Self::new()
    }
}

} // verus!
