//! Key-value stores that hold the engine's state.
//!
//! `StorageMap` is keyed by one identifier and `StorageDoubleMap` by a pair of
//! identifiers.  Both are specified by the mathematical map they stand for.

use std::collections::HashMap;
use vstd::prelude::*;

verus! {

broadcast use vstd::std_specs::hash::group_hash_axioms;

/// A store from a 64-bit identifier to a value.
pub struct StorageMap<V> {
    entries: HashMap<u64, V>,
}

impl<V> View for StorageMap<V> {
    type V = Map<u64, V>;

    closed spec fn view(&self) -> Map<u64, V> {
        self.entries@
    }
}

impl<V> StorageMap<V> {
    /// The empty store.
    pub fn new() -> (store: Self)
        ensures
            store@ == Map::<u64, V>::empty(),
    {
        StorageMap { entries: HashMap::new() }
    }

    /// Whether a value is stored under `key`.
    pub fn contains_key(&self, key: u64) -> (present: bool)
        ensures
            present == self@.contains_key(key),
    {
        self.entries.contains_key(&key)
    }

    /// The value stored under `key`, if any.
    pub fn get(&self, key: u64) -> (value: Option<&V>)
        ensures
            value == (if self@.contains_key(key) {
                Some(&self@[key])
            } else {
                None
            }),
    {
        self.entries.get(&key)
    }

    /// Stores `value` under `key`, replacing what was there.
    pub fn insert(&mut self, key: u64, value: V)
        ensures
            final(self)@ == old(self)@.insert(key, value),
    {
        self.entries.insert(key, value);
    }

    /// Removes what is stored under `key`; does nothing if the key is absent.
    pub fn remove(&mut self, key: u64)
        ensures
            final(self)@ == old(self)@.remove(key),
    {
        self.entries.remove(&key);
    }
}

/// The single slot of the backing table that a pair of identifiers occupies.
pub open spec fn double_key(first: u64, second: u64) -> u128 {
    (first as u128 * 0x1_0000_0000_0000_0000u128 + second as u128) as u128
}

/// Distinct pairs occupy distinct slots.
pub proof fn lemma_double_key_injective(a: (u64, u64), b: (u64, u64))
    ensures
        double_key(a.0, a.1) == double_key(b.0, b.1) <==> a == b,
{
}

fn make_double_key(first: u64, second: u64) -> (key: u128)
    ensures
        key == double_key(first, second),
{
    (first as u128) * 0x1_0000_0000_0000_0000u128 + (second as u128)
}

/// A store from a pair of 64-bit identifiers to a value.
pub struct StorageDoubleMap<V> {
    entries: HashMap<u128, V>,
}

impl<V> View for StorageDoubleMap<V> {
    type V = Map<(u64, u64), V>;

    closed spec fn view(&self) -> Map<(u64, u64), V> {
        Map::new(
            |k: (u64, u64)| self.entries@.contains_key(double_key(k.0, k.1)),
            |k: (u64, u64)| self.entries@[double_key(k.0, k.1)],
        )
    }
}

impl<V> StorageDoubleMap<V> {
    /// The empty store.
    pub fn new() -> (store: Self)
        ensures
            store@ == Map::<(u64, u64), V>::empty(),
    {
        StorageDoubleMap { entries: HashMap::new() }
    }

    /// Whether a value is stored under the pair `(first, second)`.
    pub fn contains_key(&self, first: u64, second: u64) -> (present: bool)
        ensures
            present == self@.contains_key((first, second)),
    {
        let key = make_double_key(first, second);
        self.entries.contains_key(&key)
    }

    /// The value stored under the pair `(first, second)`, if any.
    pub fn get(&self, first: u64, second: u64) -> (value: Option<&V>)
        ensures
            value == (if self@.contains_key((first, second)) {
                Some(&self@[(first, second)])
            } else {
                None
            }),
    {
        let key = make_double_key(first, second);
        self.entries.get(&key)
    }

    /// Stores `value` under the pair `(first, second)`, replacing what was there.
    pub fn insert(&mut self, first: u64, second: u64, value: V)
        ensures
            final(self)@ == old(self)@.insert((first, second), value),
    {
        let key = make_double_key(first, second);
        self.entries.insert(key, value);
        proof {
            assert forall|k: (u64, u64)| double_key(k.0, k.1) == key <==> k == (first, second) by {
                lemma_double_key_injective(k, (first, second));
            }
            assert(self@ =~= old(self)@.insert((first, second), value));
        }
    }

    /// Removes what is stored under the pair `(first, second)`; does nothing if the pair
    /// is absent.
    pub fn remove(&mut self, first: u64, second: u64)
        ensures
            final(self)@ == old(self)@.remove((first, second)),
    {
        let key = make_double_key(first, second);
        self.entries.remove(&key);
        proof {
            assert forall|k: (u64, u64)| double_key(k.0, k.1) == key <==> k == (first, second) by {
                lemma_double_key_injective(k, (first, second));
            }
            assert(self@ =~= old(self)@.remove((first, second)));
        }
    }
}

} // verus!
