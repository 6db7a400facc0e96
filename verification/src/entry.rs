//! Entry views over a `std::collections::HashMap` whose values are
//! [`OneOrAny`] cells: the vacant/occupied access protocol of a multimap
//! key. Each view wraps the map's own single-value entry primitive and
//! presents "first value" / "all values" accessors that hide the cell's
//! tagged representation.

use vstd::prelude::*;
use vstd::std_specs::hash::obeys_key_model;
use vstd::std_specs::hash::OccupiedEntrySpecFns;
use vstd::std_specs::hash::VacantEntrySpecFns;
use std::collections::HashMap;

use crate::cell::OneOrAny;

verus! {

broadcast use vstd::std_specs::hash::group_hash_axioms;

/// A view into a single occupied location in a multimap: the key already
/// holds a cell of one or more values (or an emptied one, after a
/// retain-style mutation).
pub struct OccupiedEntry<'a, K: 'a, V: 'a> {
    /// The wrapped occupied-entry primitive of the underlying
    /// single-valued map; its one value is the key's cell.
    pub inner: std::collections::hash_map::OccupiedEntry<'a, K, OneOrAny<V>>,
}

/// A view into a single empty location in a multimap: the key holds no
/// cell yet.
pub struct VacantEntry<'a, K: 'a, V: 'a> {
    /// The wrapped vacant-entry primitive of the underlying
    /// single-valued map.
    pub inner: std::collections::hash_map::VacantEntry<'a, K, OneOrAny<V>>,
}

/// A view into a single location in a multimap, which may be vacant or
/// occupied.
pub enum Entry<'a, K: 'a, V: 'a> {
    /// An occupied entry.
    Occupied(OccupiedEntry<'a, K, V>),
    /// A vacant entry.
    Vacant(VacantEntry<'a, K, V>),
}

impl<'a, K, V> OccupiedEntry<'a, K, V> {
    /// The key this entry is for.
    pub open spec fn key(self) -> K {
        self.inner.spec_key()
    }

    /// The cell currently stored under the key.
    pub open spec fn cell(self) -> OneOrAny<V> {
        self.inner.value()
    }

    /// The sequence of values currently stored under the key.
    pub open spec fn values(self) -> Seq<V> {
        self.inner.value()@
    }
}

impl<'a, K, V> VacantEntry<'a, K, V> {
    /// The key this entry is for.
    pub open spec fn key(self) -> K {
        self.inner.spec_key()
    }
}

impl<'a, K, V> Entry<'a, K, V> {
    /// The key this entry is for.
    pub open spec fn key(self) -> K {
        match self {
            Entry::Occupied(entry) => entry.key(),
            Entry::Vacant(entry) => entry.key(),
        }
    }
}

/// Obtains the entry for `key` in a map of cells, wrapping the map's own
/// vacant/occupied entry primitive. This is the point where a caller
/// enters the per-key protocol; the map at `key` afterwards holds
/// whatever the entry operations prophesy (`final_value`): a cell to
/// store, or nothing, in which case the key is removed.
pub fn entry<'a, K: core::cmp::Eq + core::hash::Hash, V>(
    map: &'a mut HashMap<K, OneOrAny<V>>,
    key: K,
) -> (e: Entry<'a, K, V>)
    ensures
        obeys_key_model::<K>() ==> {
            &&& e.key() == key
            &&& match e {
                Entry::Occupied(entry) => old(map)@.contains_key(key) && entry.cell() == old(
                    map,
                )@[key],
                Entry::Vacant(entry) => !old(map)@.contains_key(key),
            }
            &&& final(map)@ == (match (match e {
                Entry::Occupied(entry) => entry.inner.final_value(),
                Entry::Vacant(entry) => entry.inner.final_value(),
            }) {
                Some(cell) => old(map)@.insert(key, cell),
                None => old(map)@.remove(key),
            })
        },
{
    match map.entry(key) {
        std::collections::hash_map::Entry::Occupied(inner) => Entry::Occupied(
            OccupiedEntry { inner },
        ),
        std::collections::hash_map::Entry::Vacant(inner) => Entry::Vacant(VacantEntry { inner }),
    }
}

impl<'a, K: 'a, V: 'a> OccupiedEntry<'a, K, V> {
    /// A reference to the first of the key's values. The cell must be
    /// non-empty: an occupied entry always holds at least the values
    /// originally inserted, unless the caller itself emptied it by
    /// filtering, and reading the first value then is a contract
    /// violation on the caller's part.
    pub fn get(&self) -> (r: &V)
        requires
            self.values().len() > 0,
        ensures
            *r == self.values()[0],
    {
        let s = self.inner.get().as_slice();
        &s[0]
    }

    /// A read-only view of all of the key's values, valid even when the
    /// cell has been emptied by filtering.
    pub fn get_slice(&self) -> (r: &[V])
        ensures
            r@ == self.values(),
    {
        self.inner.get().as_slice()
    }

    /// A mutable reference to the first of the key's values. Same
    /// precondition as [`Self::get`].
    pub fn get_mut(&mut self) -> (r: &mut V)
        requires
            old(self).values().len() > 0,
        ensures
            *r == old(self).values()[0],
            final(self).key() == old(self).key(),
            final(self).values() == old(self).values().update(0, *final(r)),
            final(self).inner.final_value() == old(self).inner.final_value(),
    {
        let cell = self.inner.get_mut();
        match cell {
            OneOrAny::One(value) => value,
            OneOrAny::Any(values) => {
                let r = &mut values[0];
                r
            },
        }
    }

    /// A growable handle on all of the key's values, converting the cell
    /// out of its inline form first if needed.
    pub fn get_vec_mut(&mut self) -> (r: &mut Vec<V>)
        ensures
            r@ == old(self).values(),
            final(self).key() == old(self).key(),
            final(self).values() == final(r)@,
            final(self).inner.final_value() == old(self).inner.final_value(),
    {
        self.inner.get_mut().as_mut_vec()
    }

    /// Consumes the entry into a mutable reference to the first of the
    /// key's values, with a lifetime bound to the map itself. Same
    /// precondition as [`Self::get`].
    pub fn into_mut(self) -> (r: &'a mut V)
        requires
            self.values().len() > 0,
        ensures
            *r == self.values()[0],
            self.inner.final_value() matches Some(cell) && cell@ == self.values().update(
                0,
                *final(r),
            ),
    {
        let cell = self.inner.into_mut();
        match cell {
            OneOrAny::One(value) => value,
            OneOrAny::Any(values) => {
                let r = &mut values[0];
                r
            },
        }
    }

    /// Consumes the entry into a growable handle on all of the key's
    /// values, with a lifetime bound to the map itself; converts the
    /// cell out of its inline form first if needed.
    pub fn into_vec_mut(self) -> (r: &'a mut Vec<V>)
        ensures
            r@ == self.values(),
            self.inner.final_value() matches Some(cell) && cell@ == final(r)@,
    {
        self.inner.into_mut().as_mut_vec()
    }

    /// Appends one value to the key's values, converting the cell out of
    /// its inline form first if needed. Always succeeds.
    pub fn insert(&mut self, value: V)
        ensures
            final(self).key() == old(self).key(),
            final(self).values() == old(self).values().push(value),
            final(self).inner.final_value() == old(self).inner.final_value(),
    {
        self.get_vec_mut().push(value);
    }

    /// Appends all given values, in order, to the key's values. Always
    /// succeeds; an empty input leaves the values unchanged.
    pub fn insert_vec(&mut self, values: Vec<V>)
        ensures
            final(self).key() == old(self).key(),
            final(self).values() == old(self).values() + values@,
            final(self).inner.final_value() == old(self).inner.final_value(),
    {
        let mut tail = values;
        self.get_vec_mut().append(&mut tail);
    }

    /// Takes the key's values out of the map entirely and returns them
    /// as an owned vector. This is the one entry operation that removes
    /// the key from the map.
    pub fn remove(self) -> (r: Vec<V>)
        ensures
            r@ == self.values(),
            self.inner.final_value() is None,
    {
        Vec::from(self.inner.remove())
    }
}

impl<'a, K: 'a, V: 'a> VacantEntry<'a, K, V> {
    /// Stores `value` as the sole, inline value under the vacant entry's
    /// key and returns a mutable reference to it, with a lifetime bound
    /// to the map itself. Always succeeds: the key holds nothing yet.
    pub fn insert(self, value: V) -> (r: &'a mut V)
        ensures
            *r == value,
            self.inner.final_value() == Some(OneOrAny::One(*final(r))),
    {
        let cell = self.inner.insert(OneOrAny::One(value));
        match cell {
            OneOrAny::One(one) => one,
            OneOrAny::Any(_) => unreached(),
        }
    }

    /// Stores `values` — even an empty or singleton vector, with no
    /// normalization — under the vacant entry's key and returns a
    /// growable handle on them, with a lifetime bound to the map itself.
    pub fn insert_vec(self, values: Vec<V>) -> (r: &'a mut Vec<V>)
        ensures
            r@ == values@,
            self.inner.final_value() == Some(OneOrAny::Any(*final(r))),
    {
        self.inner.insert(OneOrAny::Any(values)).as_mut_vec()
    }
}

impl<'a, K: 'a, V: 'a> Entry<'a, K, V> {
    /// Ensures the key holds at least one value by inserting `default`
    /// if it is vacant, and returns a mutable reference to the first
    /// value. An occupied entry keeps its values and `default` is
    /// dropped; its cell must then be non-empty, as for
    /// [`OccupiedEntry::get`].
    pub fn or_insert(self, default: V) -> (r: &'a mut V)
        requires
            self matches Entry::Occupied(entry) ==> entry.values().len() > 0,
        ensures
            match self {
                Entry::Occupied(entry) => *r == entry.values()[0] && (
                entry.inner.final_value() matches Some(cell) && cell@ == entry.values().update(
                    0,
                    *final(r),
                )),
                Entry::Vacant(entry) => *r == default && entry.inner.final_value() == Some(
                    OneOrAny::One(*final(r)),
                ),
            },
    {
        match self {
            Entry::Occupied(entry) => entry.into_mut(),
            Entry::Vacant(entry) => entry.insert(default),
        }
    }

    /// Ensures the key holds a cell by inserting `defaults` if it is
    /// vacant, and returns a growable handle on all of the key's values.
    /// An occupied entry keeps its values and `defaults` is dropped.
    pub fn or_insert_vec(self, defaults: Vec<V>) -> (r: &'a mut Vec<V>)
        ensures
            match self {
                Entry::Occupied(entry) => r@ == entry.values() && (
                entry.inner.final_value() matches Some(cell) && cell@ == final(r)@),
                Entry::Vacant(entry) => r@ == defaults@ && entry.inner.final_value() == Some(
                    OneOrAny::Any(*final(r)),
                ),
            },
    {
        match self {
            Entry::Occupied(entry) => entry.into_vec_mut(),
            Entry::Vacant(entry) => entry.insert_vec(defaults),
        }
    }
}

} // verus!
