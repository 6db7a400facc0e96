//! Laws of the per-key cell and of the entry protocol, stated over the
//! same models the contracts use: a cell's view is its value sequence,
//! a map's view is a `Map` from keys to cells.

use vstd::prelude::*;

use crate::cell::OneOrAny;

verus! {

/// Law: storing one value under a fresh key yields exactly that value —
/// the whole value sequence is `[v]` and the first value is `v`. This is
/// the map model of a vacant entry's single-value insertion.
pub proof fn lemma_insert_one_sole_value<K, V>(m: Map<K, OneOrAny<V>>, k: K, v: V)
    requires
        !m.contains_key(k),
    ensures
        m.insert(k, OneOrAny::One(v)).contains_key(k),
        m.insert(k, OneOrAny::One(v))[k]@ == seq![v],
        m.insert(k, OneOrAny::One(v))[k]@[0] == v,
{
}

/// Law: storing a vector of values — empty and singleton vectors
/// included — yields exactly that sequence, in the same order. This is
/// the map model of a vacant entry's vector insertion.
pub proof fn lemma_insert_many_exact<K, V>(m: Map<K, OneOrAny<V>>, k: K, values: Vec<V>)
    ensures
        m.insert(k, OneOrAny::Any(values)).contains_key(k),
        m.insert(k, OneOrAny::Any(values))[k]@ == values@,
{
}

/// Law: pushing onto a cell holding the single value `a` yields the
/// two-value sequence `[a, pushed]` in that order, and every further
/// push appends, keeping each already-stored value at its place.
pub proof fn lemma_push_appends<V>(a: V, pushed: V, s: Seq<V>, next: V)
    ensures
        (OneOrAny::One(a))@.push(pushed) == seq![a, pushed],
        s.push(next).len() == s.len() + 1,
        s.push(next)[s.len() as int] == next,
        forall|i: int| 0 <= i < s.len() ==> s.push(next)[i] == s[i],
{
    assert((OneOrAny::One(a))@.push(pushed) =~= seq![a, pushed]);
}

/// Law: cloning reads nothing but the cell's value sequence, so cloning
/// a cell that holds one inline value and cloning a cell that holds a
/// one-element vector are observationally identical: both clones have
/// the same length, and their values at each position are clones of the
/// same source value.
pub proof fn lemma_clone_observational<T: Clone>(
    a: OneOrAny<T>,
    b: OneOrAny<T>,
    ca: OneOrAny<T>,
    cb: OneOrAny<T>,
)
    requires
        a@ == b@,
        call_ensures(OneOrAny::<T>::clone, (&a,), ca),
        call_ensures(OneOrAny::<T>::clone, (&b,), cb),
    ensures
        ca@.len() == cb@.len(),
        forall|i: int| #![all_triggers]
            0 <= i < ca@.len() ==> cloned::<T>(a@[i], ca@[i]) && cloned::<T>(a@[i], cb@[i]),
{
}

/// Law: taking all values out of an occupied entry removes its key — the
/// key afterwards reports as vacant — while every other key keeps its
/// values untouched. This is the map model of [`crate::entry::OccupiedEntry::remove`].
pub proof fn lemma_take_all_vacates<K, V>(m: Map<K, OneOrAny<V>>, k: K)
    requires
        m.contains_key(k),
    ensures
        !m.remove(k).contains_key(k),
        forall|k2: K| #![all_triggers]
            k2 != k ==> (m.remove(k).contains_key(k2) == m.contains_key(k2) && (m.contains_key(k2)
                ==> m.remove(k)[k2] == m[k2])),
{
}

/// Law: an entry operation for key `k` is isolated — storing any cell
/// under `k` mutates no other key's stored values. Together with
/// [`lemma_take_all_vacates`], this covers every way the entry protocol
/// writes the map back.
pub proof fn lemma_key_isolation<K, V>(m: Map<K, OneOrAny<V>>, k: K, cell: OneOrAny<V>)
    ensures
        forall|k2: K| #![all_triggers]
            k2 != k ==> (m.insert(k, cell).contains_key(k2) == m.contains_key(k2) && (
            m.contains_key(k2) ==> m.insert(k, cell)[k2] == m[k2])),
{
}

} // verus!
