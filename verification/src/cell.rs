//! The compact multi-value cell: either one inline value or a growable
//! vector of values, presented to callers as a uniform sequence.

use vstd::prelude::*;

verus! {

/// Per-key storage of a multimap: either exactly one value held inline,
/// or an ordered vector of values (possibly empty).
///
/// A `One(v)` is value-equivalent to `Any(vec![v])`: every read-only
/// operation presents the two as the same length-1 sequence. The view of a
/// cell is that sequence.
pub enum OneOrAny<T> {
    /// Exactly one value, stored without a vector allocation.
    One(T),
    /// An ordered vector of values; its length may be 0, 1, or more.
    Any(Vec<T>),
}

impl<T> Default for OneOrAny<T> {
    /// The "no values" state: an empty `Any`.
    fn default() -> (r: Self)
        ensures
            r is Any,
            r@ == Seq::<T>::empty(),
    {
        OneOrAny::Any(Vec::new())
    }
}

impl<T> From<T> for OneOrAny<T> {
    /// Wraps one value as an inline `One` cell.
    fn from(one: T) -> (r: Self) {
        OneOrAny::One(one)
    }
}

impl<T> vstd::std_specs::convert::FromSpecImpl<T> for OneOrAny<T> {
    open spec fn obeys_from_spec() -> bool {
        true
    }

    open spec fn from_spec(one: T) -> Self {
        OneOrAny::One(one)
    }
}

impl<T> From<Vec<T>> for OneOrAny<T> {
    /// Wraps a vector of values as an `Any` cell, with no normalization
    /// even for lengths 0 and 1.
    fn from(any: Vec<T>) -> (r: Self) {
        OneOrAny::Any(any)
    }
}

impl<T> vstd::std_specs::convert::FromSpecImpl<Vec<T>> for OneOrAny<T> {
    open spec fn obeys_from_spec() -> bool {
        true
    }

    open spec fn from_spec(any: Vec<T>) -> Self {
        OneOrAny::Any(any)
    }
}

impl<T> From<OneOrAny<T>> for Vec<T> {
    /// Consumes the cell into an owned vector: `One(v)` becomes a
    /// vector of that one value (a single allocation), `Any(vs)` is
    /// returned as-is.
    fn from(values: OneOrAny<T>) -> (r: Vec<T>)
        ensures
            r@ == values@,
    {
        match values {
            OneOrAny::One(value) => {
                let mut one = Vec::with_capacity(1);
                one.push(value);
                one
            },
            OneOrAny::Any(any) => any,
        }
    }
}

impl<T> vstd::std_specs::convert::FromSpecImpl<OneOrAny<T>> for Vec<T> {
    open spec fn obeys_from_spec() -> bool {
        false
    }

    open spec fn from_spec(values: OneOrAny<T>) -> Vec<T> {
        choose|r: Vec<T>| r@ == values@
    }
}

impl<T: Clone> Clone for OneOrAny<T> {
    /// Duplicates the cell's values; an `Any` of length exactly 1 is
    /// normalized into `One`, so only the value sequence is preserved,
    /// not the representation.
    fn clone(&self) -> (res: Self)
        ensures
            res@.len() == self@.len(),
            forall|i: int| #![all_triggers] 0 <= i < self@.len() ==> cloned::<T>(self@[i], res@[i]),
    {
        match self {
            OneOrAny::One(one) => OneOrAny::One(one.clone()),
            OneOrAny::Any(any) => {
                if any.len() == 1 {
                    OneOrAny::One(any[0].clone())
                } else {
                    OneOrAny::Any(any.clone())
                }
            },
        }
    }
}

impl<T> core::ops::Deref for OneOrAny<T> {
    type Target = [T];

    /// A cell dereferences to the read-only view of its values.
    fn deref(&self) -> (r: &[T])
        ensures
            r@ == self@,
    {
        self.as_slice()
    }
}

impl<T> core::ops::DerefMut for OneOrAny<T> {
    /// A cell dereferences to the mutable view of its values, keeping
    /// its variant, as [`OneOrAny::as_mut_slice`] does.
    fn deref_mut(&mut self) -> (r: &mut [T])
        ensures
            r@ == old(self)@,
            final(self)@ == final(r)@,
            ((*old(self)) is One) <==> ((*final(self)) is One),
    {
        self.as_mut_slice()
    }
}

impl<T> View for OneOrAny<T> {
    type V = Seq<T>;

    open spec fn view(&self) -> Seq<T> {
        match self {
            OneOrAny::One(value) => seq![*value],
            OneOrAny::Any(values) => values@,
        }
    }
}

/// The subsequence of `s` at the positions where `keep` holds. Describes
/// what filtering with a predicate leaves behind, once the predicate's
/// verdict on each element is recorded in `keep`.
pub open spec fn filter_by<T>(s: Seq<T>, keep: Seq<bool>) -> Seq<T>
    decreases s.len(),
{
    if s.len() == 0 || keep.len() == 0 {
        Seq::empty()
    } else {
        let rest = filter_by(s.drop_last(), keep.drop_last());
        if keep.last() {
            rest.push(s.last())
        } else {
            rest
        }
    }
}

/// Relies on `core::slice::from_ref`: the returned slice is exactly the
/// one referenced element.
pub assume_specification<T>[ core::slice::from_ref ](value: &T) -> (r: &[T])
    ensures
        r@ == seq![*value],
;

/// Relies on `core::slice::from_mut`: the returned slice is exactly the
/// one referenced element, and a write through the slice is a write to
/// that element.
pub assume_specification<T>[ core::slice::from_mut ](value: &mut T) -> (r: &mut [T])
    ensures
        r@ == seq![*old(value)],
        final(r)@ == seq![*final(value)],
;

impl<T> OneOrAny<T> {
    /// A read-only sequence view of the cell's values: a length-1 slice
    /// for `One`, the stored vector's slice for `Any`. No allocation.
    pub fn as_slice(&self) -> (r: &[T])
        ensures
            r@ == self@,
    {
        match self {
            OneOrAny::One(value) => core::slice::from_ref(value),
            OneOrAny::Any(values) => values.as_slice(),
        }
    }

    /// The mutable counterpart of [`Self::as_slice`]: writes through the
    /// returned slice are writes to the cell's values. Like the read-only
    /// view it allocates nothing — the cell keeps its variant, so an
    /// inline `One` stays inline.
    pub fn as_mut_slice(&mut self) -> (r: &mut [T])
        ensures
            r@ == old(self)@,
            final(self)@ == final(r)@,
            ((*old(self)) is One) <==> ((*final(self)) is One),
    {
        match self {
            OneOrAny::One(value) => core::slice::from_mut(value),
            OneOrAny::Any(values) => values.as_mut_slice(),
        }
    }

    /// A growable handle on the cell's values. If the cell is `One(v)`,
    /// it is first converted — exactly once — into `Any(vec![v])`; this
    /// is the single allocation point for vector-level mutation of a
    /// previously single-valued key. Calling it again does not convert
    /// or reallocate.
    pub fn as_mut_vec(&mut self) -> (r: &mut Vec<T>)
        ensures
            r@ == old(self)@,
            *final(self) == (OneOrAny::Any(*final(r))),
    {
        if let OneOrAny::One(_) = self {
            let mut taken = OneOrAny::Any(Vec::with_capacity(1));
            core::mem::swap(self, &mut taken);
            let value = match taken {
                OneOrAny::One(value) => value,
                OneOrAny::Any(_) => unreached(),
            };
            match self {
                OneOrAny::Any(values) => values.push(value),
                OneOrAny::One(_) => unreached(),
            }
        }
        match self {
            OneOrAny::Any(values) => values,
            OneOrAny::One(_) => unreached(),
        }
    }

    /// Keeps exactly the values the predicate accepts, in order. A kept
    /// `One` is left unchanged; a rejected `One` collapses to the empty
    /// `Any` state; an `Any` vector is filtered in place. The cell always
    /// stays valid, possibly as an empty sequence.
    pub fn retain<F: Fn(&T) -> bool>(&mut self, f: F)
        requires
            forall|t: T| #[trigger] f.requires((&t,)),
        ensures
            exists|keep: Seq<bool>|
                {
                    &&& #[trigger] keep.len() == old(self)@.len()
                    &&& (forall|i: int|
                        0 <= i < keep.len() ==> f.ensures((&old(self)@[i],), keep[i]))
                    &&& final(self)@ == filter_by(old(self)@, keep)
                },
    {
        match self {
            OneOrAny::One(value) => {
                let keep_it = f(&*value);
                proof {
                    let s = old(self)@;
                    let keep = seq![keep_it];
                    assert(filter_by(s.drop_last(), keep.drop_last()) == Seq::<T>::empty()) by {
                        assert(s.drop_last().len() == 0);
                    }
                    if keep_it {
                        assert(Seq::<T>::empty().push(s.last()) =~= s);
                    }
                }
                if !keep_it {
                    *self = OneOrAny::Any(Vec::new());
                }
            },
            OneOrAny::Any(values) => {
                let mut pending: Vec<T> = Vec::new();
                core::mem::swap(values, &mut pending);
                let ghost all = pending@;
                let ghost mut keep: Seq<bool> = Seq::empty();
                while pending.len() > 0
                    invariant
                        forall|t: T| #[trigger] f.requires((&t,)),
                        keep.len() + pending@.len() == all.len(),
                        pending@ == all.skip(keep.len() as int),
                        values@ == filter_by(all.take(keep.len() as int), keep),
                        forall|i: int| 0 <= i < keep.len() ==> f.ensures((&all[i],), keep[i]),
                    decreases pending@.len(),
                {
                    let ghost n: int = keep.len() as int;
                    let v = pending.remove(0);
                    assert(v == all[n]);
                    let keep_it = f(&v);
                    proof {
                        let keep0 = keep;
                        keep = keep.push(keep_it);
                        assert(all.take(n + 1).drop_last() =~= all.take(n));
                        assert(keep.drop_last() =~= keep0);
                        assert(all.take(n + 1).last() == v);
                        assert(pending@ =~= all.skip(n + 1));
                    }
                    if keep_it {
                        values.push(v);
                    }
                }
                proof {
                    assert(all.take(keep.len() as int) =~= all);
                    assert(old(self)@ == all);
                }
            },
        }
    }
}

} // verus!
