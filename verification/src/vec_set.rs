//! A small set that keeps its items in the order in which they were added.

use vstd::prelude::*;
use crate::key::{Duplicate, Key};

verus! {

/// The set of what the items of a sequence denote.
pub open spec fn items_set<T: View>(items: Seq<T>) -> Set<T::V> {
    Set::new(|x: T::V| exists|i: int| 0 <= i < items.len() && #[trigger] items[i]@ == x)
}

/// A set of keys. It denotes a set of views; the items themselves are kept
/// in insertion order.
#[derive(Debug)]
pub struct VecSet<T: Key> {
    items: Vec<T>,
}

impl<T: Key> View for VecSet<T> {
    type V = Set<T::V>;

    open spec fn view(&self) -> Set<T::V> {
        items_set(self.items())
    }
}

impl<T: Key> VecSet<T> {
    /// The items of the set, in the order in which they were added.
    pub closed spec fn items(&self) -> Seq<T> {
        self.items@
    }

    /// The empty set.
    pub fn new() -> (r: Self)
        ensures
            r.items() == Seq::<T>::empty(),
            r@ == Set::<T::V>::empty(),
    {
        let r = VecSet { items: Vec::new() };
        assert(r@ =~= Set::<T::V>::empty());
        r
    }

    /// The number of items.
    pub fn len(&self) -> (r: usize)
        ensures
            r == self.items().len(),
    {
        self.items.len()
    }

    /// The item at position `index` in insertion order, if there is one.
    pub fn get_index(&self, index: usize) -> (r: Option<&T>)
        ensures
            r is Some <==> index < self.items().len(),
            r is Some ==> *r->0 == self.items()[index as int],
    {
        if index < self.items.len() {
            Some(&self.items[index])
        } else {
            None
        }
    }

    /// Whether the set holds `item`.
    pub fn contains(&self, item: &T) -> (r: bool)
        ensures
            r == self@.contains(item@),
    {
        let mut i: usize = 0;
        while i < self.items.len()
            invariant
                i <= self.items@.len(),
                forall|j: int| 0 <= j < i ==> self.items@[j]@ != item@,
            decreases self.items@.len() - i,
        {
            if self.items[i].same(item) {
                return true;
            }
            i += 1;
        }
        false
    }

    /// Adds `item` to the set. An item that the set already holds is not
    /// added again.
    pub fn insert(&mut self, item: T)
        ensures
            final(self)@ == old(self)@.insert(item@),
            final(self).items() == if old(self)@.contains(item@) {
                old(self).items()
            } else {
                old(self).items().push(item)
            },
    {
        if !self.contains(&item) {
            let ghost before = self.items@;
            self.items.push(item);
            let ghost grown = items_set(before).insert(item@);
            assert(self@ =~= grown) by {
                assert forall|x: T::V| grown.contains(x) implies self@.contains(x) by {
                    if x == item@ {
                        assert(self.items@[before.len() as int]@ == x);
                    } else {
                        let i = choose|i: int| 0 <= i < before.len() && #[trigger] before[i]@ == x;
                        assert(self.items@[i]@ == x);
                    }
                }
                assert forall|x: T::V| self@.contains(x) implies grown.contains(x) by {
                    let i = choose|i: int|
                        0 <= i < self.items@.len() && #[trigger] self.items@[i]@ == x;
                    if i < before.len() {
                        assert(before[i]@ == x);
                    }
                }
            }
        } else {
            assert(self@ =~= old(self)@.insert(item@));
        }
    }
}

impl<T: Key> Duplicate for VecSet<T> {
    fn duplicate(&self) -> (r: Self)
        ensures
            r.items().len() == self.items().len(),
            forall|i: int|
                0 <= i < self.items().len() ==> (#[trigger] r.items()[i])@ == self.items()[i]@,
    {
        let mut items: Vec<T> = Vec::new();
        let mut i: usize = 0;
        while i < self.items.len()
            invariant
                i <= self.items@.len(),
                items@.len() == i,
                forall|j: int| 0 <= j < i ==> (#[trigger] items@[j])@ == self.items@[j]@,
            decreases self.items@.len() - i,
        {
            items.push(self.items[i].duplicate());
            i += 1;
        }
        let r = VecSet { items };
        assert(r@ =~= self@) by {
            assert forall|x: T::V| r@.contains(x) implies self@.contains(x) by {
                let j = choose|j: int| 0 <= j < r.items@.len() && #[trigger] r.items@[j]@ == x;
                assert(self.items@[j]@ == x);
            }
            assert forall|x: T::V| self@.contains(x) implies r@.contains(x) by {
                let j = choose|j: int| 0 <= j < self.items@.len() && #[trigger] self.items@[j]@ == x;
                assert(r.items@[j]@ == x);
            }
        }
        r
    }
}

impl<T: Key> Clone for VecSet<T> {
    fn clone(&self) -> (r: Self)
        ensures
            r@ == self@,
            r.items().len() == self.items().len(),
            forall|i: int|
                0 <= i < self.items().len() ==> (#[trigger] r.items()[i])@ == self.items()[i]@,
    {
        self.duplicate()
    }
}

impl<T: Key> Default for VecSet<T> {
    fn default() -> (r: Self)
        ensures
            r.items() == Seq::<T>::empty(),
            r@ == Set::<T::V>::empty(),
    {
        VecSet::new()
    }
}

} // verus!
