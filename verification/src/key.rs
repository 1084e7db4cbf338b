//! Keys: values that are told apart by what they denote.

use vstd::prelude::*;

verus! {

/// A value that can be copied without changing what it denotes.
pub trait Duplicate: View + Sized {
    /// A copy of `self`.
    fn duplicate(&self) -> (r: Self)
        ensures
            r@ == self@,
    ;
}

/// A value that can serve as a key of a [`crate::vec_map::VecMap`] or as an
/// item of a [`crate::vec_set::VecSet`]: two keys are the same key exactly
/// when their views are equal.
pub trait Key: Duplicate {
    /// Whether `self` and `other` are the same key.
    fn same(&self, other: &Self) -> (r: bool)
        ensures
            r == (self@ == other@),
    ;
}

impl Duplicate for String {
    fn duplicate(&self) -> (r: Self) {
        self.clone()
    }
}

impl Key for String {
    fn same(&self, other: &Self) -> (r: bool) {
        *self == *other
    }
}

} // verus!
