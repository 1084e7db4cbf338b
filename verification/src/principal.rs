//! Identities of callers and owners.

use vstd::prelude::*;
use vstd::slice::slice_to_vec;
use crate::key::{Duplicate, Key};

verus! {

/// The longest byte string that is a principal.
pub const MAX_PRINCIPAL_LENGTH: usize = 29;

/// An externally issued identity: an opaque byte string of at most
/// [`MAX_PRINCIPAL_LENGTH`] bytes. Two principals are the same identity
/// exactly when their bytes are equal.
#[derive(Debug, PartialEq, Eq, Hash)]
pub struct Principal {
    bytes: Vec<u8>,
}

impl View for Principal {
    type V = Seq<u8>;

    closed spec fn view(&self) -> Seq<u8> {
        self.bytes@
    }
}

impl Principal {
    #[verifier::type_invariant]
    spec fn well_formed(&self) -> bool {
        self.bytes@.len() <= MAX_PRINCIPAL_LENGTH
    }

    /// The principal with the given bytes, or `None` when there are more
    /// than [`MAX_PRINCIPAL_LENGTH`] of them.
    pub fn from_slice(bytes: &[u8]) -> (r: Option<Principal>)
        ensures
            r is Some <==> bytes@.len() <= MAX_PRINCIPAL_LENGTH,
            r is Some ==> r->0@ == bytes@,
    {
        if bytes.len() > MAX_PRINCIPAL_LENGTH {
            return None;
        }
        Some(Principal { bytes: slice_to_vec(bytes) })
    }

    /// The bytes of the principal.
    pub fn as_slice(&self) -> (r: &[u8])
        ensures
            r@ == self@,
            r@.len() <= MAX_PRINCIPAL_LENGTH,
    {
        proof {
            use_type_invariant(self);
        }
        self.bytes.as_slice()
    }
}

impl Clone for Principal {
    fn clone(&self) -> (r: Self)
        ensures
            r@ == self@,
    {
        proof {
            use_type_invariant(self);
        }
        Principal { bytes: slice_to_vec(self.bytes.as_slice()) }
    }
}

impl Duplicate for Principal {
    fn duplicate(&self) -> (r: Self) {
        self.clone()
    }
}

impl Key for Principal {
    fn same(&self, other: &Self) -> (r: bool) {
        if self.bytes.len() != other.bytes.len() {
            return false;
        }
        let mut i: usize = 0;
        while i < self.bytes.len()
            invariant
                i <= self.bytes@.len(),
                self.bytes@.len() == other.bytes@.len(),
                forall|j: int| 0 <= j < i ==> self.bytes@[j] == other.bytes@[j],
            decreases self.bytes@.len() - i,
        {
            if self.bytes[i] != other.bytes[i] {
                return false;
            }
            i += 1;
        }
        assert(self.bytes@ =~= other.bytes@);
        true
    }
}

} // verus!
