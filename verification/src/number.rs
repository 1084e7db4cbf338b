//! Natural numbers of any size, held as base-2^32 digits.

use vstd::prelude::*;
use vstd::slice::slice_to_vec;
use crate::key::{Duplicate, Key};

verus! {

/// The base of the digits: 2^32.
pub open spec fn digit_base() -> nat {
    0x1_0000_0000
}

/// The number that a sequence of digits denotes, least significant digit
/// first.
pub open spec fn digits_value(digits: Seq<u32>) -> nat
    decreases digits.len(),
{
    if digits.len() == 0 {
        0
    } else {
        digits[0] as nat + digit_base() * digits_value(digits.drop_first())
    }
}

/// No superfluous leading digit: the most significant digit is not zero.
pub open spec fn digits_canonical(digits: Seq<u32>) -> bool {
    digits.len() > 0 ==> digits.last() != 0
}

/// Appending a zero digit at the most significant end changes nothing.
pub proof fn lemma_value_push_zero(digits: Seq<u32>)
    ensures
        digits_value(digits.push(0)) == digits_value(digits),
    decreases digits.len(),
{
    if digits.len() == 0 {
        assert(digits_value(digits.push(0).drop_first()) == 0);
    } else {
        assert(digits.push(0).drop_first() =~= digits.drop_first().push(0));
        lemma_value_push_zero(digits.drop_first());
    }
}

/// A canonical digit sequence that is not empty denotes a positive number.
pub proof fn lemma_canonical_positive(digits: Seq<u32>)
    requires
        digits_canonical(digits),
        digits.len() > 0,
    ensures
        digits_value(digits) > 0,
    decreases digits.len(),
{
    let rest = digits.drop_first();
    if rest.len() > 0 {
        lemma_canonical_positive(rest);
        assert(digit_base() * digits_value(rest) > 0) by (nonlinear_arith)
            requires
                digits_value(rest) > 0,
                digit_base() > 0,
        ;
    }
}

/// Canonical digit sequences are unique: two of them that denote the same
/// number are the same sequence.
pub proof fn lemma_canonical_unique(a: Seq<u32>, b: Seq<u32>)
    requires
        digits_canonical(a),
        digits_canonical(b),
        digits_value(a) == digits_value(b),
    ensures
        a == b,
    decreases a.len(),
{
    if a.len() == 0 {
        if b.len() > 0 {
            lemma_canonical_positive(b);
        }
    } else if b.len() == 0 {
        lemma_canonical_positive(a);
    } else {
        let ra = a.drop_first();
        let rb = b.drop_first();
        let va = digits_value(ra);
        let vb = digits_value(rb);
        assert(a[0] == b[0] && va == vb) by (nonlinear_arith)
            requires
                a[0] as nat + 0x1_0000_0000 * va == b[0] as nat + 0x1_0000_0000 * vb,
                a[0] < 0x1_0000_0000,
                b[0] < 0x1_0000_0000,
        ;
        lemma_canonical_unique(ra, rb);
        assert(a =~= seq![a[0]] + ra);
        assert(b =~= seq![b[0]] + rb);
    }
}

/// A natural number without an upper bound.
///
/// The digits are kept canonical, so equal numbers have equal digits.
#[derive(Debug, PartialEq, Eq, Hash)]
pub struct Nat {
    digits: Vec<u32>,
}

impl View for Nat {
    type V = nat;

    closed spec fn view(&self) -> nat {
        digits_value(self.digits@)
    }
}

impl Nat {
    #[verifier::type_invariant]
    spec fn well_formed(&self) -> bool {
        digits_canonical(self.digits@)
    }

    /// The number denoted by `digits`, least significant digit first.
    /// Zero digits at the most significant end are accepted and dropped.
    pub fn from_digits(digits: Vec<u32>) -> (r: Nat)
        ensures
            r@ == digits_value(digits@),
    {
        let mut digits = digits;
        let ghost given = digits@;
        while digits.len() > 0 && digits[digits.len() - 1] == 0
            invariant
                digits_value(digits@) == digits_value(given),
            decreases digits@.len(),
        {
            proof {
                lemma_value_push_zero(digits@.drop_last());
                assert(digits@ =~= digits@.drop_last().push(0));
            }
            digits.pop();
        }
        Nat { digits }
    }

    /// The canonical digits of the number, least significant digit first;
    /// none for zero.
    pub fn to_digits(&self) -> (r: Vec<u32>)
        ensures
            digits_value(r@) == self@,
            digits_canonical(r@),
    {
        proof {
            use_type_invariant(self);
        }
        slice_to_vec(self.digits.as_slice())
    }

    /// The number `value`.
    pub fn from_u128(value: u128) -> (r: Nat)
        ensures
            r@ == value,
    {
        let d0: u32 = (value % 0x1_0000_0000) as u32;
        let v1: u128 = value / 0x1_0000_0000;
        let d1: u32 = (v1 % 0x1_0000_0000) as u32;
        let v2: u128 = v1 / 0x1_0000_0000;
        let d2: u32 = (v2 % 0x1_0000_0000) as u32;
        let v3: u128 = v2 / 0x1_0000_0000;
        let d3: u32 = v3 as u32;
        let mut digits: Vec<u32> = Vec::new();
        digits.push(d0);
        digits.push(d1);
        digits.push(d2);
        digits.push(d3);
        proof {
            let s0 = digits@;
            let s1 = s0.drop_first();
            let s2 = s1.drop_first();
            let s3 = s2.drop_first();
            let s4 = s3.drop_first();
            assert(digits_value(s4) == 0);
            assert(digits_value(s3) == v3);
            assert(digits_value(s2) == v2);
            assert(digits_value(s1) == v1);
            assert(digits_value(s0) == value);
        }
        Nat::from_digits(digits)
    }

    /// The number `value`.
    pub fn from_u64(value: u64) -> (r: Nat)
        ensures
            r@ == value,
    {
        Nat::from_u128(value as u128)
    }

    /// The number `value`.
    pub fn from_usize(value: usize) -> (r: Nat)
        ensures
            r@ == value,
    {
        Nat::from_u128(value as u128)
    }
}

impl Clone for Nat {
    fn clone(&self) -> (r: Self)
        ensures
            r@ == self@,
    {
        proof {
            use_type_invariant(self);
        }
        Nat { digits: slice_to_vec(self.digits.as_slice()) }
    }
}

impl Duplicate for Nat {
    fn duplicate(&self) -> (r: Self) {
        self.clone()
    }
}

impl Key for Nat {
    fn same(&self, other: &Self) -> (r: bool) {
        proof {
            use_type_invariant(self);
            use_type_invariant(other);
            if self@ == other@ {
                lemma_canonical_unique(self.digits@, other.digits@);
            }
        }
        if self.digits.len() != other.digits.len() {
            return false;
        }
        let mut i: usize = 0;
        while i < self.digits.len()
            invariant
                i <= self.digits@.len(),
                self.digits@.len() == other.digits@.len(),
                forall|j: int| 0 <= j < i ==> self.digits@[j] == other.digits@[j],
                self@ == other@ ==> self.digits@ == other.digits@,
            decreases self.digits@.len() - i,
        {
            if self.digits[i] != other.digits[i] {
                return false;
            }
            i += 1;
        }
        assert(self.digits@ =~= other.digits@);
        true
    }
}

} // verus!
