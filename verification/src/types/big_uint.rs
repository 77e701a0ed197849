//! Unsigned integers of arbitrary size, as the ledger keeps balances and amounts.

use vstd::prelude::*;
use crate::types::be_arith::{be_add, be_checked_sub, be_div_rem, be_mul};
use crate::types::top_encode::{
    be_value, is_minimal, lemma_be_value_of_minimal_be, lemma_minimal_be_of_be_value, minimal_be,
    top_encode_u64,
};

verus! {

/// Leading zero bytes do not change the number that a byte string denotes.
pub proof fn lemma_be_value_skip_zeros(bytes: Seq<u8>, k: int)
    requires
        0 <= k <= bytes.len(),
        forall|j: int| 0 <= j < k ==> bytes[j] == 0,
    ensures
        be_value(bytes) == be_value(bytes.skip(k)),
    decreases bytes.len(),
{
    if k == bytes.len() {
        lemma_be_value_all_zero(bytes);
        assert(bytes.skip(k).len() == 0);
    } else {
        let init = bytes.drop_last();
        lemma_be_value_skip_zeros(init, k);
        assert(bytes.skip(k).drop_last() =~= init.skip(k));
        assert(bytes.skip(k).last() == bytes.last());
    }
}

/// A byte string denotes zero exactly when all its bytes are zero.
pub proof fn lemma_be_value_all_zero(bytes: Seq<u8>)
    ensures
        be_value(bytes) == 0 <==> (forall|j: int| 0 <= j < bytes.len() ==> bytes[j] == 0),
    decreases bytes.len(),
{
    if bytes.len() > 0 {
        let init = bytes.drop_last();
        lemma_be_value_all_zero(init);
        if be_value(bytes) == 0 {
            assert(be_value(init) == 0 && bytes.last() == 0);
            assert forall|j: int| 0 <= j < bytes.len() implies bytes[j] == 0 by {
                if j < init.len() {
                    assert(init[j] == bytes[j]);
                }
            }
        }
        if forall|j: int| 0 <= j < bytes.len() ==> bytes[j] == 0 {
            assert forall|j: int| 0 <= j < init.len() implies init[j] == 0 by {
                assert(init[j] == bytes[j]);
            }
            assert(bytes.last() == bytes[bytes.len() - 1]);
        }
    }
}

/// An unsigned integer of arbitrary size, held as big-endian bytes.
#[derive(Clone, Debug)]
pub struct BigUint {
    bytes: Vec<u8>,
}

impl View for BigUint {
    type V = nat;

    closed spec fn view(&self) -> nat {
        be_value(self.bytes@)
    }
}

impl BigUint {
    /// The number zero.
    pub fn zero() -> (r: Self)
        ensures
            r@ == 0,
    {
        BigUint { bytes: Vec::new() }
    }

    /// The number `value`.
    pub fn from_u64(value: u64) -> (r: Self)
        ensures
            r@ == value as nat,
    {
        proof {
            lemma_be_value_of_minimal_be(value as nat);
        }
        BigUint { bytes: top_encode_u64(value) }
    }

    /// The number that `bytes` denotes as a big-endian byte string of any length.
    pub fn from_bytes_be(bytes: &[u8]) -> (r: Self)
        ensures
            r@ == be_value(bytes@),
    {
        let mut copy: Vec<u8> = Vec::new();
        let mut i: usize = 0;
        while i < bytes.len()
            invariant
                i <= bytes@.len(),
                copy@ == bytes@.take(i as int),
            decreases bytes.len() - i,
        {
            copy.push(bytes[i]);
            proof {
                assert(copy@ =~= bytes@.take(i + 1));
            }
            i += 1;
        }
        proof {
            assert(bytes@.take(i as int) =~= bytes@);
        }
        BigUint { bytes: copy }
    }

    /// The minimal big-endian encoding of the number; empty for zero.
    pub fn to_bytes_be(&self) -> (r: Vec<u8>)
        ensures
            r@ == minimal_be(self@),
    {
        let mut k: usize = 0;
        while k < self.bytes.len() && self.bytes[k] == 0
            invariant
                k <= self.bytes@.len(),
                forall|j: int| 0 <= j < k ==> self.bytes@[j] == 0,
            decreases self.bytes.len() - k,
        {
            k += 1;
        }
        let mut out: Vec<u8> = Vec::new();
        let mut i: usize = k;
        while i < self.bytes.len()
            invariant
                k <= i <= self.bytes@.len(),
                out@ == self.bytes@.subrange(k as int, i as int),
            decreases self.bytes.len() - i,
        {
            out.push(self.bytes[i]);
            proof {
                assert(out@ =~= self.bytes@.subrange(k as int, i + 1));
            }
            i += 1;
        }
        proof {
            let tail = self.bytes@.skip(k as int);
            assert(out@ =~= tail);
            lemma_be_value_skip_zeros(self.bytes@, k as int);
            assert(is_minimal(tail));
            lemma_minimal_be_of_be_value(tail);
        }
        out
    }

    /// Whether the number is zero.
    pub fn is_zero(&self) -> (r: bool)
        ensures
            r == (self@ == 0),
    {
        let mut i: usize = 0;
        while i < self.bytes.len()
            invariant
                i <= self.bytes@.len(),
                forall|j: int| 0 <= j < i ==> self.bytes@[j] == 0,
            decreases self.bytes.len() - i,
        {
            if self.bytes[i] != 0 {
                proof {
                    lemma_be_value_all_zero(self.bytes@);
                    assert(self.bytes@[i as int] != 0);
                }
                return false;
            }
            i += 1;
        }
        proof {
            lemma_be_value_all_zero(self.bytes@);
        }
        true
    }

    /// The sum of the two numbers.
    pub fn plus(&self, other: &BigUint) -> (r: BigUint)
        ensures
            r@ == self@ + other@,
    {
        BigUint { bytes: be_add(&self.bytes, &other.bytes) }
    }

    /// The difference of the two numbers; none where `other` is the greater one.
    pub fn checked_minus(&self, other: &BigUint) -> (r: Option<BigUint>)
        ensures
            r is Some <==> self@ >= other@,
            r matches Some(difference) ==> difference@ == self@ - other@,
    {
        match be_checked_sub(&self.bytes, &other.bytes) {
            Some(bytes) => Some(BigUint { bytes }),
            None => None,
        }
    }

    /// The product of the two numbers.
    pub fn times(&self, other: &BigUint) -> (r: BigUint)
        ensures
            r@ == self@ * other@,
    {
        BigUint { bytes: be_mul(&self.bytes, &other.bytes) }
    }

    /// The quotient and the remainder of the number by `divisor`; none where `divisor` is
    /// zero.
    pub fn div_rem_u32(&self, divisor: u32) -> (r: Option<(BigUint, u32)>)
        ensures
            r is Some <==> divisor != 0,
            r matches Some(pair) ==> pair.0@ == self@ / (divisor as nat) && pair.1 == self@ % (
            divisor as nat),
    {
        if divisor == 0 {
            return None;
        }
        let (bytes, remainder) = be_div_rem(&self.bytes, divisor);
        Some((BigUint { bytes }, remainder))
    }

    /// A copy that denotes the same number.
    pub fn duplicate(&self) -> (r: Self)
        ensures
            r@ == self@,
    {
        BigUint { bytes: self.bytes.clone() }
    }

    /// Whether two values denote the same number.
    pub fn same_as(&self, other: &BigUint) -> (r: bool)
        ensures
            r == (self@ == other@),
    {
        let a = self.to_bytes_be();
        let b = other.to_bytes_be();
        proof {
            lemma_be_value_of_minimal_be(self@);
            lemma_be_value_of_minimal_be(other@);
        }
        crate::types::bytes::bytes_eq(a.as_slice(), b.as_slice())
    }
}

} // verus!
