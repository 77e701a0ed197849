use vstd::prelude::*;

verus! {

/// Fixed-length identifier of an account.
#[derive(Clone, Copy, Debug)]
pub struct VMAddress {
    pub bytes: [u8; 32],
}

impl View for VMAddress {
    type V = Seq<u8>;

    open spec fn view(&self) -> Seq<u8> {
        self.bytes@
    }
}

impl VMAddress {
    /// Wraps the given 32 bytes.
    pub fn new(bytes: [u8; 32]) -> (r: Self)
        ensures
            r@ == bytes@,
            r.bytes == bytes,
    {
        VMAddress { bytes }
    }

    /// The address made of 32 zero bytes.
    pub fn zero() -> (r: Self)
        ensures
            r@ == Seq::new(32, |i: int| 0u8),
    {
        let r = VMAddress { bytes: [0u8; 32] };
        assert(r@ =~= Seq::new(32, |i: int| 0u8));
        r
    }

    /// Byte-wise comparison of two addresses.
    pub fn same_as(&self, other: &VMAddress) -> (r: bool)
        ensures
            r == (self@ == other@),
            r == (*self == *other),
    {
        let mut i: usize = 0;
        while i < 32
            invariant
                i <= 32,
                forall|j: int| 0 <= j < i ==> self.bytes[j] == other.bytes[j],
            decreases 32 - i,
        {
            if self.bytes[i] != other.bytes[i] {
                return false;
            }
            i += 1;
        }
        assert(self.bytes =~= other.bytes);
        assert(self@ =~= other@);
        true
    }
}

} // verus!
