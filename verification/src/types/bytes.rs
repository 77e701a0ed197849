//! Helpers on byte buffers.

use vstd::prelude::*;

verus! {

/// Whether two byte buffers hold the same bytes.
pub fn bytes_eq(a: &[u8], b: &[u8]) -> (r: bool)
    ensures
        r == (a@ == b@),
{
    if a.len() != b.len() {
        return false;
    }
    let mut i: usize = 0;
    while i < a.len()
        invariant
            i <= a@.len(),
            a@.len() == b@.len(),
            forall|j: int| 0 <= j < i ==> a@[j] == b@[j],
        decreases a.len() - i,
    {
        if a[i] != b[i] {
            return false;
        }
        i += 1;
    }
    proof {
        assert(a@ =~= b@);
    }
    true
}

/// A copy of a byte buffer.
pub fn bytes_to_vec(a: &[u8]) -> (r: Vec<u8>)
    ensures
        r@ == a@,
{
    let mut out: Vec<u8> = Vec::new();
    let mut i: usize = 0;
    while i < a.len()
        invariant
            i <= a@.len(),
            out@ == a@.take(i as int),
        decreases a.len() - i,
    {
        out.push(a[i]);
        proof {
            assert(out@ =~= a@.take(i + 1));
        }
        i += 1;
    }
    proof {
        assert(a@.take(i as int) =~= a@);
    }
    out
}

/// The contents of a list of byte buffers.
pub open spec fn buffers_view(list: Seq<Vec<u8>>) -> Seq<Seq<u8>> {
    Seq::new(list.len(), |i: int| list[i]@)
}

/// A copy of a list of byte buffers.
pub fn buffers_to_vec(list: &[Vec<u8>]) -> (r: Vec<Vec<u8>>)
    ensures
        buffers_view(r@) == buffers_view(list@),
{
    let mut out: Vec<Vec<u8>> = Vec::new();
    let mut i: usize = 0;
    while i < list.len()
        invariant
            i <= list@.len(),
            out@.len() == i,
            forall|j: int| 0 <= j < i ==> out@[j]@ == list@[j]@,
        decreases list.len() - i,
    {
        out.push(list[i].clone());
        i += 1;
    }
    proof {
        assert(buffers_view(out@) =~= buffers_view(list@));
    }
    out
}

/// A copy of the buffers of `list` from position `start` on.
pub fn buffers_from(list: &Vec<Vec<u8>>, start: usize) -> (r: Vec<Vec<u8>>)
    requires
        start <= list@.len(),
    ensures
        buffers_view(r@) == buffers_view(list@).skip(start as int),
{
    let mut out: Vec<Vec<u8>> = Vec::new();
    let mut i: usize = start;
    while i < list.len()
        invariant
            start <= i <= list@.len(),
            out@.len() == i - start,
            forall|j: int| 0 <= j < i - start ==> out@[j]@ == list@[start + j]@,
        decreases list.len() - i,
    {
        out.push(list[i].clone());
        i += 1;
    }
    proof {
        assert(buffers_view(out@) =~= buffers_view(list@).skip(start as int));
    }
    out
}

} // verus!
