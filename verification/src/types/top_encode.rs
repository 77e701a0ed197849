//! The ledger's canonical wire encoding of unsigned integers: big-endian bytes of
//! minimal length, the empty buffer standing for zero.

use vstd::prelude::*;

verus! {

/// The number a big-endian byte string denotes. Leading zero bytes do not change it.
pub open spec fn be_value(bytes: Seq<u8>) -> nat
    decreases bytes.len(),
{
    if bytes.len() == 0 {
        0
    } else {
        be_value(bytes.drop_last()) * 256 + bytes.last() as nat
    }
}

/// The shortest big-endian byte string that denotes `n`; empty for zero.
pub open spec fn minimal_be(n: nat) -> Seq<u8>
    decreases n,
{
    if n == 0 {
        Seq::empty()
    } else {
        minimal_be(n / 256).push((n % 256) as u8)
    }
}

/// `256` to the power `k`.
pub open spec fn pow256(k: nat) -> nat
    decreases k,
{
    if k == 0 {
        1
    } else {
        256 * pow256((k - 1) as nat)
    }
}

/// A byte string is in minimal form when it does not start with a zero byte.
pub open spec fn is_minimal(bytes: Seq<u8>) -> bool {
    bytes.len() > 0 ==> bytes[0] != 0
}

/// A byte string of length `k` denotes a number below `256^k`.
pub proof fn lemma_be_value_bound(bytes: Seq<u8>)
    ensures
        be_value(bytes) < pow256(bytes.len()),
    decreases bytes.len(),
{
    if bytes.len() > 0 {
        lemma_be_value_bound(bytes.drop_last());
    }
}

/// `256^8` is one more than the largest `u64`.
pub proof fn lemma_pow256_8()
    ensures
        pow256(8) == 0x1_0000_0000_0000_0000,
{
    reveal_with_fuel(pow256, 9);
}

/// `pow256` is monotone.
pub proof fn lemma_pow256_monotone(a: nat, b: nat)
    requires
        a <= b,
    ensures
        pow256(a) <= pow256(b),
        pow256(a) >= 1,
    decreases b,
{
    if a < b {
        lemma_pow256_monotone(a, (b - 1) as nat);
    } else if a > 0 {
        lemma_pow256_monotone((a - 1) as nat, (a - 1) as nat);
    }
}

/// Decoding undoes encoding, for every natural number.
pub proof fn lemma_be_value_of_minimal_be(n: nat)
    ensures
        be_value(minimal_be(n)) == n,
    decreases n,
{
    if n > 0 {
        lemma_be_value_of_minimal_be(n / 256);
        let s = minimal_be(n / 256).push((n % 256) as u8);
        assert(s.drop_last() =~= minimal_be(n / 256));
        assert(s.last() == (n % 256) as u8);
    }
}

/// The encoding of a number is in minimal form, and a number below `256^k` takes at most
/// `k` bytes.
pub proof fn lemma_minimal_be_shape(n: nat, k: nat)
    requires
        n < pow256(k),
    ensures
        is_minimal(minimal_be(n)),
        minimal_be(n).len() <= k,
        n == 0 <==> minimal_be(n).len() == 0,
    decreases n,
{
    if n > 0 {
        assert(k > 0);
        lemma_minimal_be_shape(n / 256, (k - 1) as nat);
        let head = minimal_be(n / 256);
        if head.len() > 0 {
            assert(head.push((n % 256) as u8)[0] == head[0]);
        } else {
            assert(n / 256 == 0);
            assert(n % 256 == n);
        }
    }
}

/// A non-empty byte string in minimal form denotes a positive number.
pub proof fn lemma_minimal_is_positive(bytes: Seq<u8>)
    requires
        bytes.len() > 0,
        bytes[0] != 0,
    ensures
        be_value(bytes) > 0,
    decreases bytes.len(),
{
    if bytes.len() > 1 {
        assert(bytes.drop_last()[0] == bytes[0]);
        lemma_minimal_is_positive(bytes.drop_last());
    } else {
        assert(bytes.drop_last().len() == 0);
        assert(bytes.last() == bytes[0]);
    }
}

/// Encoding undoes decoding on byte strings in minimal form: every number has exactly one
/// minimal encoding.
pub proof fn lemma_minimal_be_of_be_value(bytes: Seq<u8>)
    requires
        is_minimal(bytes),
    ensures
        minimal_be(be_value(bytes)) == bytes,
    decreases bytes.len(),
{
    if bytes.len() == 0 {
    } else {
        let init = bytes.drop_last();
        let n = be_value(bytes);
        assert(n == be_value(init) * 256 + bytes.last() as nat);
        assert(n / 256 == be_value(init));
        assert(n % 256 == bytes.last() as nat);
        if init.len() > 0 {
            assert(init[0] == bytes[0]);
        }
        lemma_minimal_be_of_be_value(init);
        lemma_minimal_is_positive(bytes);
        assert(minimal_be(n) =~= bytes);
    }
}

/// Round trip of the numeric wire encoding: every `u64` is recovered from its encoding,
/// the encoding takes at most eight bytes, and zero is encoded as the empty buffer.
pub proof fn lemma_u64_round_trip(n: u64)
    ensures
        minimal_be(n as nat).len() <= 8,
        be_value(minimal_be(n as nat)) == n as nat,
        minimal_be(0) == Seq::<u8>::empty(),
{
    lemma_pow256_8();
    lemma_minimal_be_shape(n as nat, 8);
    lemma_be_value_of_minimal_be(n as nat);
}

/// Encodes `value` as minimal big-endian bytes; zero gives the empty buffer.
pub fn top_encode_u64(value: u64) -> (r: Vec<u8>)
    ensures
        r@ == minimal_be(value as nat),
    decreases value,
{
    if value == 0 {
        Vec::new()
    } else {
        let mut r = top_encode_u64(value / 256);
        r.push((value % 256) as u8);
        r
    }
}

/// Decodes big-endian bytes into a `u64`. Leading zero bytes are accepted. A buffer of more
/// than eight bytes is rejected on its length alone.
pub fn top_decode_u64(bytes: &[u8]) -> (r: Option<u64>)
    ensures
        bytes@.len() <= 8 ==> r == Some(be_value(bytes@) as u64) && be_value(bytes@) <= u64::MAX,
        bytes@.len() > 8 ==> r is None,
{
    if bytes.len() > 8 {
        return None;
    }
    let mut acc: u64 = 0;
    let mut i: usize = 0;
    while i < bytes.len()
        invariant
            i <= bytes@.len() <= 8,
            acc as nat == be_value(bytes@.take(i as int)),
            (acc as nat) < pow256(i as nat),
        decreases bytes.len() - i,
    {
        proof {
            lemma_pow256_monotone((i + 1) as nat, 8);
            lemma_pow256_8();
            let next = bytes@.take(i + 1);
            assert(next.drop_last() =~= bytes@.take(i as int));
            assert(next.last() == bytes@[i as int]);
        }
        acc = acc * 256 + bytes[i] as u64;
        i += 1;
    }
    proof {
        assert(bytes@.take(i as int) =~= bytes@);
    }
    Some(acc)
}

} // verus!
