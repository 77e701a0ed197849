//! Arithmetic on big-endian byte strings of any length.

use vstd::prelude::*;
use crate::types::top_encode::{be_value, lemma_be_value_bound, pow256};

verus! {

/// The number that the first `n` bytes denote is that of the first `n - 1`, shifted by one
/// byte, plus the byte at position `n - 1`.
proof fn lemma_be_value_take(bytes: Seq<u8>, n: int)
    requires
        0 < n <= bytes.len(),
    ensures
        be_value(bytes.take(n)) == be_value(bytes.take(n - 1)) * 256 + bytes[n - 1] as nat,
{
    assert(bytes.take(n).drop_last() =~= bytes.take(n - 1));
    assert(bytes.take(n).last() == bytes[n - 1]);
}

/// Appending a byte shifts the number by one byte and adds the byte.
proof fn lemma_be_value_push(bytes: Seq<u8>, last: u8)
    ensures
        be_value(bytes.push(last)) == be_value(bytes) * 256 + last as nat,
{
    assert(bytes.push(last).drop_last() =~= bytes);
    assert(bytes.push(last).last() == last);
}

fn add_prefixes(x: &Vec<u8>, nx: usize, y: &Vec<u8>, ny: usize, carry: u8) -> (r: Vec<u8>)
    requires
        nx <= x@.len(),
        ny <= y@.len(),
        carry <= 1,
    ensures
        be_value(r@) == be_value(x@.take(nx as int)) + be_value(y@.take(ny as int)) + carry,
    decreases nx + ny,
{
    if nx == 0 && ny == 0 {
        let mut r: Vec<u8> = Vec::new();
        if carry != 0 {
            r.push(carry);
            proof {
                lemma_be_value_push(Seq::<u8>::empty(), carry);
            }
        }
        r
    } else {
        let dx: u8 = if nx > 0 {
            x[nx - 1]
        } else {
            0
        };
        let dy: u8 = if ny > 0 {
            y[ny - 1]
        } else {
            0
        };
        let rest_x: usize = if nx > 0 {
            nx - 1
        } else {
            0
        };
        let rest_y: usize = if ny > 0 {
            ny - 1
        } else {
            0
        };
        let sum: u16 = dx as u16 + dy as u16 + carry as u16;
        let mut r = add_prefixes(x, rest_x, y, rest_y, (sum / 256) as u8);
        proof {
            if nx > 0 {
                lemma_be_value_take(x@, nx as int);
            }
            if ny > 0 {
                lemma_be_value_take(y@, ny as int);
            }
            lemma_be_value_push(r@, (sum % 256) as u8);
        }
        r.push((sum % 256) as u8);
        r
    }
}

/// The sum of the numbers that `x` and `y` denote.
pub fn be_add(x: &Vec<u8>, y: &Vec<u8>) -> (r: Vec<u8>)
    ensures
        be_value(r@) == be_value(x@) + be_value(y@),
{
    proof {
        assert(x@.take(x@.len() as int) =~= x@);
        assert(y@.take(y@.len() as int) =~= y@);
    }
    add_prefixes(x, x.len(), y, y.len(), 0)
}

fn sub_prefixes(x: &Vec<u8>, nx: usize, y: &Vec<u8>, ny: usize, borrow: u8) -> (r: (Vec<u8>, u8))
    requires
        nx <= x@.len(),
        ny <= y@.len(),
        borrow <= 1,
    ensures
        r.1 <= 1,
        r.0@.len() == (if nx >= ny {
            nx
        } else {
            ny
        }),
        be_value(r.0@) - r.1 * pow256(r.0@.len()) == be_value(x@.take(nx as int)) - be_value(
            y@.take(ny as int),
        ) - borrow,
    decreases nx + ny,
{
    if nx == 0 && ny == 0 {
        proof {
            assert(pow256(0) == 1);
            assert(borrow * pow256(0) == borrow) by (nonlinear_arith)
                requires
                    pow256(0) == 1,
            ;
        }
        (Vec::new(), borrow)
    } else {
        let dx: u8 = if nx > 0 {
            x[nx - 1]
        } else {
            0
        };
        let dy: u8 = if ny > 0 {
            y[ny - 1]
        } else {
            0
        };
        let rest_x: usize = if nx > 0 {
            nx - 1
        } else {
            0
        };
        let rest_y: usize = if ny > 0 {
            ny - 1
        } else {
            0
        };
        let taken: u16 = dy as u16 + borrow as u16;
        let (digit, next_borrow): (u8, u8) = if (dx as u16) < taken {
            ((dx as u16 + 256 - taken) as u8, 1)
        } else {
            ((dx as u16 - taken) as u8, 0)
        };
        let (mut digits, out) = sub_prefixes(x, rest_x, y, rest_y, next_borrow);
        proof {
            if nx > 0 {
                lemma_be_value_take(x@, nx as int);
            }
            if ny > 0 {
                lemma_be_value_take(y@, ny as int);
            }
            lemma_be_value_push(digits@, digit);
            let n = digits@.len();
            assert(pow256(n + 1) == 256 * pow256(n));
            assert(out * pow256(n + 1) == (out * pow256(n)) * 256) by (nonlinear_arith)
                requires
                    pow256(n + 1) == 256 * pow256(n),
            ;
        }
        digits.push(digit);
        (digits, out)
    }
}

/// The difference of the numbers that `x` and `y` denote, where the first is not the
/// smaller one.
pub fn be_checked_sub(x: &Vec<u8>, y: &Vec<u8>) -> (r: Option<Vec<u8>>)
    ensures
        r is Some <==> be_value(x@) >= be_value(y@),
        r matches Some(difference) ==> be_value(difference@) == be_value(x@) - be_value(y@),
{
    proof {
        assert(x@.take(x@.len() as int) =~= x@);
        assert(y@.take(y@.len() as int) =~= y@);
    }
    let (digits, borrow) = sub_prefixes(x, x.len(), y, y.len(), 0);
    proof {
        lemma_be_value_bound(digits@);
    }
    if borrow == 0 {
        Some(digits)
    } else {
        None
    }
}

fn mul_prefix(x: &Vec<u8>, n: usize, factor: u8, carry: u8) -> (r: Vec<u8>)
    requires
        n <= x@.len(),
    ensures
        be_value(r@) == be_value(x@.take(n as int)) * factor + carry,
    decreases n,
{
    if n == 0 {
        let mut r: Vec<u8> = Vec::new();
        proof {
            assert(be_value(x@.take(0)) == 0);
            assert(0 * (factor as int) == 0);
        }
        if carry != 0 {
            r.push(carry);
            proof {
                lemma_be_value_push(Seq::<u8>::empty(), carry);
            }
        }
        r
    } else {
        let digit = x[n - 1];
        assert(digit as u32 * factor as u32 <= 255 * 255) by (nonlinear_arith)
            requires
                digit <= 255,
                factor <= 255,
        ;
        let product: u32 = digit as u32 * factor as u32 + carry as u32;
        let mut r = mul_prefix(x, n - 1, factor, (product / 256) as u8);
        proof {
            lemma_be_value_take(x@, n as int);
            lemma_be_value_push(r@, (product % 256) as u8);
            let head = be_value(x@.take(n - 1));
            assert((head * 256 + digit) * factor == head * factor * 256 + digit * factor)
                by (nonlinear_arith);
        }
        r.push((product % 256) as u8);
        r
    }
}

/// The product of the numbers that `x` and `y` denote.
pub fn be_mul(x: &Vec<u8>, y: &Vec<u8>) -> (r: Vec<u8>)
    ensures
        be_value(r@) == be_value(x@) * be_value(y@),
{
    let mut acc: Vec<u8> = Vec::new();
    let mut i: usize = 0;
    assert(be_value(y@.take(0)) == 0);
    assert(be_value(x@) * 0 == 0) by (nonlinear_arith);
    while i < y.len()
        invariant
            i <= y@.len(),
            be_value(acc@) == be_value(x@) * be_value(y@.take(i as int)),
        decreases y.len() - i,
    {
        let ghost before = acc@;
        acc.push(0);
        let part = mul_prefix(x, x.len(), y[i], 0);
        proof {
            lemma_be_value_push(before, 0);
            lemma_be_value_take(y@, i + 1);
            assert(x@.take(x@.len() as int) =~= x@);
            let a = be_value(x@);
            let head = be_value(y@.take(i as int));
            let digit = y@[i as int];
            assert(a * (head * 256 + digit) == (a * head) * 256 + a * digit) by (nonlinear_arith);
        }
        acc = be_add(&acc, &part);
        i += 1;
    }
    proof {
        assert(y@.take(i as int) =~= y@);
    }
    acc
}

/// The quotient and the remainder of the number that `x` denotes by `divisor`.
pub fn be_div_rem(x: &Vec<u8>, divisor: u32) -> (r: (Vec<u8>, u32))
    requires
        divisor > 0,
    ensures
        be_value(r.0@) == be_value(x@) / (divisor as nat),
        r.1 == be_value(x@) % (divisor as nat),
{
    let mut quotient: Vec<u8> = Vec::new();
    let mut rem: u64 = 0;
    let mut i: usize = 0;
    assert(be_value(x@.take(0)) == 0);
    assert(0 * (divisor as int) == 0);
    while i < x.len()
        invariant
            i <= x@.len(),
            divisor > 0,
            rem < divisor,
            be_value(x@.take(i as int)) == be_value(quotient@) * divisor + rem,
        decreases x.len() - i,
    {
        let step: u64 = rem * 256 + x[i] as u64;
        let digit = step / divisor as u64;
        assert(digit < 256) by (nonlinear_arith)
            requires
                digit == step / (divisor as u64),
                step < divisor * 256,
                divisor > 0,
        ;
        proof {
            lemma_be_value_take(x@, i + 1);
            lemma_be_value_push(quotient@, digit as u8);
            let q = be_value(quotient@);
            let d = divisor as int;
            assert(step == digit * d + step % (divisor as u64)) by (nonlinear_arith)
                requires
                    digit == step / (divisor as u64),
                    d == divisor,
                    d > 0,
            ;
            assert((q * 256 + digit) * d == (q * d) * 256 + digit * d) by (nonlinear_arith);
        }
        quotient.push(digit as u8);
        rem = step % divisor as u64;
        i += 1;
    }
    proof {
        assert(x@.take(i as int) =~= x@);
        let total = be_value(x@) as int;
        let q = be_value(quotient@) as int;
        let d = divisor as int;
        assert(total / d == q && total % d == rem) by (nonlinear_arith)
            requires
                total == q * d + rem,
                0 <= rem < d,
                q >= 0,
        ;
    }
    (quotient, rem as u32)
}

} // verus!
