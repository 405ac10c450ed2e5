//! Little-endian byte order: how a number of up to sixteen bytes is laid out
//! in a buffer.

use vstd::arithmetic::div_mod::{lemma_breakdown, lemma_div_denominator};
use vstd::prelude::*;

verus! {

/// `256` to the power `n`: how many values `n` bytes hold.
pub open spec fn pow256(n: nat) -> nat
    decreases n,
{
    if n == 0 {
        1
    } else {
        256 * pow256((n - 1) as nat)
    }
}

/// The number whose little-endian bytes are `bytes`: the first byte is the
/// least significant.
pub open spec fn le_value(bytes: Seq<u8>) -> nat
    decreases bytes.len(),
{
    if bytes.len() == 0 {
        0
    } else {
        (bytes[0] + 256 * le_value(bytes.drop_first())) as nat
    }
}

proof fn lemma_pow256_monotone(a: nat, b: nat)
    requires
        a <= b,
    ensures
        1 <= pow256(a) <= pow256(b),
    decreases b,
{
    if b > 0 {
        if a == b {
            lemma_pow256_monotone((a - 1) as nat, (b - 1) as nat);
        } else {
            lemma_pow256_monotone(a, (b - 1) as nat);
        }
    }
}

/// `n` bytes hold a number below `pow256(n)`.
proof fn lemma_le_value_bound(bytes: Seq<u8>)
    ensures
        le_value(bytes) < pow256(bytes.len()),
    decreases bytes.len(),
{
    if bytes.len() > 0 {
        let rest = bytes.drop_first();
        lemma_le_value_bound(rest);
        let low = bytes[0] as int;
        let high = le_value(rest) as int;
        let p = pow256(rest.len()) as int;
        assert(low + 256 * high < 256 * p) by (nonlinear_arith)
            requires
                0 <= low < 256,
                0 <= high < p,
        ;
    }
}

/// A byte appended after `bytes` counts `pow256(bytes.len())` times.
proof fn lemma_le_value_push(bytes: Seq<u8>, b: u8)
    ensures
        le_value(bytes.push(b)) == le_value(bytes) + b * pow256(bytes.len()),
    decreases bytes.len(),
{
    let pushed = bytes.push(b);
    assert(pushed[0] == if bytes.len() == 0 {
        b
    } else {
        bytes[0]
    });
    if bytes.len() == 0 {
        assert(pushed.drop_first() =~= Seq::<u8>::empty());
        assert(le_value(pushed) == b + 256 * le_value(Seq::<u8>::empty()));
        assert(le_value(bytes) == 0);
        assert(pow256(0) == 1);
    } else {
        let rest = bytes.drop_first();
        assert(pushed.drop_first() =~= rest.push(b));
        lemma_le_value_push(rest, b);
        let x = le_value(rest) as int;
        let p = pow256(rest.len()) as int;
        assert(256 * (x + b * p) == 256 * x + b * (256 * p)) by (nonlinear_arith);
        assert(le_value(pushed) == bytes[0] + 256 * le_value(rest.push(b)));
        assert(pow256(bytes.len()) == 256 * p);
        assert(le_value(bytes) == bytes[0] + 256 * x);
    }
}

/// Sixteen bytes hold exactly the values of `u128`.
proof fn lemma_pow256_16()
    ensures
        pow256(16) == u128::MAX + 1,
{
    reveal_with_fuel(pow256, 17);
}

/// The number whose little-endian bytes are `bytes`.
pub fn decode_le(bytes: &[u8]) -> (r: u128)
    requires
        bytes@.len() <= 16,
    ensures
        r == le_value(bytes@),
{
    let n = bytes.len();
    let mut acc: u128 = 0;
    let mut k: usize = n;
    proof {
        lemma_pow256_16();
    }
    assert(bytes@.subrange(n as int, n as int) =~= Seq::<u8>::empty());
    while k > 0
        invariant
            k <= n,
            n == bytes@.len() <= 16,
            pow256(16) == u128::MAX + 1,
            acc == le_value(bytes@.subrange(k as int, n as int)),
        decreases k,
    {
        k = k - 1;
        let s = Ghost(bytes@.subrange(k as int, n as int));
        proof {
            assert(s@.drop_first() =~= bytes@.subrange(k + 1, n as int));
            assert(s@[0] == bytes@[k as int]);
            assert(le_value(s@) == s@[0] + 256 * le_value(s@.drop_first()));
            lemma_le_value_bound(s@);
            lemma_pow256_monotone(s@.len(), 16);
        }
        acc = acc * 256 + bytes[k] as u128;
    }
    assert(bytes@.subrange(0, n as int) =~= bytes@);
    acc
}

/// The first `width` little-endian bytes of `bits`.
pub fn encode_le(bits: u128, width: usize) -> (r: Vec<u8>)
    requires
        width <= 16,
    ensures
        r@.len() == width,
        le_value(r@) == (bits as nat) % pow256(width as nat),
{
    let mut out: Vec<u8> = Vec::with_capacity(width);
    let mut v: u128 = bits;
    let mut k: usize = 0;
    assert(out@ =~= Seq::<u8>::empty());
    assert(pow256(0) == 1);
    assert((bits as nat) / 1 == bits as nat);
    assert((bits as nat) % 1 == 0);
    while k < width
        invariant
            k <= width <= 16,
            out@.len() == k,
            v == (bits as nat) / pow256(k as nat),
            le_value(out@) == (bits as nat) % pow256(k as nat),
        decreases width - k,
    {
        let b = (v % 256) as u8;
        proof {
            let p = pow256(k as nat) as int;
            lemma_pow256_monotone(0, k as nat);
            lemma_le_value_push(out@, b);
            lemma_breakdown(bits as int, p, 256);
            lemma_div_denominator(bits as int, p, 256);
            assert(p * 256 == pow256((k + 1) as nat));
        }
        out.push(b);
        v = v / 256;
        k = k + 1;
    }
    out
}

} // verus!
