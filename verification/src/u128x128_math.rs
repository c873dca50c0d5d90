//! 128.128 fixed-point primitives: multiply-divide with explicit rounding,
//! multiply-shift, shift-divide, and the integer square root.

use vstd::prelude::*;
use vstd::arithmetic::div_mod::lemma_div_multiples_vanish;
use vstd::arithmetic::power2::{lemma2_to64, lemma2_to64_rest, lemma_pow2_adds, pow2};

use crate::wide::{u256_mul_div_ceil, u256_mul_div_floor};

verus! {

/// Rounding direction of a fixed-point division.
#[derive(Clone, Copy, Debug, PartialEq, Eq, Structural)]
pub enum Rounding {
    Up,
    Down,
}

/// `x * y / denominator` with the chosen rounding; `None` on a zero
/// denominator or when the quotient needs more than 128 bits.
pub open spec fn spec_mul_div(x: u128, y: u128, denominator: u128, rounding: Rounding) -> Option<
    u128,
> {
    if denominator == 0 {
        None
    } else {
        let q = match rounding {
            Rounding::Up => (x * y + denominator - 1) / (denominator as int),
            Rounding::Down => x * y / (denominator as int),
        };
        if q <= u128::MAX {
            Some(q as u128)
        } else {
            None
        }
    }
}

/// `(x * y) / denominator`, rounded as requested.
pub fn mul_div(x: u128, y: u128, denominator: u128, rounding: Rounding) -> (r: Option<u128>)
    ensures
        r == spec_mul_div(x, y, denominator, rounding),
{
    if denominator == 0 {
        return None;
    }
    match rounding {
        Rounding::Up => u256_mul_div_ceil(x, y, denominator),
        Rounding::Down => u256_mul_div_floor(x, y, denominator),
    }
}

/// `(x * y) >> offset`, rounded as requested; `None` when the shift is as
/// wide as the type or the result needs more than 128 bits.
pub open spec fn spec_mul_shr(x: u128, y: u128, offset: u8, rounding: Rounding) -> Option<u128> {
    if offset >= 128 {
        None
    } else {
        spec_mul_div(x, y, 1u128 << offset, rounding)
    }
}

/// `(x * y) >> offset`, rounded as requested.
pub fn mul_shr(x: u128, y: u128, offset: u8, rounding: Rounding) -> (r: Option<u128>)
    ensures
        r == spec_mul_shr(x, y, offset, rounding),
{
    if offset >= 128 {
        return None;
    }
    let scale: u128 = 1u128 << offset;
    mul_div(x, y, scale, rounding)
}

/// `(x << offset) / y`, rounded as requested; `None` when the shift is as
/// wide as the type, `y` is zero, or the result needs more than 128 bits.
pub open spec fn spec_shl_div(x: u128, y: u128, offset: u8, rounding: Rounding) -> Option<u128> {
    if offset >= 128 {
        None
    } else {
        spec_mul_div(x, 1u128 << offset, y, rounding)
    }
}

/// `(x << offset) / y`, rounded as requested.
pub fn shl_div(x: u128, y: u128, offset: u8, rounding: Rounding) -> (r: Option<u128>)
    ensures
        r == spec_shl_div(x, y, offset, rounding),
{
    if offset >= 128 {
        return None;
    }
    let scale: u128 = 1u128 << offset;
    mul_div(x, scale, y, rounding)
}

/// Dividing a product by its own multiplier gives back the multiplicand:
/// `mul_div(x, y, y, Down) == x` whenever `y` is not zero.
pub proof fn lemma_mul_div_identity(x: u128, y: u128)
    requires
        y != 0,
    ensures
        spec_mul_div(x, y, y, Rounding::Down) == Some(x),
{
    lemma_div_multiples_vanish(x as int, y as int);
    assert(y * x == x * y) by (nonlinear_arith);
}

/// Powers of two do not overflow 128 bits below the top bit.
proof fn lemma_pow2_128_bound()
    ensures
        pow2(128) == 0x1_0000_0000_0000_0000_0000_0000_0000_0000,
{
    lemma2_to64();
    lemma_pow2_adds(64, 64);
    assert(0x1_0000_0000_0000_0000 * 0x1_0000_0000_0000_0000
        == 0x1_0000_0000_0000_0000_0000_0000_0000_0000) by (nonlinear_arith);
}

/// Position of the highest set bit of `x`, i.e. the largest `r` with
/// `2^r <= x`; 0 when `x` is 0.
pub fn most_significant_bit(x: u128) -> (r: u8)
    ensures
        x == 0 ==> r == 0,
        x >= 1 ==> pow2(r as nat) <= x && x < pow2(r as nat + 1),
{
    if x == 0 {
        return 0;
    }
    let mut r: u8 = 0;
    let mut p: u128 = 1;
    proof {
        lemma2_to64();
    }
    while p <= x / 2
        invariant
            x >= 1,
            r <= 127,
            p == pow2(r as nat),
            p <= x,
        decreases 127 - r,
    {
        proof {
            lemma2_to64();
            lemma_pow2_128_bound();
            if r >= 127 {
                lemma_pow2_adds(127, 1);
                assert(2 * p <= x) by {
                    vstd::arithmetic::div_mod::lemma_fundamental_div_mod(x as int, 2);
                }
                assert(false);
            }
            lemma_pow2_adds(r as nat, 1);
            vstd::arithmetic::div_mod::lemma_fundamental_div_mod(x as int, 2);
        }
        p = p * 2;
        r = r + 1;
    }
    proof {
        lemma2_to64();
        lemma_pow2_adds(r as nat, 1);
        vstd::arithmetic::div_mod::lemma_fundamental_div_mod(x as int, 2);
    }
    r
}

/// Integer square root of a 128-bit value: the unique `r` with
/// `r * r <= x < (r + 1) * (r + 1)`.
pub fn sqrt(x: u128) -> (r: u128)
    ensures
        r * r <= x,
        x < (r + 1) * (r + 1),
{
    let mut root: u128 = 0;
    let mut p: u128 = 0x8000_0000_0000_0000;
    let ghost mut k: nat = 63;
    proof {
        lemma2_to64();
        lemma2_to64_rest();
        assert((0 + 2 * 0x8000_0000_0000_0000int) * (0 + 2 * 0x8000_0000_0000_0000int)
            > x as int) by (nonlinear_arith)
            requires
                x <= u128::MAX,
        ;
    }
    while p > 0
        invariant
            root * root <= x,
            root + 2 * p <= 0x1_0000_0000_0000_0000,
            p > 0 ==> p == pow2(k),
            p > 0 ==> (root + 2 * p) * (root + 2 * p) > x,
            p == 0 ==> (root + 1) * (root + 1) > x,
        decreases p,
    {
        let candidate: u128 = root + p;
        proof {
            assert(candidate * candidate <= u128::MAX) by (nonlinear_arith)
                requires
                    candidate < 0x1_0000_0000_0000_0000u128,
            ;
        }
        if candidate * candidate <= x {
            root = candidate;
        }
        assert((root + p) * (root + p) > x);
        proof {
            lemma2_to64();
        lemma2_to64_rest();
            if p > 1 {
                lemma_pow2_adds((k - 1) as nat, 1);
                k = (k - 1) as nat;
            }
        }
        p = p / 2;
    }
    root
}

} // verus!
