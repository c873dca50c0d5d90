//! 64.64 fixed-point exponentiation: the geometric bin-price base and its
//! power function, computed by square-and-multiply over the inverted
//! fraction so that every intermediate stays below one.

use vstd::prelude::*;

use crate::constants::{BASIS_POINT_MAX, ONE};

verus! {

/// One square-and-multiply pass: repeatedly squares `sq` (keeping 64
/// fractional bits) and folds it into `res` on the set bits of `e`.
pub open spec fn spec_pow_loop(sq: int, res: int, e: nat) -> int
    decreases e,
{
    if e == 0 {
        res
    } else {
        spec_pow_loop(
            (sq * sq) / (ONE as int),
            if e % 2 == 1 {
                (res * sq) / (ONE as int)
            } else {
                res
            },
            e / 2,
        )
    }
}

/// The 64.64 representation of `1 + bin_step / BASIS_POINT_MAX`.
pub open spec fn spec_get_base(bin_step: u8) -> u128 {
    (ONE + (bin_step * ONE) / (BASIS_POINT_MAX as int)) as u128
}

/// `base(bin_step) = 1 + bin_step / 10_000` in 64.64 fixed point.
pub fn get_base(bin_step: u8) -> (r: u128)
    ensures
        r == spec_get_base(bin_step),
        r >= ONE,
{
    let quotient: u128 = (bin_step as u128) * ONE / (BASIS_POINT_MAX as u128);
    ONE + quotient
}

/// `base^exp` in 64.64 fixed point, by square-and-multiply on the 64
/// fractional bits of `1/base` (or of `base` itself when `base < 1`).
/// `None` when the exponent magnitude reaches 2^24 or the result needs
/// more than 128 bits; a positive power that underflows to zero is 0.
pub open spec fn spec_pow(base: u128, exp: i32) -> Option<u128> {
    if exp == 0 {
        Some(ONE)
    } else {
        let e = if exp < 0 {
            -(exp as int)
        } else {
            exp as int
        };
        if e >= 0x100_0000 {
            None
        } else {
            let sq0 = if base >= ONE {
                (u128::MAX as int) / (base as int)
            } else {
                base as int
            };
            let invert = (exp < 0) != (base >= ONE);
            let res = spec_pow_loop(sq0, ONE as int, e as nat);
            if res == 0 {
                if invert {
                    None
                } else {
                    Some(0u128)
                }
            } else if invert {
                Some(((u128::MAX as int) / res) as u128)
            } else {
                Some(res as u128)
            }
        }
    }
}

/// Raise a 64.64 fixed-point `base` to a signed integer power.
pub fn pow(base: u128, exp: i32) -> (r: Option<u128>)
    ensures
        r == spec_pow(base, exp),
{
    if exp == 0 {
        return Some(ONE);
    }
    let e_wide: i64 = if exp < 0 {
        -(exp as i64)
    } else {
        exp as i64
    };
    let mut e: u32 = e_wide as u32;
    if e >= 0x100_0000 {
        return None;
    }
    let mut invert: bool = exp < 0;
    let mut sq: u128 = base;
    if sq >= ONE {
        sq = u128::MAX / sq;
        invert = !invert;
        proof {
            assert(u128::MAX as int / (base as int) < ONE) by (nonlinear_arith)
                requires
                    base >= ONE,
            ;
        }
    }
    let mut res: u128 = ONE;
    let ghost sq0: int = sq as int;
    let ghost e0: nat = e as nat;
    while e > 0
        invariant
            sq < ONE,
            res <= ONE,
            spec_pow_loop(sq as int, res as int, e as nat) == spec_pow_loop(sq0, ONE as int, e0),
        decreases e,
    {
        let ghost sq_old: int = sq as int;
        let ghost res_old: int = res as int;
        let ghost e_old: nat = e as nat;
        if e % 2 == 1 {
            proof {
                assert(res * sq <= u128::MAX && res * sq / (ONE as int) <= ONE)
                    by (nonlinear_arith)
                    requires
                        res <= ONE,
                        sq < ONE,
                        ONE == 0x1_0000_0000_0000_0000u128,
                ;
            }
            res = (res * sq) / ONE;
        }
        proof {
            assert(sq * sq <= u128::MAX && sq * sq / (ONE as int) < ONE) by (nonlinear_arith)
                requires
                    sq < ONE,
                    ONE == 0x1_0000_0000_0000_0000u128,
            ;
        }
        sq = (sq * sq) / ONE;
        e = e / 2;
        proof {
            assert(spec_pow_loop(sq_old, res_old, e_old) == spec_pow_loop(
                sq as int,
                res as int,
                e as nat,
            ));
        }
    }
    if res == 0 {
        if invert {
            None
        } else {
            Some(0)
        }
    } else if invert {
        Some(u128::MAX / res)
    } else {
        Some(res)
    }
}

} // verus!
