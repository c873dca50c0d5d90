//! The bin price curve: `price(bin_step, id) = base(bin_step)^(id - 2^23)`
//! in 64.64 fixed point, so the centre bin has price exactly one.

use vstd::prelude::*;

use crate::constants::{MIDDLE_BIN_ID, ONE};
use crate::errors::ErrorCode;
use crate::u64x64_math::{get_base, pow, spec_get_base, spec_pow};

verus! {

/// Price of bin `id` on a grid with the given step, in 64.64 fixed point.
/// A zero step has no geometric base; an id beyond `i32::MAX` or a power
/// that cannot be represented is a cast error.
pub open spec fn spec_get_price_from_id(bin_step: u8, id: u32) -> Result<u128, ErrorCode> {
    if bin_step == 0 {
        Err(ErrorCode::DivideByZero)
    } else if id > i32::MAX {
        Err(ErrorCode::NumberCastError)
    } else {
        match spec_pow(spec_get_base(bin_step), (id - MIDDLE_BIN_ID) as i32) {
            Some(price) => Ok(price),
            None => Err(ErrorCode::NumberCastError),
        }
    }
}

/// Price of bin `id` on a grid with step `bin_step`, in 64.64 fixed point.
pub fn get_price_from_id(bin_step: u8, id: u32) -> (r: Result<u128, ErrorCode>)
    ensures
        r == spec_get_price_from_id(bin_step, id),
{
    if bin_step == 0 {
        return Err(ErrorCode::DivideByZero);
    }
    if id > i32::MAX as u32 {
        return Err(ErrorCode::NumberCastError);
    }
    let base = get_base(bin_step);
    let exponent: i32 = (id as i32) - MIDDLE_BIN_ID;
    match pow(base, exponent) {
        Some(price) => Ok(price),
        None => Err(ErrorCode::NumberCastError),
    }
}

/// The centre bin is priced at exactly one: `price(bin_step, 2^23)` is the
/// 64.64 fixed-point unit for every non-zero bin step.
pub proof fn lemma_price_identity_at_centre(bin_step: u8)
    requires
        bin_step != 0,
    ensures
        spec_get_price_from_id(bin_step, MIDDLE_BIN_ID as u32) == Ok::<u128, ErrorCode>(ONE),
{
}

} // verus!
