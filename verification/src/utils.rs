//! Swap-fee helpers: the protocol's cut of a fee, the fee taken out of an
//! input amount, and the fee owed on top of a desired amount.

use vstd::prelude::*;

use crate::constants::{BASIS_POINT_MAX, PRECISION};
use crate::errors::ErrorCode;

verus! {

/// The protocol's share of a fee: `floor(fee * protocol_share / 10_000)`,
/// failing only when the quotient itself does not fit into 64 bits, which
/// a share within one whole can never cause.
pub open spec fn spec_get_protocol_fee(fee: u64, protocol_share: u64) -> Result<u64, ErrorCode> {
    let protocol_fee = fee * protocol_share / (BASIS_POINT_MAX as int);
    if protocol_fee > u64::MAX {
        Err(ErrorCode::U64ConversionOverflow)
    } else {
        Ok(protocol_fee as u64)
    }
}

/// Portion of `fee` (basis points of `protocol_share`) kept by the protocol.
pub fn get_protocol_fee(fee: u64, protocol_share: u64) -> (r: Result<u64, ErrorCode>)
    ensures
        r == spec_get_protocol_fee(fee, protocol_share),
{
    proof {
        assert(fee * protocol_share <= u128::MAX) by (nonlinear_arith)
            requires
                fee <= u64::MAX,
                protocol_share <= u64::MAX,
        ;
    }
    let protocol_fee: u128 = (fee as u128) * (protocol_share as u128) / (BASIS_POINT_MAX as u128);
    if protocol_fee > u64::MAX as u128 {
        Err(ErrorCode::U64ConversionOverflow)
    } else {
        Ok(protocol_fee as u64)
    }
}

/// The protocol never keeps more than the whole fee while its share stays
/// within one whole (10_000 basis points).
pub proof fn lemma_protocol_fee_bounded(fee: u64, protocol_share: u64)
    requires
        protocol_share <= BASIS_POINT_MAX,
    ensures
        spec_get_protocol_fee(fee, protocol_share) matches Ok(protocol_fee) ==> protocol_fee
            <= fee,
{
    assert(fee * protocol_share <= fee * BASIS_POINT_MAX) by (nonlinear_arith)
        requires
            protocol_share <= BASIS_POINT_MAX,
    ;
    assert(fee * protocol_share / (BASIS_POINT_MAX as int) <= fee * BASIS_POINT_MAX / (
    BASIS_POINT_MAX as int)) by (nonlinear_arith)
        requires
            fee * protocol_share <= fee * BASIS_POINT_MAX,
    ;
    vstd::arithmetic::div_mod::lemma_div_multiples_vanish(fee as int, BASIS_POINT_MAX as int);
    assert(BASIS_POINT_MAX * fee == fee * BASIS_POINT_MAX) by (nonlinear_arith);
}

/// Fee taken out of an input amount: `ceil(amount * fee / PRECISION)`,
/// overflowing when the result does not fit in 64 bits.
pub open spec fn spec_get_fee_amount(amount: u64, fee: u64) -> Result<u64, ErrorCode> {
    let fee_amount = (amount * fee + PRECISION - 1) / (PRECISION as int);
    if fee_amount > u64::MAX {
        Err(ErrorCode::AmountOverflow)
    } else {
        Ok(fee_amount as u64)
    }
}

/// Fee amount taken from the input amount `amount` at rate `fee`
/// (in parts of `PRECISION`), rounded up.
pub fn get_fee_amount(amount: u64, fee: u64) -> (r: Result<u64, ErrorCode>)
    ensures
        r == spec_get_fee_amount(amount, fee),
{
    proof {
        assert(amount * fee <= u128::MAX - PRECISION) by (nonlinear_arith)
            requires
                amount <= u64::MAX,
                fee <= u64::MAX,
        ;
    }
    let product: u128 = (amount as u128) * (fee as u128);
    let fee_amount: u128 = (product + (PRECISION as u128) - 1) / (PRECISION as u128);
    if fee_amount > u64::MAX as u128 {
        Err(ErrorCode::AmountOverflow)
    } else {
        Ok(fee_amount as u64)
    }
}

/// Fee owed on top of a desired net amount:
/// `ceil(amount * fee / (PRECISION - fee))`; a rate at or above the whole
/// `PRECISION` cannot be inverted and overflows.
pub open spec fn spec_get_fee_for_amount(amount: u64, fee: u64) -> Result<u64, ErrorCode> {
    if fee >= PRECISION {
        Err(ErrorCode::AmountOverflow)
    } else {
        let denominator = PRECISION - fee;
        let fee_for_amount = (amount * fee + denominator - 1) / denominator;
        if fee_for_amount > u64::MAX {
            Err(ErrorCode::AmountOverflow)
        } else {
            Ok(fee_for_amount as u64)
        }
    }
}

/// Fee to be paid so that `amount` remains after charging rate `fee`
/// (in parts of `PRECISION`), rounded up.
pub fn get_fee_for_amount(amount: u64, fee: u64) -> (r: Result<u64, ErrorCode>)
    ensures
        r == spec_get_fee_for_amount(amount, fee),
{
    if fee >= PRECISION {
        return Err(ErrorCode::AmountOverflow);
    }
    let denominator: u128 = (PRECISION - fee) as u128;
    proof {
        assert(amount * fee <= u128::MAX - denominator) by (nonlinear_arith)
            requires
                amount <= u64::MAX,
                fee <= u64::MAX,
                denominator <= u64::MAX,
        ;
    }
    let product: u128 = (amount as u128) * (fee as u128);
    let fee_for_amount: u128 = (product + denominator - 1) / denominator;
    if fee_for_amount > u64::MAX as u128 {
        Err(ErrorCode::AmountOverflow)
    } else {
        Ok(fee_for_amount as u64)
    }
}

/// Narrow an optional 128-bit intermediate into 64 bits, turning a missing
/// value into `err` and an oversized one into a conversion error.
pub open spec fn spec_convert_math_result(opt: Option<u128>, err: ErrorCode) -> Result<
    u64,
    ErrorCode,
> {
    match opt {
        None => Err(err),
        Some(value) => if value > u64::MAX {
            Err(ErrorCode::U64ConversionOverflow)
        } else {
            Ok(value as u64)
        },
    }
}

/// Narrow an optional 128-bit fixed-point result into a token amount.
pub fn convert_math_result(opt: Option<u128>, err: ErrorCode) -> (r: Result<u64, ErrorCode>)
    ensures
        r == spec_convert_math_result(opt, err),
{
    match opt {
        None => Err(err),
        Some(value) => {
            if value > u64::MAX as u128 {
                Err(ErrorCode::U64ConversionOverflow)
            } else {
                Ok(value as u64)
            }
        },
    }
}

} // verus!
