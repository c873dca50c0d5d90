//! Transfer-fee wrapping: some mints charge a basis-point fee on every
//! token movement, so a quote nests the swap between an inbound and an
//! outbound transfer-fee computation. The per-epoch fee arithmetic itself
//! is the token program's.

use vstd::prelude::*;

use crate::constants::BASIS_POINT_MAX;
use crate::errors::ErrorCode;

verus! {

/// Per-epoch transfer-fee parameters of one mint: the rate in basis points
/// and the cap on a single transfer's fee.
#[derive(Clone, Copy, Debug, PartialEq, Eq, Structural)]
pub struct TransferFee {
    pub transfer_fee_basis_points: u16,
    pub maximum_fee: u64,
}

/// Optional transfer-fee descriptors for the two sides of a pair.
#[derive(Clone, Copy, Debug)]
pub struct TokenTransferFee {
    pub epoch_transfer_fee_x: Option<TransferFee>,
    pub epoch_transfer_fee_y: Option<TransferFee>,
}

impl TokenTransferFee {
    /// Descriptors for both mints; `None` marks a mint with no transfer fee.
    pub fn new(epoch_transfer_fee_x: Option<TransferFee>, epoch_transfer_fee_y: Option<
        TransferFee,
    >) -> (r: TokenTransferFee)
        ensures
            r.epoch_transfer_fee_x == epoch_transfer_fee_x,
            r.epoch_transfer_fee_y == epoch_transfer_fee_y,
    {
        TokenTransferFee { epoch_transfer_fee_x, epoch_transfer_fee_y }
    }
}

/// The token program's fee on a transfer of `pre_fee_amount`: zero on a
/// zero rate or amount, else the basis-point fee rounded up, capped at
/// `maximum_fee`; `None` when the uncapped fee exceeds 64 bits.
pub open spec fn spec_calculate_fee(fee: TransferFee, pre_fee_amount: u64) -> Option<u64> {
    if fee.transfer_fee_basis_points == 0 || pre_fee_amount == 0 {
        Some(0u64)
    } else {
        let raw_fee = (pre_fee_amount * fee.transfer_fee_basis_points + BASIS_POINT_MAX - 1) / (
        BASIS_POINT_MAX as int);
        if raw_fee > u64::MAX {
            None
        } else if raw_fee > fee.maximum_fee {
            Some(fee.maximum_fee)
        } else {
            Some(raw_fee as u64)
        }
    }
}

/// The token program's smallest gross amount whose transfer nets
/// `post_fee_amount`: the net amount grossed up against the remaining
/// rate, switching to the flat `maximum_fee` once the proportional fee
/// would reach it; a rate of one whole always charges the cap.
pub open spec fn spec_calculate_pre_fee_amount(fee: TransferFee, post_fee_amount: u64) -> Option<
    u64,
> {
    if fee.transfer_fee_basis_points == 0 {
        Some(post_fee_amount)
    } else if post_fee_amount == 0 {
        Some(0u64)
    } else if fee.transfer_fee_basis_points == BASIS_POINT_MAX {
        if fee.maximum_fee + post_fee_amount > u64::MAX {
            None
        } else {
            Some((fee.maximum_fee + post_fee_amount) as u64)
        }
    } else if fee.transfer_fee_basis_points > BASIS_POINT_MAX {
        None
    } else {
        let denominator = BASIS_POINT_MAX - fee.transfer_fee_basis_points as int;
        let raw_pre_fee_amount = (post_fee_amount * BASIS_POINT_MAX + denominator - 1)
            / denominator;
        if raw_pre_fee_amount - post_fee_amount >= fee.maximum_fee {
            if post_fee_amount + fee.maximum_fee > u64::MAX {
                None
            } else {
                Some((post_fee_amount + fee.maximum_fee) as u64)
            }
        } else {
            if raw_pre_fee_amount > u64::MAX {
                None
            } else {
                Some(raw_pre_fee_amount as u64)
            }
        }
    }
}

/// The token program's fee owed on top of a desired net amount: the fee on
/// the grossed-up transfer.
pub open spec fn spec_calculate_inverse_fee(fee: TransferFee, post_fee_amount: u64) -> Option<
    u64,
> {
    match spec_calculate_pre_fee_amount(fee, post_fee_amount) {
        None => None,
        Some(pre_fee_amount) => spec_calculate_fee(fee, pre_fee_amount),
    }
}

/// Relies on spl_token_2022's `TransferFee::calculate_fee`: zero on a zero
/// rate or amount, else `ceil(amount * basis_points / 10_000)` capped at
/// `maximum_fee`, and `None` when the uncapped fee exceeds 64 bits.
#[allow(deprecated)]
#[verifier::external_body]
fn calculate_fee(fee: &TransferFee, pre_fee_amount: u64) -> (r: Option<u64>)
    ensures
        r == spec_calculate_fee(*fee, pre_fee_amount),
{
    let spl_fee = spl_token_2022::extension::transfer_fee::TransferFee {
        epoch: 0u64.into(),
        maximum_fee: fee.maximum_fee.into(),
        transfer_fee_basis_points: fee.transfer_fee_basis_points.into(),
    };
    spl_fee.calculate_fee(pre_fee_amount)
}

/// Relies on spl_token_2022's `TransferFee::calculate_inverse_fee`: the fee
/// on the smallest gross amount netting `post_fee_amount`, where that gross
/// amount is the net grossed up against the remaining rate, or net plus
/// `maximum_fee` once the proportional fee reaches the cap.
#[allow(deprecated)]
#[verifier::external_body]
fn calculate_inverse_fee(fee: &TransferFee, post_fee_amount: u64) -> (r: Option<u64>)
    ensures
        r == spec_calculate_inverse_fee(*fee, post_fee_amount),
{
    let spl_fee = spl_token_2022::extension::transfer_fee::TransferFee {
        epoch: 0u64.into(),
        maximum_fee: fee.maximum_fee.into(),
        transfer_fee_basis_points: fee.transfer_fee_basis_points.into(),
    };
    spl_fee.calculate_inverse_fee(post_fee_amount)
}

/// Net amount and fee of one transfer: `(amount - fee(amount), fee(amount))`,
/// or `(amount, 0)` without a descriptor.
pub open spec fn spec_compute_transfer_fee(
    epoch_transfer_fee: Option<TransferFee>,
    amount: u64,
) -> Result<(u64, u64), ErrorCode> {
    match epoch_transfer_fee {
        None => Ok((amount, 0u64)),
        Some(fee) => match spec_calculate_fee(fee, amount) {
            None => Err(ErrorCode::TransferFeeCalculationError),
            Some(transfer_fee) => if transfer_fee > amount {
                Err(ErrorCode::TransferFeeCalculationError)
            } else {
                Ok(((amount - transfer_fee) as u64, transfer_fee))
            },
        },
    }
}

/// Apply a mint's transfer fee to `amount`, returning the net amount and
/// the fee taken.
pub fn compute_transfer_fee(epoch_transfer_fee: Option<TransferFee>, amount: u64) -> (r: Result<
    (u64, u64),
    ErrorCode,
>)
    ensures
        r == spec_compute_transfer_fee(epoch_transfer_fee, amount),
{
    if let Some(fee) = epoch_transfer_fee {
        let transfer_fee = match calculate_fee(&fee, amount) {
            Some(value) => value,
            None => {
                return Err(ErrorCode::TransferFeeCalculationError);
            },
        };
        if transfer_fee > amount {
            return Err(ErrorCode::TransferFeeCalculationError);
        }
        return Ok((amount - transfer_fee, transfer_fee));
    }
    Ok((amount, 0))
}

/// Gross amount and fee that net to `expected_output` after the mint's
/// transfer fee: the inverse fee (or the flat cap at a rate of one whole),
/// re-checked forward so that an inexact inversion is rejected rather than
/// quoted.
pub open spec fn spec_compute_transfer_amount(
    epoch_transfer_fee: Option<TransferFee>,
    expected_output: u64,
) -> Result<(u64, u64), ErrorCode> {
    if expected_output == 0 {
        Ok((0u64, 0u64))
    } else {
        match epoch_transfer_fee {
            None => Ok((expected_output, 0u64)),
            Some(fee) => {
                let transfer_fee_opt = if fee.transfer_fee_basis_points == BASIS_POINT_MAX {
                    Some(fee.maximum_fee)
                } else {
                    spec_calculate_inverse_fee(fee, expected_output)
                };
                match transfer_fee_opt {
                    None => Err(ErrorCode::TransferFeeCalculationError),
                    Some(transfer_fee) => if expected_output + transfer_fee > u64::MAX {
                        Err(ErrorCode::TransferFeeCalculationError)
                    } else {
                        let transfer_fee_included_amount = (expected_output + transfer_fee)
                            as u64;
                        match spec_calculate_fee(fee, transfer_fee_included_amount) {
                            None => Err(ErrorCode::TransferFeeCalculationError),
                            Some(verification_fee) => if verification_fee != transfer_fee {
                                Err(ErrorCode::TransferFeeCalculationError)
                            } else {
                                Ok((transfer_fee_included_amount, transfer_fee))
                            },
                        }
                    },
                }
            },
        }
    }
}

/// Gross up `expected_output` through a mint's transfer fee, with the
/// forward self-check of the inversion.
pub fn compute_transfer_amount(
    epoch_transfer_fee: Option<TransferFee>,
    expected_output: u64,
) -> (r: Result<(u64, u64), ErrorCode>)
    ensures
        r == spec_compute_transfer_amount(epoch_transfer_fee, expected_output),
{
    if expected_output == 0 {
        return Ok((0, 0));
    }
    if let Some(fee) = epoch_transfer_fee {
        let transfer_fee: u64 = if fee.transfer_fee_basis_points == BASIS_POINT_MAX as u16 {
            fee.maximum_fee
        } else {
            match calculate_inverse_fee(&fee, expected_output) {
                Some(value) => value,
                None => {
                    return Err(ErrorCode::TransferFeeCalculationError);
                },
            }
        };
        let transfer_fee_included_amount = match expected_output.checked_add(transfer_fee) {
            Some(total) => total,
            None => {
                return Err(ErrorCode::TransferFeeCalculationError);
            },
        };
        let verification_fee = match calculate_fee(&fee, transfer_fee_included_amount) {
            Some(value) => value,
            None => {
                return Err(ErrorCode::TransferFeeCalculationError);
            },
        };
        if verification_fee != transfer_fee {
            return Err(ErrorCode::TransferFeeCalculationError);
        }
        return Ok((transfer_fee_included_amount, transfer_fee));
    }
    Ok((expected_output, 0))
}

/// Net amount and fee of one transfer; a named alias of
/// `compute_transfer_fee` kept for callers quoting the input side.
pub fn compute_transfer_fee_amount(
    epoch_transfer_fee: Option<TransferFee>,
    transfer_amount: u64,
) -> (r: Result<(u64, u64), ErrorCode>)
    ensures
        r == spec_compute_transfer_fee(epoch_transfer_fee, transfer_amount),
{
    compute_transfer_fee(epoch_transfer_fee, transfer_amount)
}

/// Gross amount and fee that net to `expected_output`; zero stays zero.
pub fn compute_transfer_amount_for_expected_output(
    epoch_transfer_fee: Option<TransferFee>,
    expected_output: u64,
) -> (r: Result<(u64, u64), ErrorCode>)
    ensures
        r == spec_compute_transfer_amount(epoch_transfer_fee, expected_output),
{
    if expected_output == 0 {
        return Ok((0, 0));
    }
    compute_transfer_amount(epoch_transfer_fee, expected_output)
}

} // verus!
