//! The quote entry point: normalise the requested amount through the
//! inbound transfer fee, run the cross-bin swap over working copies of the
//! pair and its bin arrays, and wrap the result through the outbound
//! transfer fee.

use vstd::prelude::*;

use crate::bin_array::{BinArray, BinArrayPair, BinArrayPairView};
use crate::errors::ErrorCode;
use crate::fees::{
    compute_transfer_amount_for_expected_output, compute_transfer_fee, spec_compute_transfer_amount,
    spec_compute_transfer_fee, TokenTransferFee, TransferFee,
};
use crate::pair::Pair;
use crate::pubkey::Pubkey;
use crate::swap_manager::{get_swap_result, spec_get_swap_result, SwapMode};

verus! {

/// A finished quote: what goes in, what comes out, the swap fee collected
/// on the way, and the mint that fee is denominated in.
#[derive(Clone, Copy, Debug)]
pub struct Quote {
    pub in_amount: u64,
    pub out_amount: u64,
    pub fee_amount: u64,
    pub fee_mint: Pubkey,
}

/// A swap sells X for Y exactly when the source mint is the pair's X mint.
pub fn is_swap_for_y(source_mint: &Pubkey, token_x: &Pubkey) -> (r: bool)
    ensures
        r == (source_mint@ == token_x@),
{
    source_mint.key_eq(token_x)
}

/// The quoted `(in_amount, out_amount, fee_amount)` triple, transfer fees
/// included: exact-in strips the inbound transfer fee, swaps, then strips
/// the outbound one; exact-out grosses the desired output up, swaps, then
/// grosses the needed input up.
pub open spec fn spec_quote_amounts(
    pair: Pair,
    arrays: BinArrayPairView,
    epoch_transfer_fee_in: Option<TransferFee>,
    epoch_transfer_fee_out: Option<TransferFee>,
    swap_for_y: bool,
    amount: u64,
    swap_mode: SwapMode,
    block_timestamp: u64,
) -> Result<(u64, u64, u64), ErrorCode> {
    if swap_mode is ExactIn {
        match spec_compute_transfer_fee(epoch_transfer_fee_in, amount) {
            Err(e) => Err(e),
            Ok((internal_in, _)) => match spec_get_swap_result(
                pair,
                arrays,
                internal_in,
                swap_for_y,
                SwapMode::ExactIn,
                block_timestamp,
            ) {
                Err(e) => Err(e),
                Ok((_, _, amount_out, fee_amount)) => match spec_compute_transfer_fee(
                    epoch_transfer_fee_out,
                    amount_out,
                ) {
                    Err(e) => Err(e),
                    Ok((external_out, _)) => Ok((amount, external_out, fee_amount)),
                },
            },
        }
    } else {
        match spec_compute_transfer_amount(epoch_transfer_fee_out, amount) {
            Err(e) => Err(e),
            Ok((internal_out, _)) => match spec_get_swap_result(
                pair,
                arrays,
                internal_out,
                swap_for_y,
                SwapMode::ExactOut,
                block_timestamp,
            ) {
                Err(e) => Err(e),
                Ok((_, _, amount_in, fee_amount)) => match spec_compute_transfer_amount(
                    epoch_transfer_fee_in,
                    amount_in,
                ) {
                    Err(e) => Err(e),
                    Ok((external_in, _)) => Ok((external_in, amount, fee_amount)),
                },
            },
        }
    }
}

/// Quote a swap against snapshots of the pair and its two active bin
/// arrays. The input mint must be one of the pair's mints and the arrays
/// must be adjacent; the swap runs on working copies, so the caller's
/// snapshots are never changed and nothing is committed.
pub fn quote(
    pair: &Pair,
    bin_array_lower: BinArray,
    bin_array_upper: BinArray,
    token_transfer_fee: &TokenTransferFee,
    input_mint: &Pubkey,
    amount: u64,
    swap_mode: SwapMode,
    block_timestamp: u64,
) -> (r: Result<Quote, ErrorCode>)
    requires
        bin_array_lower.wf(),
        bin_array_upper.wf(),
    ensures
        input_mint@ != pair.token_mint_x@ && input_mint@ != pair.token_mint_y@ ==> r == Err::<
            Quote,
            ErrorCode,
        >(ErrorCode::InvalidMint),
        (input_mint@ == pair.token_mint_x@ || input_mint@ == pair.token_mint_y@)
            && bin_array_upper.index != bin_array_lower.index + 1 ==> r == Err::<
            Quote,
            ErrorCode,
        >(ErrorCode::BinArrayIndexMismatch),
        (input_mint@ == pair.token_mint_x@ || input_mint@ == pair.token_mint_y@)
            && bin_array_upper.index == bin_array_lower.index + 1 ==> ({
            let swap_for_y = input_mint@ == pair.token_mint_x@;
            let amounts = spec_quote_amounts(
                *pair,
                BinArrayPairView { lower: bin_array_lower@, upper: bin_array_upper@ },
                if swap_for_y {
                    token_transfer_fee.epoch_transfer_fee_x
                } else {
                    token_transfer_fee.epoch_transfer_fee_y
                },
                if swap_for_y {
                    token_transfer_fee.epoch_transfer_fee_y
                } else {
                    token_transfer_fee.epoch_transfer_fee_x
                },
                swap_for_y,
                amount,
                swap_mode,
                block_timestamp,
            );
            match amounts {
                Ok((in_amount, out_amount, fee_amount)) => (r matches Ok(q) && q.in_amount
                    == in_amount && q.out_amount == out_amount && q.fee_amount == fee_amount
                    && q.fee_mint@ == (if swap_for_y {
                    pair.token_mint_x@
                } else {
                    pair.token_mint_y@
                })),
                Err(e) => r == Err::<Quote, ErrorCode>(e),
            }
        }),
{
    let swap_for_y: bool = if input_mint.key_eq(&pair.token_mint_x) {
        true
    } else if input_mint.key_eq(&pair.token_mint_y) {
        false
    } else {
        return Err(ErrorCode::InvalidMint);
    };

    let fee_mint = if swap_for_y {
        pair.token_mint_x
    } else {
        pair.token_mint_y
    };
    let epoch_transfer_fee_in = if swap_for_y {
        token_transfer_fee.epoch_transfer_fee_x
    } else {
        token_transfer_fee.epoch_transfer_fee_y
    };
    let epoch_transfer_fee_out = if swap_for_y {
        token_transfer_fee.epoch_transfer_fee_y
    } else {
        token_transfer_fee.epoch_transfer_fee_x
    };

    let mut working_arrays = BinArrayPair::merge(bin_array_lower, bin_array_upper)?;
    let mut working_pair = *pair;

    match swap_mode {
        SwapMode::ExactIn => {
            let (internal_in, _) = compute_transfer_fee(epoch_transfer_fee_in, amount)?;
            let (amount_out, fee_amount) = get_swap_result(
                &mut working_pair,
                &mut working_arrays,
                internal_in,
                swap_for_y,
                SwapMode::ExactIn,
                block_timestamp,
            )?;
            let (external_out, _) = compute_transfer_fee(epoch_transfer_fee_out, amount_out)?;
            Ok(Quote { in_amount: amount, out_amount: external_out, fee_amount, fee_mint })
        },
        SwapMode::ExactOut => {
            let (internal_out, _) = compute_transfer_amount_for_expected_output(
                epoch_transfer_fee_out,
                amount,
            )?;
            let (amount_in, fee_amount) = get_swap_result(
                &mut working_pair,
                &mut working_arrays,
                internal_out,
                swap_for_y,
                SwapMode::ExactOut,
                block_timestamp,
            )?;
            let (external_in, _) = compute_transfer_amount_for_expected_output(
                epoch_transfer_fee_in,
                amount_in,
            )?;
            Ok(Quote { in_amount: external_in, out_amount: amount, fee_amount, fee_mint })
        },
    }
}

} // verus!
