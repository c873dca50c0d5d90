//! The cross-bin swap engine: drives the pair's dynamic-fee state and
//! active id across bins until the requested amount is settled, a grid
//! edge is hit, or the bin-crossing cap is reached.

use vstd::prelude::*;

use crate::bin::{spec_swap_exact_in, spec_swap_exact_out};
use crate::bin_array::{spec_pair_get_bin, spec_pair_set_bin, BinArrayPair, BinArrayPairView};
use crate::constants::{MAX_ACTIVE_ID, MAX_BIN_CROSSING};
use crate::errors::ErrorCode;
use crate::pair::{
    spec_move_active_id, spec_total_fee, spec_update_references,
    spec_update_volatility_accumulator, Pair,
};

verus! {

/// Whether the caller fixes the input or the output amount.
#[derive(Clone, Copy, Debug, PartialEq, Eq, Structural)]
pub enum SwapMode {
    ExactIn,
    ExactOut,
}

/// Everything the swap loop carries from one bin to the next.
/// `total_main` accumulates the quoted side: output for exact-in, input for
/// exact-out.
pub struct SwapLoopState {
    pub pair: Pair,
    pub arrays: BinArrayPairView,
    pub amount_left: u64,
    pub total_main: u64,
    pub total_fee: u64,
    pub total_protocol_fee: u64,
    pub bins_crossed: u32,
}

/// One iteration of the swap loop: refresh the volatility accumulator,
/// swap against the active bin, and fold the bin's outcome into the
/// running totals.
pub open spec fn spec_swap_step(
    state: SwapLoopState,
    swap_for_y: bool,
    swap_type: SwapMode,
) -> Result<SwapLoopState, ErrorCode> {
    let pair = spec_update_volatility_accumulator(state.pair);
    {
        match spec_pair_get_bin(state.arrays, pair.active_id) {
            Err(e) => Err(e),
            Ok(bin) => match spec_total_fee(pair) {
                Err(e) => Err(e),
                Ok(fee) => {
                    let outcome_result = if swap_type is ExactIn {
                        spec_swap_exact_in(
                            bin,
                            pair.bin_step,
                            pair.active_id,
                            state.amount_left,
                            fee,
                            pair.static_fee_parameters.protocol_share as u64,
                            swap_for_y,
                        )
                    } else {
                        spec_swap_exact_out(
                            bin,
                            pair.bin_step,
                            pair.active_id,
                            state.amount_left,
                            fee,
                            pair.static_fee_parameters.protocol_share as u64,
                            swap_for_y,
                        )
                    };
                    match outcome_result {
                        Err(e) => Err(e),
                        Ok(outcome) => {
                            let consumed = if swap_type is ExactIn {
                                outcome.amount_in_with_fees
                            } else {
                                outcome.amount_out
                            };
                            let gained = if swap_type is ExactIn {
                                outcome.amount_out
                            } else {
                                outcome.amount_in_with_fees
                            };
                            if state.total_main + gained > u64::MAX {
                                Err(ErrorCode::AmountOverflow)
                            } else if state.amount_left < consumed {
                                Err(ErrorCode::AmountUnderflow)
                            } else if state.total_protocol_fee + outcome.protocol_fee
                                > u64::MAX {
                                Err(ErrorCode::AmountOverflow)
                            } else if state.total_fee + outcome.fee_amount > u64::MAX {
                                Err(ErrorCode::AmountOverflow)
                            } else {
                                Ok(
                                    SwapLoopState {
                                        pair,
                                        arrays: spec_pair_set_bin(
                                            state.arrays,
                                            pair.active_id,
                                            outcome.bin,
                                        ),
                                        amount_left: (state.amount_left - consumed) as u64,
                                        total_main: (state.total_main + gained) as u64,
                                        total_fee: (state.total_fee + outcome.fee_amount) as u64,
                                        total_protocol_fee: (state.total_protocol_fee
                                            + outcome.protocol_fee) as u64,
                                        bins_crossed: state.bins_crossed,
                                    },
                                )
                            }
                        },
                    }
                },
            },
        }
    }
}

/// The whole swap loop: settle bins until the amount runs out, stepping the
/// active id between bins and giving up after `MAX_BIN_CROSSING` crossings.
pub open spec fn spec_swap_loop(
    state: SwapLoopState,
    swap_for_y: bool,
    swap_type: SwapMode,
) -> Result<SwapLoopState, ErrorCode>
    decreases MAX_BIN_CROSSING - state.bins_crossed,
{
    if state.amount_left == 0 {
        Ok(state)
    } else if state.bins_crossed >= MAX_BIN_CROSSING {
        Err(ErrorCode::SwapCrossesTooManyBins)
    } else {
        match spec_swap_step(state, swap_for_y, swap_type) {
            Err(e) => Err(e),
            Ok(next) => {
                if next.amount_left == 0 {
                    Ok(next)
                } else {
                    match spec_move_active_id(next.pair, swap_for_y) {
                        Err(e) => Err(e),
                        Ok(moved) => spec_swap_loop(
                            SwapLoopState {
                                pair: moved,
                                bins_crossed: (state.bins_crossed + 1) as u32,
                                ..next
                            },
                            swap_for_y,
                            swap_type,
                        ),
                    }
                }
            },
        }
    }
}

/// Full behaviour of `get_swap_result`: update the time references, run the
/// loop, and accrue the protocol's cut on the paying side. Returns the new
/// pair, the new bin arrays, the quoted amount and the total fee.
pub open spec fn spec_get_swap_result(
    pair: Pair,
    arrays: BinArrayPairView,
    amount: u64,
    swap_for_y: bool,
    swap_type: SwapMode,
    block_timestamp: u64,
) -> Result<(Pair, BinArrayPairView, u64, u64), ErrorCode> {
    match spec_update_references(pair, block_timestamp) {
        Err(e) => Err(e),
        Ok(pair0) => match spec_swap_loop(
            SwapLoopState {
                pair: pair0,
                arrays,
                amount_left: amount,
                total_main: 0u64,
                total_fee: 0u64,
                total_protocol_fee: 0u64,
                bins_crossed: 0u32,
            },
            swap_for_y,
            swap_type,
        ) {
            Err(e) => Err(e),
            Ok(fin) => if swap_for_y {
                if fin.pair.protocol_fees_x + fin.total_protocol_fee > u64::MAX {
                    Err(ErrorCode::AmountOverflow)
                } else {
                    Ok(
                        (
                            Pair {
                                protocol_fees_x: (fin.pair.protocol_fees_x
                                    + fin.total_protocol_fee) as u64,
                                ..fin.pair
                            },
                            fin.arrays,
                            fin.total_main,
                            fin.total_fee,
                        ),
                    )
                }
            } else {
                if fin.pair.protocol_fees_y + fin.total_protocol_fee > u64::MAX {
                    Err(ErrorCode::AmountOverflow)
                } else {
                    Ok(
                        (
                            Pair {
                                protocol_fees_y: (fin.pair.protocol_fees_y
                                    + fin.total_protocol_fee) as u64,
                                ..fin.pair
                            },
                            fin.arrays,
                            fin.total_main,
                            fin.total_fee,
                        ),
                    )
                }
            },
        },
    }
}

/// Run a swap over the pair and its two active bin arrays, mutating both
/// working copies in place; returns the quoted amount (output for
/// exact-in, input for exact-out) and the total fee. On an error the
/// working copies are in an intermediate state and must be discarded, but
/// the active id never leaves the bin grid.
#[verifier::loop_isolation(false)]
#[verifier::rlimit(100)]
#[verifier::spinoff_prover]
pub fn get_swap_result(
    pair: &mut Pair,
    bin_array: &mut BinArrayPair,
    amount: u64,
    swap_for_y: bool,
    swap_type: SwapMode,
    block_timestamp: u64,
) -> (r: Result<(u64, u64), ErrorCode>)
    requires
        old(bin_array).bin_array_lower.wf(),
        old(bin_array).bin_array_upper.wf(),
    ensures
        ({
            let s = spec_get_swap_result(
                *old(pair),
                old(bin_array)@,
                amount,
                swap_for_y,
                swap_type,
                block_timestamp,
            );
            match s {
                Ok((new_pair, new_arrays, main, fee)) => r == Ok::<(u64, u64), ErrorCode>(
                    (main, fee),
                ) && *final(pair) == new_pair && final(bin_array)@ == new_arrays,
                Err(e) => r == Err::<(u64, u64), ErrorCode>(e),
            }
        }),
        old(pair).active_id <= MAX_ACTIVE_ID ==> final(pair).active_id <= MAX_ACTIVE_ID,
        final(bin_array).bin_array_lower.wf(),
        final(bin_array).bin_array_upper.wf(),
        final(pair).bump == old(pair).bump,
        final(pair).liquidity_book_config == old(pair).liquidity_book_config,
        final(pair).bin_step == old(pair).bin_step,
        final(pair).bin_step_seed == old(pair).bin_step_seed,
        final(pair).token_mint_x == old(pair).token_mint_x,
        final(pair).token_mint_y == old(pair).token_mint_y,
        final(pair).static_fee_parameters == old(pair).static_fee_parameters,
        final(pair).hook == old(pair).hook,
{
    let ghost entry_pair: Pair = *old(pair);
    pair.update_references(block_timestamp)?;

    let ghost init_state = SwapLoopState {
        pair: *pair,
        arrays: bin_array@,
        amount_left: amount,
        total_main: 0u64,
        total_fee: 0u64,
        total_protocol_fee: 0u64,
        bins_crossed: 0u32,
    };

    let mut amount_left: u64 = amount;
    let mut total_main: u64 = 0;
    let mut total_fee_amount: u64 = 0;
    let mut total_protocol_fee: u64 = 0;
    let mut total_bin_crossed: u32 = 0;

    while amount_left > 0
        invariant
            bin_array.bin_array_lower.wf(),
            bin_array.bin_array_upper.wf(),
            total_bin_crossed <= MAX_BIN_CROSSING,
            entry_pair.active_id <= MAX_ACTIVE_ID ==> pair.active_id <= MAX_ACTIVE_ID,
            pair.bump == entry_pair.bump,
            pair.liquidity_book_config == entry_pair.liquidity_book_config,
            pair.bin_step == entry_pair.bin_step,
            pair.bin_step_seed == entry_pair.bin_step_seed,
            pair.token_mint_x == entry_pair.token_mint_x,
            pair.token_mint_y == entry_pair.token_mint_y,
            pair.static_fee_parameters == entry_pair.static_fee_parameters,
            pair.hook == entry_pair.hook,
            spec_swap_loop(
                SwapLoopState {
                    pair: *pair,
                    arrays: bin_array@,
                    amount_left,
                    total_main,
                    total_fee: total_fee_amount,
                    total_protocol_fee,
                    bins_crossed: total_bin_crossed,
                },
                swap_for_y,
                swap_type,
            ) == spec_swap_loop(init_state, swap_for_y, swap_type),
        decreases MAX_BIN_CROSSING - total_bin_crossed, amount_left,
    {
        let ghost st = SwapLoopState {
            pair: *pair,
            arrays: bin_array@,
            amount_left,
            total_main,
            total_fee: total_fee_amount,
            total_protocol_fee,
            bins_crossed: total_bin_crossed,
        };

        if total_bin_crossed >= MAX_BIN_CROSSING {
            return Err(ErrorCode::SwapCrossesTooManyBins);
        }

        pair.update_volatility_accumulator()?;

        let bin = bin_array.get_bin(pair.active_id)?;

        let fee = pair.get_total_fee()?;
        let protocol_share = pair.get_protocol_share();

        let mut active_bin = bin;
        let swapped = match swap_type {
            SwapMode::ExactIn => active_bin.swap_exact_in(
                pair.bin_step,
                pair.active_id,
                amount_left,
                fee,
                protocol_share,
                swap_for_y,
            ),
            SwapMode::ExactOut => active_bin.swap_exact_out(
                pair.bin_step,
                pair.active_id,
                amount_left,
                fee,
                protocol_share,
                swap_for_y,
            ),
        };
        let (amount_in_with_fees, amount_out_of_bin, fee_amount, protocol_fee) = swapped?;

        match bin_array.set_bin(pair.active_id, active_bin) {
            Ok(()) => (),
            Err(e) => {
                // The lookup above already found this bin, so the write-back
                // cannot miss.
                proof {
                    assert(false);
                }
                return Err(e);
            },
        }

        let consumed = if matches!(swap_type, SwapMode::ExactIn) {
            amount_in_with_fees
        } else {
            amount_out_of_bin
        };
        let gained = if matches!(swap_type, SwapMode::ExactIn) {
            amount_out_of_bin
        } else {
            amount_in_with_fees
        };

        total_main = match total_main.checked_add(gained) {
            Some(v) => v,
            None => {
                return Err(ErrorCode::AmountOverflow);
            },
        };
        if amount_left < consumed {
            return Err(ErrorCode::AmountUnderflow);
        }
        amount_left = amount_left - consumed;
        total_protocol_fee = match total_protocol_fee.checked_add(protocol_fee) {
            Some(v) => v,
            None => {
                return Err(ErrorCode::AmountOverflow);
            },
        };
        total_fee_amount = match total_fee_amount.checked_add(fee_amount) {
            Some(v) => v,
            None => {
                return Err(ErrorCode::AmountOverflow);
            },
        };

        if amount_left > 0 {
            pair.move_active_id(swap_for_y)?;
            total_bin_crossed = total_bin_crossed + 1;
        }

        proof {
            assert(spec_swap_loop(
                SwapLoopState {
                    pair: *pair,
                    arrays: bin_array@,
                    amount_left,
                    total_main,
                    total_fee: total_fee_amount,
                    total_protocol_fee,
                    bins_crossed: total_bin_crossed,
                },
                swap_for_y,
                swap_type,
            ) == spec_swap_loop(st, swap_for_y, swap_type));
        }
    }

    if swap_for_y {
        pair.protocol_fees_x = match pair.protocol_fees_x.checked_add(total_protocol_fee) {
            Some(v) => v,
            None => {
                return Err(ErrorCode::AmountOverflow);
            },
        };
    } else {
        pair.protocol_fees_y = match pair.protocol_fees_y.checked_add(total_protocol_fee) {
            Some(v) => v,
            None => {
                return Err(ErrorCode::AmountOverflow);
            },
        };
    }

    Ok((total_main, total_fee_amount))
}

} // verus!
