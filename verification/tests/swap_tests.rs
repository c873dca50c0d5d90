use saros_dlmm::bin::Bin;
use saros_dlmm::bin_array::{BinArray, BinArrayPair};
use saros_dlmm::bin_math::get_price_from_id;
use saros_dlmm::constants::{MAX_ACTIVE_ID, MIDDLE_BIN_ID};
use saros_dlmm::errors::ErrorCode;
use saros_dlmm::fee::{DynamicFeeParameters, StaticFeeParameters};
use saros_dlmm::fees::{TokenTransferFee, TransferFee};
use saros_dlmm::pair::Pair;
use saros_dlmm::pubkey::Pubkey;
use saros_dlmm::quote::{is_swap_for_y, quote};
use saros_dlmm::swap_manager::{get_swap_result, SwapMode};
use saros_dlmm::u128x128_math::{shl_div, Rounding};

const MIDDLE: u32 = 8_388_608;

fn flat_pair(bin_step: u8, base_factor: u16, protocol_share: u16) -> Pair {
    Pair {
        bump: 0,
        liquidity_book_config: Pubkey::zeroed(),
        bin_step,
        bin_step_seed: 0,
        token_mint_x: Pubkey::new([1u8; 32]),
        token_mint_y: Pubkey::new([2u8; 32]),
        static_fee_parameters: StaticFeeParameters {
            base_factor,
            filter_period: 10,
            decay_period: 100,
            reduction_factor: 5000,
            variable_fee_control: 0,
            max_volatility_accumulator: 350_000,
            protocol_share,
        },
        active_id: MIDDLE,
        dynamic_fee_parameters: DynamicFeeParameters {
            time_last_updated: 0,
            volatility_accumulator: 0,
            volatility_reference: 0,
            id_reference: MIDDLE,
        },
        protocol_fees_x: 0,
        protocol_fees_y: 0,
        hook: None,
    }
}

fn arrays_at(lower_index: u32) -> (BinArray, BinArray) {
    (
        BinArray::new(Pubkey::zeroed(), lower_index),
        BinArray::new(Pubkey::zeroed(), lower_index + 1),
    )
}

#[test]
fn bin_swap_exact_in_at_the_centre_price() {
    let mut bin = Bin { total_supply: 0, reserve_x: 0, reserve_y: 10_000 };
    let result = bin.swap_exact_in(10, MIDDLE, 1000, 0, 0, true).unwrap();
    assert_eq!(result, (1000, 1000, 0, 0));
    assert_eq!(bin.reserve_x, 1000);
    assert_eq!(bin.reserve_y, 9000);
}

#[test]
fn bin_swap_exact_in_drains_the_bin_and_charges_the_fee() {
    let mut bin = Bin { total_supply: 0, reserve_x: 0, reserve_y: 10_000 };
    // 0.1 % fee; the bin is fully consumed and the protocol keeps 10 %.
    let result = bin.swap_exact_in(10, MIDDLE, 1_000_000, 1_000_000, 1000, true).unwrap();
    let (amount_in_with_fees, amount_out, fee_amount, protocol_fee) = result;
    assert_eq!(fee_amount, 11); // ceil(10_000 * 10^6 / (10^9 - 10^6))
    assert_eq!(amount_in_with_fees, 10_011);
    assert_eq!(amount_out, 10_000);
    assert_eq!(protocol_fee, 1); // floor(11 * 1000 / 10_000)
    assert_eq!(bin.reserve_x, 10_010); // grows by input net of the protocol cut
    assert_eq!(bin.reserve_y, 0);
    // Conservation: gross input is net input plus the fee.
    assert_eq!(amount_in_with_fees, 10_000 + fee_amount);
    assert!(protocol_fee <= fee_amount);
}

#[test]
fn bin_swap_exact_out_charges_the_fee_on_top() {
    let mut bin = Bin { total_supply: 0, reserve_x: 0, reserve_y: 10_000 };
    let result = bin.swap_exact_out(10, MIDDLE, 4000, 1_000_000, 0, true).unwrap();
    let (amount_in_with_fees, amount_out, fee_amount, protocol_fee) = result;
    assert_eq!(amount_out, 4000);
    assert_eq!(fee_amount, 5); // ceil(4000 * 10^6 / (10^9 - 10^6))
    assert_eq!(amount_in_with_fees, 4005);
    assert_eq!(protocol_fee, 0);
    assert_eq!(bin.reserve_x, 4005);
    assert_eq!(bin.reserve_y, 6000);
}

#[test]
fn an_empty_bin_contributes_nothing() {
    let mut bin = Bin { total_supply: 0, reserve_x: 5, reserve_y: 0 };
    assert_eq!(bin.swap_exact_in(10, MIDDLE, 1000, 0, 0, true).unwrap(), (0, 0, 0, 0));
    assert_eq!(bin.reserve_x, 5);
    let mut bin = Bin { total_supply: 0, reserve_x: 0, reserve_y: 7 };
    assert_eq!(bin.swap_exact_out(10, MIDDLE, 1000, 0, 0, false).unwrap(), (0, 0, 0, 0));
    assert_eq!(bin.reserve_y, 7);
    // An empty bin settles to zeros before the price is even needed, so a
    // price that cannot be computed does not fail it.
    let mut bin = Bin { total_supply: 0, reserve_x: 0, reserve_y: 0 };
    assert_eq!(bin.swap_exact_in(0, MIDDLE, 1000, 0, 0, true).unwrap(), (0, 0, 0, 0));
    assert_eq!(bin.swap_exact_out(0, MIDDLE, 1000, 0, 0, false).unwrap(), (0, 0, 0, 0));
}

#[test]
fn a_priceless_bin_fails_with_a_math_error() {
    // Far below the centre the fixed-point price underflows to zero, so the
    // required input cannot be computed.
    let price = get_price_from_id(1, 0).unwrap();
    assert_eq!(price, 0);
    let mut bin = Bin { total_supply: 0, reserve_x: 0, reserve_y: 1000 };
    assert_eq!(
        bin.swap_exact_in(1, 0, 1000, 0, 0, true),
        Err(ErrorCode::ShlDivMathError)
    );
}

#[test]
fn an_unpayable_bin_overflows_the_input() {
    // A very cheap bin needs more than 64 bits of input to be drained.
    let cheap_id = MIDDLE - 1000;
    let mut bin = Bin { total_supply: 0, reserve_x: 0, reserve_y: u64::MAX };
    assert_eq!(
        bin.swap_exact_in(100, cheap_id, u64::MAX, 0, 0, true),
        Err(ErrorCode::U64ConversionOverflow)
    );
}

#[test]
fn exact_in_quote_stays_in_the_centre_bin() {
    // One bin consumed, the fee is exactly the base fee, the id stays put.
    let mut pair = flat_pair(10, 10_000, 0);
    let (lower, upper) = arrays_at(MIDDLE / 256);
    let mut lower = lower;
    lower
        .set_bin(MIDDLE, Bin { total_supply: 0, reserve_x: 0, reserve_y: 100_000_000 })
        .unwrap();
    let mut arrays = BinArrayPair::merge(lower, upper).unwrap();

    let (amount_out, fee_amount) =
        get_swap_result(&mut pair, &mut arrays, 1_000_000, true, SwapMode::ExactIn, 50).unwrap();
    // The base fee rate is 10_000 * 10 * 10 = 10^6 of 10^9.
    assert_eq!(fee_amount, 1000);
    assert_eq!(amount_out, 999_000);
    assert_eq!(pair.active_id, MIDDLE);
    assert_eq!(arrays.get_bin(MIDDLE).unwrap().reserve_y, 100_000_000 - 999_000);
    assert_eq!(arrays.get_bin(MIDDLE).unwrap().reserve_x, 1_000_000);
}

#[test]
fn exact_in_crossing_the_full_bin_budget_succeeds() {
    // Thirty one-token bins: the swap uses all of them within the cap.
    let mut pair = flat_pair(1, 0, 0);
    let (mut lower, upper) = arrays_at(MIDDLE / 256);
    let mut amount: u64 = 0;
    for k in 0..30u32 {
        lower
            .set_bin(MIDDLE + k, Bin { total_supply: 0, reserve_x: 1, reserve_y: 0 })
            .unwrap();
        amount += if k == 0 { 1 } else { 2 };
    }
    assert_eq!(amount, 59);
    let mut arrays = BinArrayPair::merge(lower, upper).unwrap();

    let (amount_out, fee_amount) =
        get_swap_result(&mut pair, &mut arrays, amount, false, SwapMode::ExactIn, 50).unwrap();
    assert_eq!(amount_out, 30);
    assert_eq!(fee_amount, 0);
    // The final bin is settled without an extra edge move.
    assert_eq!(pair.active_id, MIDDLE + 29);
}

#[test]
fn exact_in_crossing_one_bin_too_many_is_rejected() {
    let mut pair = flat_pair(1, 0, 0);
    let (mut lower, upper) = arrays_at(MIDDLE / 256);
    let mut amount: u64 = 0;
    for k in 0..31u32 {
        lower
            .set_bin(MIDDLE + k, Bin { total_supply: 0, reserve_x: 1, reserve_y: 0 })
            .unwrap();
        amount += if k == 0 { 1 } else { 2 };
    }
    let mut arrays = BinArrayPair::merge(lower, upper).unwrap();

    let result = get_swap_result(&mut pair, &mut arrays, amount, false, SwapMode::ExactIn, 50);
    assert_eq!(result, Err(ErrorCode::SwapCrossesTooManyBins));
}

#[test]
fn exact_out_drains_both_arrays_for_the_grossed_up_input() {
    // The active side of both windows holds 3_000 units in all; ask for
    // exactly that much output.
    let mut pair = flat_pair(1, 0, 0);
    let lower_index = MIDDLE / 256 - 1;
    let (mut lower, mut upper) = arrays_at(lower_index);
    upper
        .set_bin(MIDDLE, Bin { total_supply: 0, reserve_x: 0, reserve_y: 1000 })
        .unwrap();
    lower
        .set_bin(MIDDLE - 1, Bin { total_supply: 0, reserve_x: 0, reserve_y: 1000 })
        .unwrap();
    lower
        .set_bin(MIDDLE - 2, Bin { total_supply: 0, reserve_x: 0, reserve_y: 1000 })
        .unwrap();
    let mut arrays = BinArrayPair::merge(lower, upper).unwrap();

    // The expected input is the price-side gross-up of each drained bin.
    let mut expected_in: u64 = 0;
    for id in [MIDDLE, MIDDLE - 1, MIDDLE - 2] {
        let price = get_price_from_id(1, id).unwrap();
        expected_in += shl_div(1000, price, 64, Rounding::Up).unwrap() as u64;
    }

    let (amount_in, fee_amount) =
        get_swap_result(&mut pair, &mut arrays, 3000, true, SwapMode::ExactOut, 50).unwrap();
    assert_eq!(amount_in, expected_in);
    assert_eq!(fee_amount, 0);
    assert_eq!(pair.active_id, MIDDLE - 2);
    for id in [MIDDLE, MIDDLE - 1, MIDDLE - 2] {
        assert_eq!(arrays.get_bin(id).unwrap().reserve_y, 0);
    }
}

#[test]
fn protocol_fees_accrue_on_the_paying_side() {
    let mut pair = flat_pair(10, 10_000, 2_500);
    let (mut lower, upper) = arrays_at(MIDDLE / 256);
    lower
        .set_bin(MIDDLE, Bin { total_supply: 0, reserve_x: 0, reserve_y: 100_000_000 })
        .unwrap();
    let mut arrays = BinArrayPair::merge(lower, upper).unwrap();

    let (_, fee_amount) =
        get_swap_result(&mut pair, &mut arrays, 1_000_000, true, SwapMode::ExactIn, 50).unwrap();
    assert_eq!(fee_amount, 1000);
    // A quarter of the fee goes to the protocol, on the input (X) side.
    assert_eq!(pair.protocol_fees_x, 250);
    assert_eq!(pair.protocol_fees_y, 0);
}

#[test]
fn quote_wraps_both_transfer_fees_around_the_swap() {
    // 5 % inbound and 1 % outbound transfer fees around a fee-free swap at
    // the centre price: 1_000 in, 950 swapped, 940 out.
    let pair = flat_pair(1, 0, 0);
    let (mut lower, upper) = arrays_at(MIDDLE / 256);
    lower
        .set_bin(MIDDLE, Bin { total_supply: 0, reserve_x: 0, reserve_y: 10_000 })
        .unwrap();
    let fees = TokenTransferFee::new(
        Some(TransferFee { transfer_fee_basis_points: 500, maximum_fee: u64::MAX }),
        Some(TransferFee { transfer_fee_basis_points: 100, maximum_fee: u64::MAX }),
    );

    let result = quote(
        &pair,
        lower,
        upper,
        &fees,
        &Pubkey::new([1u8; 32]),
        1000,
        SwapMode::ExactIn,
        50,
    )
    .unwrap();
    assert_eq!(result.in_amount, 1000);
    assert_eq!(result.out_amount, 940);
    assert_eq!(result.fee_amount, 0);
    assert_eq!(result.fee_mint.bytes, [1u8; 32]);
}

#[test]
fn quote_rejects_a_foreign_mint_and_misaligned_arrays() {
    let pair = flat_pair(1, 0, 0);
    let (lower, upper) = arrays_at(MIDDLE / 256);
    let fees = TokenTransferFee::new(None, None);
    let result = quote(
        &pair,
        lower,
        upper,
        &fees,
        &Pubkey::new([9u8; 32]),
        1000,
        SwapMode::ExactIn,
        50,
    );
    assert!(matches!(result, Err(ErrorCode::InvalidMint)));

    let lower = BinArray::new(Pubkey::zeroed(), MIDDLE / 256);
    let upper = BinArray::new(Pubkey::zeroed(), MIDDLE / 256 + 2);
    let result = quote(
        &pair,
        lower,
        upper,
        &fees,
        &Pubkey::new([1u8; 32]),
        1000,
        SwapMode::ExactIn,
        50,
    );
    assert!(matches!(result, Err(ErrorCode::BinArrayIndexMismatch)));
}

#[test]
fn quote_fees_decay_after_an_idle_decay_period() {
    // The same swap is cheaper once the volatility reference has decayed to
    // zero than just before the filter period elapses.
    let mut pair = flat_pair(1, 100, 0);
    pair.static_fee_parameters.variable_fee_control = 50_000;
    pair.dynamic_fee_parameters.volatility_accumulator = 50_000;
    pair.dynamic_fee_parameters.volatility_reference = 30_000;
    pair.dynamic_fee_parameters.time_last_updated = 1000;
    let (mut lower, upper) = arrays_at(MIDDLE / 256);
    lower
        .set_bin(
            MIDDLE,
            Bin { total_supply: 0, reserve_x: 0, reserve_y: 1_000_000_000_000 },
        )
        .unwrap();
    let fees = TokenTransferFee::new(None, None);
    let mint_x = Pubkey::new([1u8; 32]);

    let decayed = quote(
        &pair,
        lower.clone(),
        upper.clone(),
        &fees,
        &mint_x,
        1_000_000_000,
        SwapMode::ExactIn,
        1000 + 100,
    )
    .unwrap();
    let fresh = quote(
        &pair,
        lower,
        upper,
        &fees,
        &mint_x,
        1_000_000_000,
        SwapMode::ExactIn,
        1000 + 9,
    )
    .unwrap();
    // Decayed: only the base fee of 100 * 1 * 10 = 1_000 parts per 10^9.
    assert_eq!(decayed.fee_amount, 1000);
    // Fresh: the volatility reference still adds a variable fee of
    // ceil((30_000 * 1)^2 * 50_000 / 10^11) = 450.
    assert_eq!(fresh.fee_amount, 1450);
    assert!(decayed.fee_amount < fresh.fee_amount);
}

#[test]
fn active_id_stays_on_the_grid_through_swaps() {
    let mut pair = flat_pair(1, 0, 0);
    pair.active_id = 0;
    let (lower, upper) = arrays_at(0);
    let mut arrays = BinArrayPair::merge(lower, upper).unwrap();
    // Bin zero is empty, so the swap immediately falls off the lower edge.
    let result = get_swap_result(&mut pair, &mut arrays, 10, true, SwapMode::ExactIn, 50);
    assert_eq!(result, Err(ErrorCode::ActiveIdUnderflow));
    assert!(pair.active_id <= MAX_ACTIVE_ID);
}

#[test]
fn a_zero_amount_quote_is_empty() {
    let pair = flat_pair(1, 0, 0);
    let (lower, upper) = arrays_at(MIDDLE / 256);
    let fees = TokenTransferFee::new(None, None);
    let result = quote(
        &pair,
        lower,
        upper,
        &fees,
        &Pubkey::new([1u8; 32]),
        0,
        SwapMode::ExactIn,
        50,
    )
    .unwrap();
    assert_eq!(result.in_amount, 0);
    assert_eq!(result.out_amount, 0);
    assert_eq!(result.fee_amount, 0);
}

#[test]
fn is_swap_for_y_compares_the_source_mint_to_x() {
    assert!(is_swap_for_y(&Pubkey::new([1u8; 32]), &Pubkey::new([1u8; 32])));
    assert!(!is_swap_for_y(&Pubkey::new([1u8; 32]), &Pubkey::new([2u8; 32])));
}
