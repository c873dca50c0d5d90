use saros_dlmm::bin::Bin;
use saros_dlmm::bin_array::BinArray;
use saros_dlmm::fee::{DynamicFeeParameters, StaticFeeParameters};
use saros_dlmm::pair::Pair;
use saros_dlmm::pubkey::Pubkey;

fn sample_static_fee() -> StaticFeeParameters {
    StaticFeeParameters {
        base_factor: 513,
        filter_period: 30,
        decay_period: 600,
        reduction_factor: 5000,
        variable_fee_control: 40_000,
        max_volatility_accumulator: 350_000,
        protocol_share: 2000,
    }
}

fn sample_dynamic_fee() -> DynamicFeeParameters {
    DynamicFeeParameters {
        time_last_updated: 1_700_000_000,
        volatility_accumulator: 120_000,
        volatility_reference: 60_000,
        id_reference: 8_388_600,
    }
}

fn sample_pair() -> Pair {
    Pair {
        bump: 254,
        liquidity_book_config: Pubkey::new([3u8; 32]),
        bin_step: 10,
        bin_step_seed: 10,
        token_mint_x: Pubkey::new([4u8; 32]),
        token_mint_y: Pubkey::new([5u8; 32]),
        static_fee_parameters: sample_static_fee(),
        active_id: 8_388_700,
        dynamic_fee_parameters: sample_dynamic_fee(),
        protocol_fees_x: 123_456,
        protocol_fees_y: 654_321,
        hook: Some(Pubkey::new([6u8; 32])),
    }
}

#[test]
fn bin_pack_unpack_is_the_identity() {
    let bin = Bin { total_supply: 77_u128 << 64, reserve_x: 11, reserve_y: 22 };
    let bytes = bin.pack();
    assert_eq!(bytes.len(), 32);
    let back = Bin::unpack(&bytes).unwrap();
    assert_eq!(back, bin);
    assert!(Bin::unpack(&bytes[1..]).is_none());
}

#[test]
fn bin_bytes_are_little_endian() {
    let bin = Bin { total_supply: 1, reserve_x: 0x0201, reserve_y: 0 };
    let bytes = bin.pack();
    assert_eq!(bytes[0], 1);
    assert_eq!(&bytes[16..18], &[0x01, 0x02]);
    assert_eq!(bytes[24], 0);
}

#[test]
fn static_fee_pack_unpack_is_the_identity() {
    let parameters = sample_static_fee();
    let bytes = parameters.pack();
    assert_eq!(bytes.len(), 20);
    let back = StaticFeeParameters::unpack(&bytes).unwrap();
    assert_eq!(back, parameters);
    assert!(StaticFeeParameters::unpack(&bytes[..19]).is_none());
}

#[test]
fn dynamic_fee_pack_unpack_is_the_identity() {
    let parameters = sample_dynamic_fee();
    let bytes = parameters.pack();
    assert_eq!(bytes.len(), 24);
    let back = DynamicFeeParameters::unpack(&bytes).unwrap();
    assert_eq!(back, parameters);
    assert!(DynamicFeeParameters::unpack(&bytes[..20]).is_none());
}

#[test]
fn pair_pack_unpack_is_the_identity() {
    let pair = sample_pair();
    let bytes = pair.pack();
    assert_eq!(bytes.len(), 204);
    let back = Pair::unpack(&bytes).unwrap();
    assert_eq!(back.bump, pair.bump);
    assert_eq!(back.liquidity_book_config.bytes, pair.liquidity_book_config.bytes);
    assert_eq!(back.bin_step, pair.bin_step);
    assert_eq!(back.bin_step_seed, pair.bin_step_seed);
    assert_eq!(back.token_mint_x.bytes, pair.token_mint_x.bytes);
    assert_eq!(back.token_mint_y.bytes, pair.token_mint_y.bytes);
    assert_eq!(back.static_fee_parameters, pair.static_fee_parameters);
    assert_eq!(back.active_id, pair.active_id);
    assert_eq!(back.dynamic_fee_parameters, pair.dynamic_fee_parameters);
    assert_eq!(back.protocol_fees_x, pair.protocol_fees_x);
    assert_eq!(back.protocol_fees_y, pair.protocol_fees_y);
    assert_eq!(back.hook.unwrap().bytes, [6u8; 32]);
}

#[test]
fn pair_without_a_hook_packs_a_zero_flag() {
    let mut pair = sample_pair();
    pair.hook = None;
    let bytes = pair.pack();
    assert_eq!(bytes[171], 0);
    assert!(bytes[172..204].iter().all(|b| *b == 0));
    let back = Pair::unpack(&bytes).unwrap();
    assert!(back.hook.is_none());
}

#[test]
fn pair_unpack_rejects_bad_input() {
    let pair = sample_pair();
    let mut bytes = pair.pack();
    // A hook flag other than 0 or 1 is a decode error.
    bytes[171] = 2;
    assert!(Pair::unpack(&bytes).is_none());
    bytes[171] = 1;
    assert!(Pair::unpack(&bytes[..203]).is_none());
}

#[test]
fn pair_discriminator_is_fixed() {
    let bytes = sample_pair().pack();
    assert_eq!(&bytes[0..8], &[85, 72, 49, 176, 182, 228, 141, 82]);
}

#[test]
fn bin_array_pack_unpack_is_the_identity() {
    let mut array = BinArray::new(Pubkey::new([7u8; 32]), 32_768);
    array
        .set_bin(
            32_768 * 256,
            Bin { total_supply: 9, reserve_x: 1000, reserve_y: 2000 },
        )
        .unwrap();
    array
        .set_bin(
            32_768 * 256 + 255,
            Bin { total_supply: 8, reserve_x: 1, reserve_y: 2 },
        )
        .unwrap();
    let bytes = array.pack();
    assert_eq!(bytes.len(), 8248);
    assert_eq!(&bytes[0..8], &[92, 142, 92, 220, 5, 148, 70, 181]);
    let back = BinArray::unpack(&bytes).unwrap();
    assert_eq!(back.index, array.index);
    assert_eq!(back.pair.bytes, array.pair.bytes);
    assert_eq!(back.bins, array.bins);
    assert!(BinArray::unpack(&bytes[..8247]).is_none());
}

#[test]
fn bin_array_lookup_respects_the_window() {
    let array = BinArray::new(Pubkey::zeroed(), 10);
    assert!(array.contains(10 * 256));
    assert!(array.contains(10 * 256 + 255));
    assert!(!array.contains(11 * 256));
    assert_eq!(BinArray::get_index_from_bin_id(2570), 10);
    assert!(array.get_bin(10 * 256 + 7).is_ok());
    assert!(array.get_bin(9 * 256).is_err());
}

#[test]
fn pubkey_equality_compares_all_bytes() {
    let mut left = [1u8; 32];
    let right = [1u8; 32];
    assert!(Pubkey::new(left).key_eq(&Pubkey::new(right)));
    left[31] = 2;
    assert!(!Pubkey::new(left).key_eq(&Pubkey::new(right)));
}
