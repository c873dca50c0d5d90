//! The pool's mutable state: mints, static fee configuration, the active
//! bin, the dynamic volatility-fee references and the accrued protocol
//! fees.

use vstd::prelude::*;
use vstd::bytes::{
    lemma_auto_spec_u32_to_from_le_bytes, lemma_auto_spec_u64_to_from_le_bytes,
    spec_u32_from_le_bytes, spec_u32_to_le_bytes, spec_u64_from_le_bytes, spec_u64_to_le_bytes,
    u32_from_le_bytes, u32_to_le_bytes, u64_from_le_bytes, u64_to_le_bytes,
};
use vstd::slice::slice_subrange;

use crate::constants::{BASIS_POINT_MAX, BIN_ARRAY_SIZE, MAX_ACTIVE_ID, PRECISION,
    SQUARED_PRECISION, VARIABLE_FEE_PRECISION};
use crate::errors::ErrorCode;
use crate::fee::{
    lemma_dynamic_fee_pack_roundtrip, lemma_static_fee_pack_roundtrip, spec_dynamic_fee_bytes,
    spec_static_fee_bytes, spec_unpack_dynamic_fee, spec_unpack_static_fee, DynamicFeeParameters,
    StaticFeeParameters,
};
use crate::pubkey::Pubkey;
use crate::swap_manager::SwapMode;

verus! {

/// A liquidity pair: all state a quote reads or mutates.
#[derive(Clone, Copy, Debug)]
pub struct Pair {
    pub bump: u8,
    pub liquidity_book_config: Pubkey,
    pub bin_step: u8,
    pub bin_step_seed: u8,
    pub token_mint_x: Pubkey,
    pub token_mint_y: Pubkey,
    pub static_fee_parameters: StaticFeeParameters,
    pub active_id: u32,
    pub dynamic_fee_parameters: DynamicFeeParameters,
    pub protocol_fees_x: u64,
    pub protocol_fees_y: u64,
    pub hook: Option<Pubkey>,
}

/// Mathematical image of a pair: account ids as byte sequences, everything
/// else verbatim.
pub struct PairView {
    pub bump: u8,
    pub liquidity_book_config: Seq<u8>,
    pub bin_step: u8,
    pub bin_step_seed: u8,
    pub token_mint_x: Seq<u8>,
    pub token_mint_y: Seq<u8>,
    pub static_fee_parameters: StaticFeeParameters,
    pub active_id: u32,
    pub dynamic_fee_parameters: DynamicFeeParameters,
    pub protocol_fees_x: u64,
    pub protocol_fees_y: u64,
    pub hook: Option<Seq<u8>>,
}

impl View for Pair {
    type V = PairView;

    open spec fn view(&self) -> PairView {
        PairView {
            bump: self.bump,
            liquidity_book_config: self.liquidity_book_config@,
            bin_step: self.bin_step,
            bin_step_seed: self.bin_step_seed,
            token_mint_x: self.token_mint_x@,
            token_mint_y: self.token_mint_y@,
            static_fee_parameters: self.static_fee_parameters,
            active_id: self.active_id,
            dynamic_fee_parameters: self.dynamic_fee_parameters,
            protocol_fees_x: self.protocol_fees_x,
            protocol_fees_y: self.protocol_fees_y,
            hook: match self.hook {
                Some(hook) => Some(hook@),
                None => None,
            },
        }
    }
}

/// The fixed 8-byte account discriminator of a pair.
pub open spec fn spec_pair_discriminator() -> Seq<u8> {
    seq![85u8, 72u8, 49u8, 176u8, 182u8, 228u8, 141u8, 82u8]
}

/// The hook tail of a packed pair: a presence flag followed by the hook's
/// id, zero-filled when absent.
pub open spec fn spec_hook_bytes(hook: Option<Seq<u8>>) -> Seq<u8> {
    match hook {
        Some(hook_id) => seq![1u8] + hook_id,
        None => seq![0u8] + Seq::new(32, |i: int| 0u8),
    }
}

/// The 204-byte layout of a pair:
/// `discriminator(8) | bump(1) | config(32) | bin_step(1) |
/// bin_step_seed(1) | mint_x(32) | mint_y(32) | static_fee(20) |
/// active_id(4) | dynamic_fee(24) | protocol_fees_x(8) |
/// protocol_fees_y(8) | hook_flag(1) | hook_id(32)`.
pub open spec fn spec_pair_bytes(pair: PairView) -> Seq<u8> {
    spec_pair_discriminator() + seq![pair.bump] + pair.liquidity_book_config + seq![pair.bin_step]
        + seq![pair.bin_step_seed] + pair.token_mint_x + pair.token_mint_y
        + spec_static_fee_bytes(pair.static_fee_parameters) + spec_u32_to_le_bytes(pair.active_id)
        + spec_dynamic_fee_bytes(pair.dynamic_fee_parameters) + spec_u64_to_le_bytes(
        pair.protocol_fees_x,
    ) + spec_u64_to_le_bytes(pair.protocol_fees_y) + spec_hook_bytes(pair.hook)
}

/// The pair encoded by 204 bytes; `None` on any other length or a hook
/// flag other than 0 or 1. The discriminator bytes are not interpreted.
pub open spec fn spec_unpack_pair(data: Seq<u8>) -> Option<PairView> {
    if data.len() != 204 {
        None
    } else if data[171] != 0 && data[171] != 1 {
        None
    } else {
        Some(
            PairView {
                bump: data[8],
                liquidity_book_config: data.subrange(9, 41),
                bin_step: data[41],
                bin_step_seed: data[42],
                token_mint_x: data.subrange(43, 75),
                token_mint_y: data.subrange(75, 107),
                static_fee_parameters: spec_unpack_static_fee(data.subrange(107, 127))->Some_0,
                active_id: spec_u32_from_le_bytes(data.subrange(127, 131)),
                dynamic_fee_parameters: spec_unpack_dynamic_fee(data.subrange(131, 155))->Some_0,
                protocol_fees_x: spec_u64_from_le_bytes(data.subrange(155, 163)),
                protocol_fees_y: spec_u64_from_le_bytes(data.subrange(163, 171)),
                hook: if data[171] == 1 {
                    Some(data.subrange(172, 204))
                } else {
                    None
                },
            },
        )
    }
}

/// Base fee rate in parts of `PRECISION`: both the base factor and the bin
/// step are in basis points, hence the extra factor of ten. Its largest
/// possible value, `65_535 * 255 * 10`, always fits in 64 bits.
pub open spec fn spec_base_fee(pair: Pair) -> u64 {
    (pair.static_fee_parameters.base_factor * pair.bin_step * 10) as u64
}

/// Variable fee rate, rounded up:
/// `(volatility_accumulator * bin_step)^2 * variable_fee_control / 10^11`,
/// zero when the control is zero, failing only when the resulting rate
/// does not fit into 64 bits.
pub open spec fn spec_variable_fee(pair: Pair) -> Result<u64, ErrorCode> {
    let control = pair.static_fee_parameters.variable_fee_control;
    if control == 0 {
        Ok(0u64)
    } else {
        let prod = pair.dynamic_fee_parameters.volatility_accumulator * pair.bin_step;
        let variable_fee = (prod * prod * control + VARIABLE_FEE_PRECISION - 1) / (
        VARIABLE_FEE_PRECISION as int);
        if variable_fee > u64::MAX {
            Err(ErrorCode::U64ConversionOverflow)
        } else {
            Ok(variable_fee as u64)
        }
    }
}

/// Total fee rate: base plus variable, overflowing past 64 bits.
pub open spec fn spec_total_fee(pair: Pair) -> Result<u64, ErrorCode> {
    match spec_variable_fee(pair) {
        Err(e) => Err(e),
        Ok(variable_fee) => if spec_base_fee(pair) + variable_fee > u64::MAX {
            Err(ErrorCode::AmountOverflow)
        } else {
            Ok((spec_base_fee(pair) + variable_fee) as u64)
        },
    }
}

/// Composition fee on `amount`:
/// `amount * total_fee * (total_fee + PRECISION) / PRECISION^2`,
/// evaluated in checked 64-bit steps.
pub open spec fn spec_composition_fee(pair: Pair, amount: u64) -> Result<u64, ErrorCode> {
    match spec_total_fee(pair) {
        Err(e) => Err(e),
        Ok(fee) => if fee + PRECISION > u64::MAX {
            Err(ErrorCode::AmountOverflow)
        } else if amount * fee > u64::MAX {
            Err(ErrorCode::AmountOverflow)
        } else if amount * fee * (fee + PRECISION) > u64::MAX {
            Err(ErrorCode::AmountOverflow)
        } else {
            Ok((amount * fee * (fee + PRECISION) / (SQUARED_PRECISION as int)) as u64)
        },
    }
}

/// New dynamic references at `block_timestamp`: once the filter period has
/// passed, the id reference snaps to the active id and the volatility
/// reference decays — fully after the decay period, proportionally to the
/// reduction factor before it. A timestamp older than the last update is
/// rejected rather than silently wrapped.
pub open spec fn spec_update_references(pair: Pair, block_timestamp: u64) -> Result<
    Pair,
    ErrorCode,
> {
    if block_timestamp < pair.dynamic_fee_parameters.time_last_updated {
        Err(ErrorCode::AmountUnderflow)
    } else {
        let time_delta = block_timestamp - pair.dynamic_fee_parameters.time_last_updated;
        let filter_period = pair.static_fee_parameters.filter_period as u64;
        let decay_period = pair.static_fee_parameters.decay_period as u64;
        if time_delta < filter_period {
            Ok(
                Pair {
                    dynamic_fee_parameters: DynamicFeeParameters {
                        time_last_updated: block_timestamp,
                        ..pair.dynamic_fee_parameters
                    },
                    ..pair
                },
            )
        } else if time_delta >= decay_period {
            Ok(
                Pair {
                    dynamic_fee_parameters: DynamicFeeParameters {
                        time_last_updated: block_timestamp,
                        volatility_reference: 0u32,
                        id_reference: pair.active_id,
                        ..pair.dynamic_fee_parameters
                    },
                    ..pair
                },
            )
        } else {
            match spec_decayed_volatility_reference(pair) {
                Err(e) => Err(e),
                Ok(volatility_reference) => Ok(
                    Pair {
                        dynamic_fee_parameters: DynamicFeeParameters {
                            time_last_updated: block_timestamp,
                            volatility_reference,
                            id_reference: pair.active_id,
                            ..pair.dynamic_fee_parameters
                        },
                        ..pair
                    },
                ),
            }
        }
    }
}

/// The decayed volatility reference:
/// `volatility_accumulator * reduction_factor / 10_000`, which must still
/// fit into 32 bits.
pub open spec fn spec_decayed_volatility_reference(pair: Pair) -> Result<u32, ErrorCode> {
    let decayed = pair.dynamic_fee_parameters.volatility_accumulator
        * pair.static_fee_parameters.reduction_factor / (BASIS_POINT_MAX as int);
    if decayed > u32::MAX {
        Err(ErrorCode::NumberCastError)
    } else {
        Ok(decayed as u32)
    }
}

/// New volatility accumulator: the distance from the id reference in basis
/// points plus the volatility reference, capped at the configured maximum.
pub open spec fn spec_update_volatility_accumulator(pair: Pair) -> Pair {
    let delta_id = if pair.active_id >= pair.dynamic_fee_parameters.id_reference {
        pair.active_id - pair.dynamic_fee_parameters.id_reference
    } else {
        pair.dynamic_fee_parameters.id_reference - pair.active_id
    };
    let accumulated = delta_id * BASIS_POINT_MAX
        + pair.dynamic_fee_parameters.volatility_reference;
    let capped = if accumulated > pair.static_fee_parameters.max_volatility_accumulator {
        pair.static_fee_parameters.max_volatility_accumulator
    } else {
        accumulated as u32
    };
    Pair {
        dynamic_fee_parameters: DynamicFeeParameters {
            volatility_accumulator: capped,
            ..pair.dynamic_fee_parameters
        },
        ..pair
    }
}

/// The active id after one move: down for a swap towards Y, up otherwise,
/// failing at the edges of the bin grid.
pub open spec fn spec_move_active_id(pair: Pair, swap_for_y: bool) -> Result<Pair, ErrorCode> {
    if swap_for_y {
        if pair.active_id == 0 {
            Err(ErrorCode::ActiveIdUnderflow)
        } else {
            Ok(Pair { active_id: (pair.active_id - 1) as u32, ..pair })
        }
    } else {
        if pair.active_id >= MAX_ACTIVE_ID {
            Err(ErrorCode::ActiveIdOverflow)
        } else {
            Ok(Pair { active_id: (pair.active_id + 1) as u32, ..pair })
        }
    }
}

impl Pair {
    /// Serialise this pair into its 204-byte account layout.
    pub fn pack(&self) -> (r: Vec<u8>)
        ensures
            r@ == spec_pair_bytes(self@),
            r@.len() == 204,
    {
        proof {
            lemma_auto_spec_u32_to_from_le_bytes();
            lemma_auto_spec_u64_to_from_le_bytes();
        }
        let mut out: Vec<u8> = Vec::new();
        out.push(85);
        out.push(72);
        out.push(49);
        out.push(176);
        out.push(182);
        out.push(228);
        out.push(141);
        out.push(82);
        proof {
            assert(out@ =~= spec_pair_discriminator());
        }
        out.push(self.bump);
        self.liquidity_book_config.append_to(&mut out);
        out.push(self.bin_step);
        out.push(self.bin_step_seed);
        self.token_mint_x.append_to(&mut out);
        self.token_mint_y.append_to(&mut out);
        let mut static_fee_bytes = self.static_fee_parameters.pack();
        out.append(&mut static_fee_bytes);
        let mut active_id_bytes = u32_to_le_bytes(self.active_id);
        out.append(&mut active_id_bytes);
        let mut dynamic_fee_bytes = self.dynamic_fee_parameters.pack();
        out.append(&mut dynamic_fee_bytes);
        let mut protocol_fees_x_bytes = u64_to_le_bytes(self.protocol_fees_x);
        out.append(&mut protocol_fees_x_bytes);
        let mut protocol_fees_y_bytes = u64_to_le_bytes(self.protocol_fees_y);
        out.append(&mut protocol_fees_y_bytes);
        match &self.hook {
            Some(hook) => {
                out.push(1);
                hook.append_to(&mut out);
            },
            None => {
                out.push(0);
                let mut i: usize = 0;
                let ghost before_zeros: Seq<u8> = out@;
                while i < 32
                    invariant
                        i <= 32,
                        out@ == before_zeros + Seq::new(i as nat, |j: int| 0u8),
                    decreases 32 - i,
                {
                    out.push(0);
                    proof {
                        assert(out@ =~= before_zeros + Seq::new((i + 1) as nat, |j: int| 0u8));
                    }
                    i = i + 1;
                }
            },
        }
        proof {
            assert(out@ =~= spec_pair_bytes(self@));
        }
        out
    }

    /// Read a pair back from its 204-byte account layout; `None` on a
    /// malformed length or hook flag.
    pub fn unpack(data: &[u8]) -> (r: Option<Pair>)
        ensures
            ({
                match spec_unpack_pair(data@) {
                    Some(view) => r matches Some(pair) && pair@ == view,
                    None => r is None,
                }
            }),
    {
        proof {
            lemma_auto_spec_u32_to_from_le_bytes();
            lemma_auto_spec_u64_to_from_le_bytes();
        }
        if data.len() != 204 {
            return None;
        }
        let hook_flag = data[171];
        if hook_flag != 0 && hook_flag != 1 {
            return None;
        }
        let static_fee_parameters = match StaticFeeParameters::unpack(
            slice_subrange(data, 107, 127),
        ) {
            Some(parameters) => parameters,
            None => {
                // A 20-byte slice always decodes.
                proof {
                    assert(false);
                }
                return None;
            },
        };
        let dynamic_fee_parameters = match DynamicFeeParameters::unpack(
            slice_subrange(data, 131, 155),
        ) {
            Some(parameters) => parameters,
            None => {
                // A 24-byte slice always decodes.
                proof {
                    assert(false);
                }
                return None;
            },
        };
        Some(
            Pair {
                bump: data[8],
                liquidity_book_config: Pubkey::from_slice(slice_subrange(data, 9, 41)),
                bin_step: data[41],
                bin_step_seed: data[42],
                token_mint_x: Pubkey::from_slice(slice_subrange(data, 43, 75)),
                token_mint_y: Pubkey::from_slice(slice_subrange(data, 75, 107)),
                static_fee_parameters,
                active_id: u32_from_le_bytes(slice_subrange(data, 127, 131)),
                dynamic_fee_parameters,
                protocol_fees_x: u64_from_le_bytes(slice_subrange(data, 155, 163)),
                protocol_fees_y: u64_from_le_bytes(slice_subrange(data, 163, 171)),
                hook: if hook_flag == 1 {
                    Some(Pubkey::from_slice(slice_subrange(data, 172, 204)))
                } else {
                    None
                },
            },
        )
    }

    /// Index of the bin array holding the active bin.
    pub fn bin_array_index(&self) -> (r: u32)
        ensures
            r == self.active_id / BIN_ARRAY_SIZE,
    {
        self.active_id / BIN_ARRAY_SIZE
    }

    /// Which side the swap sells, given the input mint of an exact-in quote
    /// or the output mint of an exact-out quote; an unknown mint is
    /// rejected.
    pub fn resolve_mints(&self, input_mint: &Pubkey, swap_mode: SwapMode) -> (r: Result<
        bool,
        ErrorCode,
    >)
        ensures
            input_mint@ == self.token_mint_x@ ==> r == Ok::<bool, ErrorCode>(
                swap_mode is ExactIn,
            ),
            input_mint@ != self.token_mint_x@ && input_mint@ == self.token_mint_y@ ==> r
                == Ok::<bool, ErrorCode>(swap_mode is ExactOut),
            input_mint@ != self.token_mint_x@ && input_mint@ != self.token_mint_y@ ==> r
                == Err::<bool, ErrorCode>(ErrorCode::InvalidMint),
    {
        let is_x = input_mint.key_eq(&self.token_mint_x);
        let is_y = input_mint.key_eq(&self.token_mint_y);
        match swap_mode {
            SwapMode::ExactIn => {
                if is_x {
                    Ok(true)
                } else if is_y {
                    Ok(false)
                } else {
                    Err(ErrorCode::InvalidMint)
                }
            },
            SwapMode::ExactOut => {
                if is_x {
                    Ok(false)
                } else if is_y {
                    Ok(true)
                } else {
                    Err(ErrorCode::InvalidMint)
                }
            },
        }
    }

    /// Base fee rate of the pool, in parts of `PRECISION`.
    fn get_base_fee(&self) -> (r: u64)
        ensures
            r == spec_base_fee(*self),
    {
        proof {
            assert(self.static_fee_parameters.base_factor * self.bin_step * 10 < u64::MAX)
                by (nonlinear_arith)
                requires
                    self.static_fee_parameters.base_factor <= u16::MAX,
                    self.bin_step <= u8::MAX,
            ;
        }
        (self.static_fee_parameters.base_factor as u64) * (self.bin_step as u64) * 10
    }

    /// Variable fee rate driven by the volatility accumulator.
    pub fn get_variable_fee(&self) -> (r: Result<u64, ErrorCode>)
        ensures
            r == spec_variable_fee(*self),
    {
        let control = self.static_fee_parameters.variable_fee_control;
        if control == 0 {
            return Ok(0);
        }
        proof {
            assert(self.dynamic_fee_parameters.volatility_accumulator * self.bin_step
                <= u32::MAX * u8::MAX) by (nonlinear_arith)
                requires
                    self.dynamic_fee_parameters.volatility_accumulator <= u32::MAX,
                    self.bin_step <= u8::MAX,
            ;
        }
        let prod: u128 = (self.dynamic_fee_parameters.volatility_accumulator as u128) * (
        self.bin_step as u128);
        proof {
            assert(prod <= 0x1_0000_0000_0000u128 && prod * prod <= 0x1_0000_0000_0000u128
                * 0x1_0000_0000_0000u128 && prod * prod * control <= 0x1_0000_0000_0000u128
                * 0x1_0000_0000_0000u128 * u32::MAX && 0x1_0000_0000_0000u128
                * 0x1_0000_0000_0000u128 * u32::MAX + VARIABLE_FEE_PRECISION <= u128::MAX)
                by (nonlinear_arith)
                requires
                    prod == self.dynamic_fee_parameters.volatility_accumulator * self.bin_step,
                    self.dynamic_fee_parameters.volatility_accumulator <= u32::MAX,
                    self.bin_step <= u8::MAX,
                    control <= u32::MAX,
                    control >= 1,
            ;
        }
        let variable_fee: u128 = (prod * prod * (control as u128) + (VARIABLE_FEE_PRECISION
            as u128) - 1) / (VARIABLE_FEE_PRECISION as u128);
        if variable_fee > u64::MAX as u128 {
            Err(ErrorCode::U64ConversionOverflow)
        } else {
            Ok(variable_fee as u64)
        }
    }

    /// Total fee rate for the next bin: base plus variable.
    pub fn get_total_fee(&self) -> (r: Result<u64, ErrorCode>)
        ensures
            r == spec_total_fee(*self),
    {
        let base_fee = self.get_base_fee();
        let variable_fee = self.get_variable_fee()?;
        match base_fee.checked_add(variable_fee) {
            Some(total) => Ok(total),
            None => Err(ErrorCode::AmountOverflow),
        }
    }

    /// Fee charged on liquidity whose composition differs from the bin's.
    pub fn get_composition_fee(&self, amount: u64) -> (r: Result<u64, ErrorCode>)
        ensures
            r == spec_composition_fee(*self, amount),
    {
        let fee = self.get_total_fee()?;
        let fee_plus_precision = match fee.checked_add(PRECISION) {
            Some(v) => v,
            None => {
                return Err(ErrorCode::AmountOverflow);
            },
        };
        let scaled = match amount.checked_mul(fee) {
            Some(v) => v,
            None => {
                return Err(ErrorCode::AmountOverflow);
            },
        };
        let composition_fee = match scaled.checked_mul(fee_plus_precision) {
            Some(v) => v,
            None => {
                return Err(ErrorCode::AmountOverflow);
            },
        };
        Ok(composition_fee / SQUARED_PRECISION)
    }

    /// The protocol's share of fees, in basis points.
    pub fn get_protocol_share(&self) -> (r: u64)
        ensures
            r == self.static_fee_parameters.protocol_share as u64,
    {
        self.static_fee_parameters.protocol_share as u64
    }

    /// Move the dynamic-fee references forward to `block_timestamp`; a
    /// timestamp behind the last update is an error, and on any error the
    /// pair is left untouched.
    pub fn update_references(&mut self, block_timestamp: u64) -> (r: Result<(), ErrorCode>)
        ensures
            ({
                let s = spec_update_references(*old(self), block_timestamp);
                match s {
                    Ok(p) => r == Ok::<(), ErrorCode>(()) && *final(self) == p,
                    Err(e) => r == Err::<(), ErrorCode>(e) && *final(self) == *old(self),
                }
            }),
    {
        if block_timestamp < self.dynamic_fee_parameters.time_last_updated {
            return Err(ErrorCode::AmountUnderflow);
        }
        let time_delta = block_timestamp - self.dynamic_fee_parameters.time_last_updated;

        if time_delta >= self.static_fee_parameters.filter_period as u64 {
            if time_delta >= self.static_fee_parameters.decay_period as u64 {
                self.dynamic_fee_parameters.id_reference = self.active_id;
                self.dynamic_fee_parameters.volatility_reference = 0;
            } else {
                self.update_volatility_reference()?;
                self.dynamic_fee_parameters.id_reference = self.active_id;
            }
        }
        self.dynamic_fee_parameters.time_last_updated = block_timestamp;
        Ok(())
    }

    /// Decay the volatility reference by the reduction factor.
    pub fn update_volatility_reference(&mut self) -> (r: Result<(), ErrorCode>)
        ensures
            ({
                let s = spec_decayed_volatility_reference(*old(self));
                match s {
                    Ok(volatility_reference) => r == Ok::<(), ErrorCode>(()) && *final(self)
                        == Pair {
                        dynamic_fee_parameters: DynamicFeeParameters {
                            volatility_reference,
                            ..old(self).dynamic_fee_parameters
                        },
                        ..*old(self)
                    },
                    Err(e) => r == Err::<(), ErrorCode>(e) && *final(self) == *old(self),
                }
            }),
    {
        proof {
            assert(self.dynamic_fee_parameters.volatility_accumulator
                * self.static_fee_parameters.reduction_factor < u64::MAX) by (nonlinear_arith)
                requires
                    self.dynamic_fee_parameters.volatility_accumulator <= u32::MAX,
                    self.static_fee_parameters.reduction_factor <= u16::MAX,
            ;
        }
        let decayed: u64 = (self.dynamic_fee_parameters.volatility_accumulator as u64) * (
        self.static_fee_parameters.reduction_factor as u64) / BASIS_POINT_MAX;
        if decayed > u32::MAX as u64 {
            return Err(ErrorCode::NumberCastError);
        }
        self.dynamic_fee_parameters.volatility_reference = decayed as u32;
        Ok(())
    }

    /// Fold the distance from the id reference into the volatility
    /// accumulator, capped at the configured maximum; this never fails.
    pub fn update_volatility_accumulator(&mut self) -> (r: Result<(), ErrorCode>)
        ensures
            r == Ok::<(), ErrorCode>(()),
            *final(self) == spec_update_volatility_accumulator(*old(self)),
    {
        let delta_id: u32 = if self.active_id >= self.dynamic_fee_parameters.id_reference {
            self.active_id - self.dynamic_fee_parameters.id_reference
        } else {
            self.dynamic_fee_parameters.id_reference - self.active_id
        };
        let accumulated: u64 = (delta_id as u64) * BASIS_POINT_MAX + (
        self.dynamic_fee_parameters.volatility_reference as u64);
        let max_volatility_accumulator = self.static_fee_parameters.max_volatility_accumulator;
        self.dynamic_fee_parameters.volatility_accumulator = if accumulated
            > max_volatility_accumulator as u64 {
            max_volatility_accumulator
        } else {
            accumulated as u32
        };
        Ok(())
    }

    /// Step the active id one bin towards the swap's output side.
    pub fn move_active_id(&mut self, swap_for_y: bool) -> (r: Result<(), ErrorCode>)
        ensures
            ({
                let s = spec_move_active_id(*old(self), swap_for_y);
                match s {
                    Ok(p) => r == Ok::<(), ErrorCode>(()) && *final(self) == p,
                    Err(e) => r == Err::<(), ErrorCode>(e) && *final(self) == *old(self),
                }
            }),
            old(self).active_id <= MAX_ACTIVE_ID ==> final(self).active_id <= MAX_ACTIVE_ID,
    {
        if swap_for_y {
            self.move_active_id_left()
        } else {
            self.move_active_id_right()
        }
    }

    /// Step the active id down by one, failing below bin id zero.
    fn move_active_id_left(&mut self) -> (r: Result<(), ErrorCode>)
        ensures
            ({
                let s = spec_move_active_id(*old(self), true);
                match s {
                    Ok(p) => r == Ok::<(), ErrorCode>(()) && *final(self) == p,
                    Err(e) => r == Err::<(), ErrorCode>(e) && *final(self) == *old(self),
                }
            }),
    {
        if self.active_id == 0 {
            return Err(ErrorCode::ActiveIdUnderflow);
        }
        self.active_id = self.active_id - 1;
        Ok(())
    }

    /// Step the active id up by one, failing past the largest bin id.
    fn move_active_id_right(&mut self) -> (r: Result<(), ErrorCode>)
        ensures
            ({
                let s = spec_move_active_id(*old(self), false);
                match s {
                    Ok(p) => r == Ok::<(), ErrorCode>(()) && *final(self) == p,
                    Err(e) => r == Err::<(), ErrorCode>(e) && *final(self) == *old(self),
                }
            }),
    {
        if self.active_id >= MAX_ACTIVE_ID {
            return Err(ErrorCode::ActiveIdOverflow);
        }
        self.active_id = self.active_id + 1;
        Ok(())
    }
}

/// Packing then unpacking a pair gives the pair back.
pub proof fn lemma_pair_pack_roundtrip(pair: Pair)
    ensures
        spec_unpack_pair(spec_pair_bytes(pair@)) == Some(pair@),
{
    vstd::bytes::lemma_auto_spec_u16_to_from_le_bytes();
    lemma_auto_spec_u32_to_from_le_bytes();
    lemma_auto_spec_u64_to_from_le_bytes();
    lemma_static_fee_pack_roundtrip(pair.static_fee_parameters);
    lemma_dynamic_fee_pack_roundtrip(pair.dynamic_fee_parameters);
    let data = spec_pair_bytes(pair@);
    assert(data.len() == 204);
    assert(data[8] == pair@.bump);
    assert(data.subrange(9, 41) =~= pair@.liquidity_book_config);
    assert(data[41] == pair@.bin_step);
    assert(data[42] == pair@.bin_step_seed);
    assert(data.subrange(43, 75) =~= pair@.token_mint_x);
    assert(data.subrange(75, 107) =~= pair@.token_mint_y);
    assert(data.subrange(107, 127) =~= spec_static_fee_bytes(pair.static_fee_parameters));
    assert(data.subrange(127, 131) =~= spec_u32_to_le_bytes(pair.active_id));
    assert(data.subrange(131, 155) =~= spec_dynamic_fee_bytes(pair.dynamic_fee_parameters));
    assert(data.subrange(155, 163) =~= spec_u64_to_le_bytes(pair.protocol_fees_x));
    assert(data.subrange(163, 171) =~= spec_u64_to_le_bytes(pair.protocol_fees_y));
    match pair@.hook {
        Some(hook_id) => {
            assert(data[171] == 1);
            assert(data.subrange(172, 204) =~= hook_id);
        },
        None => {
            assert(data[171] == 0);
        },
    }
}

/// A quote after a full idle decay period starts from zero volatility: the
/// reference update clears the volatility reference and snaps the id
/// reference to the active id, so the first accumulator update of that
/// quote leaves no accumulated volatility and the variable fee of its
/// first bin is zero — by `lemma_variable_fee_monotone`, never more than
/// what any other accumulator state would charge.
pub proof fn lemma_decayed_references_zero_the_variable_fee(pair: Pair, block_timestamp: u64)
    requires
        pair.static_fee_parameters.filter_period <= pair.static_fee_parameters.decay_period,
        block_timestamp >= pair.dynamic_fee_parameters.time_last_updated,
        block_timestamp - pair.dynamic_fee_parameters.time_last_updated
            >= pair.static_fee_parameters.decay_period,
    ensures
        spec_update_references(pair, block_timestamp) matches Ok(updated) && ({
            let settled = spec_update_volatility_accumulator(updated);
            &&& updated.dynamic_fee_parameters.volatility_reference == 0
            &&& updated.dynamic_fee_parameters.id_reference == pair.active_id
            &&& updated.dynamic_fee_parameters.time_last_updated == block_timestamp
            &&& settled.dynamic_fee_parameters.volatility_accumulator == 0
            &&& spec_variable_fee(settled) == Ok::<u64, ErrorCode>(0)
        }),
{
    assert(spec_update_references(pair, block_timestamp) is Ok);
    let updated = spec_update_references(pair, block_timestamp)->Ok_0;
    assert(updated.dynamic_fee_parameters.volatility_reference == 0);
    assert(updated.dynamic_fee_parameters.id_reference == pair.active_id);
    let settled = spec_update_volatility_accumulator(updated);
    assert(settled.dynamic_fee_parameters.volatility_accumulator == 0);
    let prod = settled.dynamic_fee_parameters.volatility_accumulator * settled.bin_step;
    let control = settled.static_fee_parameters.variable_fee_control;
    assert(prod * prod * control == 0) by (nonlinear_arith)
        requires
            prod == settled.dynamic_fee_parameters.volatility_accumulator * settled.bin_step,
            settled.dynamic_fee_parameters.volatility_accumulator == 0,
    ;
    assert(spec_variable_fee(settled) == Ok::<u64, ErrorCode>(0));
}

/// The variable fee is non-decreasing in the volatility accumulator: of
/// two pairs differing only there, the calmer one never pays more, as long
/// as both rates are representable.
pub proof fn lemma_variable_fee_monotone(pair_low: Pair, pair_high: Pair)
    requires
        pair_low.bin_step == pair_high.bin_step,
        pair_low.static_fee_parameters == pair_high.static_fee_parameters,
        pair_low.dynamic_fee_parameters.volatility_accumulator
            <= pair_high.dynamic_fee_parameters.volatility_accumulator,
        spec_variable_fee(pair_low) is Ok,
        spec_variable_fee(pair_high) is Ok,
    ensures
        spec_variable_fee(pair_low)->Ok_0 <= spec_variable_fee(pair_high)->Ok_0,
{
    let control = pair_low.static_fee_parameters.variable_fee_control;
    if control != 0 {
        let va_low = pair_low.dynamic_fee_parameters.volatility_accumulator as int;
        let va_high = pair_high.dynamic_fee_parameters.volatility_accumulator as int;
        let step = pair_low.bin_step as int;
        assert(va_low * step * (va_low * step) * control <= va_high * step * (va_high * step)
            * control) by (nonlinear_arith)
            requires
                0 <= va_low <= va_high,
                0 <= step,
                0 < control,
        ;
        assert((va_low * step * (va_low * step) * control + VARIABLE_FEE_PRECISION - 1) / (
        VARIABLE_FEE_PRECISION as int) <= (va_high * step * (va_high * step) * control
            + VARIABLE_FEE_PRECISION - 1) / (VARIABLE_FEE_PRECISION as int)) by {
            vstd::arithmetic::div_mod::lemma_div_is_ordered(
                va_low * step * (va_low * step) * control + VARIABLE_FEE_PRECISION - 1,
                va_high * step * (va_high * step) * control + VARIABLE_FEE_PRECISION - 1,
                VARIABLE_FEE_PRECISION as int,
            );
        }
    }
}

} // verus!
