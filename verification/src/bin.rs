//! A single price bin and its constant-sum swap math: exact-in and
//! exact-out, with checked arithmetic throughout and explicit rounding so
//! the bin never pays out more than it holds nor collects less fee than
//! owed.

use vstd::prelude::*;
use vstd::bytes::{
    lemma_auto_spec_u128_to_from_le_bytes, lemma_auto_spec_u64_to_from_le_bytes,
    spec_u128_from_le_bytes, spec_u128_to_le_bytes, spec_u64_from_le_bytes, spec_u64_to_le_bytes,
    u128_from_le_bytes, u128_to_le_bytes, u64_from_le_bytes, u64_to_le_bytes,
};
use vstd::slice::slice_subrange;

use crate::bin_math::{get_price_from_id, spec_get_price_from_id};
use crate::constants::SCALE_OFFSET;
use crate::errors::ErrorCode;
use crate::u128x128_math::{mul_shr, shl_div, spec_mul_shr, spec_shl_div, Rounding};
use crate::utils::{
    convert_math_result, get_fee_amount, get_fee_for_amount, get_protocol_fee,
    spec_convert_math_result, spec_get_fee_amount, spec_get_fee_for_amount,
    spec_get_protocol_fee,
};

verus! {

/// One price slot: LP share supply and the two asset inventories.
#[derive(Clone, Copy, Debug, PartialEq, Eq, Structural)]
pub struct Bin {
    pub total_supply: u128,
    pub reserve_x: u64,
    pub reserve_y: u64,
}

/// Everything one bin-level swap decides: the updated bin and the four
/// reported amounts. `amount_in` is the portion of the input actually
/// exchanged, net of `fee_amount`.
pub struct BinSwapOutcome {
    pub bin: Bin,
    pub amount_in: u64,
    pub amount_in_with_fees: u64,
    pub amount_out: u64,
    pub fee_amount: u64,
    pub protocol_fee: u64,
}

/// The 32-byte little-endian layout of a bin:
/// `total_supply(16) | reserve_x(8) | reserve_y(8)`.
pub open spec fn spec_bin_bytes(bin: Bin) -> Seq<u8> {
    spec_u128_to_le_bytes(bin.total_supply) + spec_u64_to_le_bytes(bin.reserve_x)
        + spec_u64_to_le_bytes(bin.reserve_y)
}

/// The bin encoded by 32 little-endian bytes; `None` on any other length.
pub open spec fn spec_unpack_bin(data: Seq<u8>) -> Option<Bin> {
    if data.len() != 32 {
        None
    } else {
        Some(
            Bin {
                total_supply: spec_u128_from_le_bytes(data.subrange(0, 16)),
                reserve_x: spec_u64_from_le_bytes(data.subrange(16, 24)),
                reserve_y: spec_u64_from_le_bytes(data.subrange(24, 32)),
            },
        )
    }
}

/// Packing then unpacking a bin gives the bin back.
pub proof fn lemma_bin_pack_roundtrip(bin: Bin)
    ensures
        spec_unpack_bin(spec_bin_bytes(bin)) == Some(bin),
{
    lemma_auto_spec_u128_to_from_le_bytes();
    lemma_auto_spec_u64_to_from_le_bytes();
    let data = spec_bin_bytes(bin);
    assert(data.subrange(0, 16) =~= spec_u128_to_le_bytes(bin.total_supply));
    assert(data.subrange(16, 24) =~= spec_u64_to_le_bytes(bin.reserve_x));
    assert(data.subrange(24, 32) =~= spec_u64_to_le_bytes(bin.reserve_y));
}

/// The reserve the swap pays out of: `reserve_y` when swapping X for Y.
pub open spec fn spec_reserve_out(bin: Bin, swap_for_y: bool) -> u64 {
    if swap_for_y {
        bin.reserve_y
    } else {
        bin.reserve_x
    }
}

/// Input needed to drain `reserve_out` at `price`, rounded up: dividing by
/// the price when the output is Y, multiplying when it is X.
pub open spec fn spec_max_amount_in(reserve_out: u64, price: u128, swap_for_y: bool) -> Result<
    u64,
    ErrorCode,
> {
    if swap_for_y {
        spec_convert_math_result(
            spec_shl_div(reserve_out as u128, price, SCALE_OFFSET, Rounding::Up),
            ErrorCode::ShlDivMathError,
        )
    } else {
        spec_convert_math_result(
            spec_mul_shr(reserve_out as u128, price, SCALE_OFFSET, Rounding::Up),
            ErrorCode::MulShrMathError,
        )
    }
}

/// Output bought by `amount_in` at `price`, rounded down.
pub open spec fn spec_amount_out_for_in(amount_in: u64, price: u128, swap_for_y: bool) -> Result<
    u64,
    ErrorCode,
> {
    if swap_for_y {
        spec_convert_math_result(
            spec_mul_shr(amount_in as u128, price, SCALE_OFFSET, Rounding::Down),
            ErrorCode::MulShrMathError,
        )
    } else {
        spec_convert_math_result(
            spec_shl_div(amount_in as u128, price, SCALE_OFFSET, Rounding::Down),
            ErrorCode::ShlDivMathError,
        )
    }
}

/// Input needed to buy exactly `amount_out` at `price`, rounded up.
pub open spec fn spec_amount_in_for_out(amount_out: u64, price: u128, swap_for_y: bool) -> Result<
    u64,
    ErrorCode,
> {
    if swap_for_y {
        spec_convert_math_result(
            spec_shl_div(amount_out as u128, price, SCALE_OFFSET, Rounding::Up),
            ErrorCode::ShlDivMathError,
        )
    } else {
        spec_convert_math_result(
            spec_mul_shr(amount_out as u128, price, SCALE_OFFSET, Rounding::Up),
            ErrorCode::MulShrMathError,
        )
    }
}

/// New reserves after a swap: the paying side grows by the gross input
/// minus the protocol's cut, the paid side shrinks by the output.
pub open spec fn spec_apply_to_reserves(
    bin: Bin,
    amount_in_with_fees: u64,
    amount_out: u64,
    protocol_fee: u64,
    swap_for_y: bool,
) -> Result<Bin, ErrorCode> {
    let reserve_in_old = if swap_for_y {
        bin.reserve_x
    } else {
        bin.reserve_y
    };
    let reserve_out_old = if swap_for_y {
        bin.reserve_y
    } else {
        bin.reserve_x
    };
    if reserve_in_old + amount_in_with_fees > u64::MAX {
        Err(ErrorCode::AmountOverflow)
    } else if reserve_in_old + amount_in_with_fees < protocol_fee {
        Err(ErrorCode::AmountUnderflow)
    } else if reserve_out_old < amount_out {
        Err(ErrorCode::AmountUnderflow)
    } else {
        let reserve_in_new = (reserve_in_old + amount_in_with_fees - protocol_fee) as u64;
        let reserve_out_new = (reserve_out_old - amount_out) as u64;
        if swap_for_y {
            Ok(Bin { reserve_x: reserve_in_new, reserve_y: reserve_out_new, ..bin })
        } else {
            Ok(Bin { reserve_x: reserve_out_new, reserve_y: reserve_in_new, ..bin })
        }
    }
}

/// The protocol's cut of a bin fee; skipped entirely when the share is 0.
pub open spec fn spec_protocol_cut(fee_amount: u64, protocol_share: u64) -> Result<
    u64,
    ErrorCode,
> {
    if protocol_share > 0 {
        spec_get_protocol_fee(fee_amount, protocol_share)
    } else {
        Ok(0u64)
    }
}

/// The net input, output and fee of one exact-in step against a bin whose
/// outbound reserve is `reserve_out`: either the bin is drained at its
/// maximum input, or the whole remaining input is spent.
pub open spec fn spec_exact_in_amounts(
    amount_in_left: u64,
    max_amount_in: u64,
    max_fee_amount: u64,
    reserve_out: u64,
    price: u128,
    fee: u64,
    swap_for_y: bool,
) -> Result<(u64, u64, u64), ErrorCode> {
    if max_amount_in + max_fee_amount > u64::MAX {
        Err(ErrorCode::AmountOverflow)
    } else if amount_in_left >= max_amount_in + max_fee_amount {
        Ok((max_amount_in, reserve_out, max_fee_amount))
    } else {
        match spec_get_fee_amount(amount_in_left, fee) {
            Err(e) => Err(e),
            Ok(fee_amount) => if fee_amount > amount_in_left {
                Err(ErrorCode::AmountUnderflow)
            } else {
                let amount_in = (amount_in_left - fee_amount) as u64;
                match spec_amount_out_for_in(amount_in, price, swap_for_y) {
                    Err(e) => Err(e),
                    Ok(raw_out) => Ok(
                        (
                            amount_in,
                            if raw_out > reserve_out {
                                reserve_out
                            } else {
                                raw_out
                            },
                            fee_amount,
                        ),
                    ),
                }
            },
        }
    }
}

/// Full behaviour of `Bin::swap_exact_in`: amounts, fees, protocol cut and
/// the updated bin, or the first error met. An empty outbound reserve
/// settles to zeros before the price is even computed.
pub open spec fn spec_swap_exact_in(
    bin: Bin,
    bin_step: u8,
    bin_id: u32,
    amount_in_left: u64,
    fee: u64,
    protocol_share: u64,
    swap_for_y: bool,
) -> Result<BinSwapOutcome, ErrorCode> {
    let reserve_out = spec_reserve_out(bin, swap_for_y);
    if reserve_out == 0 {
        Ok(
            BinSwapOutcome {
                bin,
                amount_in: 0,
                amount_in_with_fees: 0,
                amount_out: 0,
                fee_amount: 0,
                protocol_fee: 0,
            },
        )
    } else {
        match spec_get_price_from_id(bin_step, bin_id) {
            Err(e) => Err(e),
            Ok(price) => {
                match spec_max_amount_in(reserve_out, price, swap_for_y) {
                    Err(e) => Err(e),
                    Ok(max_amount_in) => match spec_get_fee_for_amount(max_amount_in, fee) {
                        Err(e) => Err(e),
                        Ok(max_fee_amount) => match spec_exact_in_amounts(
                            amount_in_left,
                            max_amount_in,
                            max_fee_amount,
                            reserve_out,
                            price,
                            fee,
                            swap_for_y,
                        ) {
                            Err(e) => Err(e),
                            Ok((amount_in, amount_out, fee_amount)) => match spec_protocol_cut(
                                fee_amount,
                                protocol_share,
                            ) {
                                Err(e) => Err(e),
                                Ok(protocol_fee) => if amount_in + fee_amount > u64::MAX {
                                    Err(ErrorCode::AmountOverflow)
                                } else {
                                    let amount_in_with_fees = (amount_in + fee_amount) as u64;
                                    match spec_apply_to_reserves(
                                        bin,
                                        amount_in_with_fees,
                                        amount_out,
                                        protocol_fee,
                                        swap_for_y,
                                    ) {
                                        Err(e) => Err(e),
                                        Ok(new_bin) => Ok(
                                            BinSwapOutcome {
                                                bin: new_bin,
                                                amount_in,
                                                amount_in_with_fees,
                                                amount_out,
                                                fee_amount,
                                                protocol_fee,
                                            },
                                        ),
                                    }
                                },
                            },
                        },
                    },
                }
            },
        }
    }
}

/// Full behaviour of `Bin::swap_exact_out`: the requested output is capped
/// at the bin's reserve, the needed input is derived price-side rounded up,
/// and the fee is charged on top of it. An empty outbound reserve settles
/// to zeros before the price is even computed.
pub open spec fn spec_swap_exact_out(
    bin: Bin,
    bin_step: u8,
    bin_id: u32,
    amount_out_left: u64,
    fee: u64,
    protocol_share: u64,
    swap_for_y: bool,
) -> Result<BinSwapOutcome, ErrorCode> {
    let reserve_out = spec_reserve_out(bin, swap_for_y);
    if reserve_out == 0 {
        Ok(
            BinSwapOutcome {
                bin,
                amount_in: 0,
                amount_in_with_fees: 0,
                amount_out: 0,
                fee_amount: 0,
                protocol_fee: 0,
            },
        )
    } else {
        match spec_get_price_from_id(bin_step, bin_id) {
            Err(e) => Err(e),
            Ok(price) => {
                let amount_out = if amount_out_left > reserve_out {
                    reserve_out
                } else {
                    amount_out_left
                };
                match spec_amount_in_for_out(amount_out, price, swap_for_y) {
                    Err(e) => Err(e),
                    Ok(amount_in) => match spec_get_fee_for_amount(amount_in, fee) {
                        Err(e) => Err(e),
                        Ok(fee_amount) => if amount_in + fee_amount > u64::MAX {
                            Err(ErrorCode::AmountOverflow)
                        } else {
                            let amount_in_with_fees = (amount_in + fee_amount) as u64;
                            match spec_get_protocol_fee(fee_amount, protocol_share) {
                                Err(e) => Err(e),
                                Ok(protocol_fee) => match spec_apply_to_reserves(
                                    bin,
                                    amount_in_with_fees,
                                    amount_out,
                                    protocol_fee,
                                    swap_for_y,
                                ) {
                                    Err(e) => Err(e),
                                    Ok(new_bin) => Ok(
                                        BinSwapOutcome {
                                            bin: new_bin,
                                            amount_in,
                                            amount_in_with_fees,
                                            amount_out,
                                            fee_amount,
                                            protocol_fee,
                                        },
                                    ),
                                },
                            }
                        },
                    },
                }
            },
        }
    }
}

impl Bin {
    /// Serialise this bin into its 32-byte account layout.
    pub fn pack(&self) -> (r: Vec<u8>)
        ensures
            r@ == spec_bin_bytes(*self),
            r@.len() == 32,
    {
        proof {
            lemma_auto_spec_u128_to_from_le_bytes();
            lemma_auto_spec_u64_to_from_le_bytes();
        }
        let mut out = u128_to_le_bytes(self.total_supply);
        let mut reserve_x_bytes = u64_to_le_bytes(self.reserve_x);
        let mut reserve_y_bytes = u64_to_le_bytes(self.reserve_y);
        out.append(&mut reserve_x_bytes);
        out.append(&mut reserve_y_bytes);
        out
    }

    /// Read a bin back from its 32-byte account layout.
    pub fn unpack(data: &[u8]) -> (r: Option<Bin>)
        ensures
            r == spec_unpack_bin(data@),
    {
        if data.len() != 32 {
            return None;
        }
        let total_supply = u128_from_le_bytes(slice_subrange(data, 0, 16));
        let reserve_x = u64_from_le_bytes(slice_subrange(data, 16, 24));
        let reserve_y = u64_from_le_bytes(slice_subrange(data, 24, 32));
        Some(Bin { total_supply, reserve_x, reserve_y })
    }

    /// Swap as much of `amount_in_left` as this bin can absorb, paying out
    /// of the reserve chosen by `swap_for_y`; returns
    /// `(amount_in_with_fees, amount_out, fee_amount, protocol_fee)`.
    /// On an error the bin is left untouched.
    pub fn swap_exact_in(
        &mut self,
        bin_step: u8,
        bin_id: u32,
        amount_in_left: u64,
        fee: u64,
        protocol_share: u64,
        swap_for_y: bool,
    ) -> (r: Result<(u64, u64, u64, u64), ErrorCode>)
        ensures
            ({
                let s = spec_swap_exact_in(
                    *old(self),
                    bin_step,
                    bin_id,
                    amount_in_left,
                    fee,
                    protocol_share,
                    swap_for_y,
                );
                match s {
                    Ok(o) => r == Ok::<(u64, u64, u64, u64), ErrorCode>(
                        (o.amount_in_with_fees, o.amount_out, o.fee_amount, o.protocol_fee),
                    ) && *final(self) == o.bin,
                    Err(e) => r == Err::<(u64, u64, u64, u64), ErrorCode>(e) && *final(self)
                        == *old(self),
                }
            }),
    {
        let bin_reserve_out = if swap_for_y {
            self.reserve_y
        } else {
            self.reserve_x
        };
        if bin_reserve_out == 0 {
            return Ok((0, 0, 0, 0));
        }

        let price = get_price_from_id(bin_step, bin_id)?;

        let max_amount_in = if swap_for_y {
            convert_math_result(
                shl_div(bin_reserve_out as u128, price, SCALE_OFFSET, Rounding::Up),
                ErrorCode::ShlDivMathError,
            )?
        } else {
            convert_math_result(
                mul_shr(bin_reserve_out as u128, price, SCALE_OFFSET, Rounding::Up),
                ErrorCode::MulShrMathError,
            )?
        };

        let max_fee_amount = get_fee_for_amount(max_amount_in, fee)?;

        let max_amount_in_with_fee = match max_amount_in.checked_add(max_fee_amount) {
            Some(total) => total,
            None => {
                return Err(ErrorCode::AmountOverflow);
            },
        };

        let amount_in: u64;
        let mut amount_out: u64;
        let fee_amount: u64;

        if amount_in_left >= max_amount_in_with_fee {
            fee_amount = max_fee_amount;
            amount_in = max_amount_in;
            amount_out = bin_reserve_out;
        } else {
            fee_amount = get_fee_amount(amount_in_left, fee)?;
            if fee_amount > amount_in_left {
                return Err(ErrorCode::AmountUnderflow);
            }
            amount_in = amount_in_left - fee_amount;
            amount_out = if swap_for_y {
                convert_math_result(
                    mul_shr(amount_in as u128, price, SCALE_OFFSET, Rounding::Down),
                    ErrorCode::MulShrMathError,
                )?
            } else {
                convert_math_result(
                    shl_div(amount_in as u128, price, SCALE_OFFSET, Rounding::Down),
                    ErrorCode::ShlDivMathError,
                )?
            };
            if amount_out > bin_reserve_out {
                amount_out = bin_reserve_out;
            }
        }

        let protocol_fee_amount = if protocol_share > 0 {
            get_protocol_fee(fee_amount, protocol_share)?
        } else {
            0
        };

        let amount_in_with_fees = match amount_in.checked_add(fee_amount) {
            Some(total) => total,
            None => {
                return Err(ErrorCode::AmountOverflow);
            },
        };

        self.apply_to_reserves(amount_in_with_fees, amount_out, protocol_fee_amount, swap_for_y)?;

        Ok((amount_in_with_fees, amount_out, fee_amount, protocol_fee_amount))
    }

    /// Swap towards a desired output of at most `amount_out_left`, paying
    /// out of the reserve chosen by `swap_for_y`; returns
    /// `(amount_in_with_fees, amount_out, fee_amount, protocol_fee)`.
    /// On an error the bin is left untouched.
    pub fn swap_exact_out(
        &mut self,
        bin_step: u8,
        bin_id: u32,
        amount_out_left: u64,
        fee: u64,
        protocol_share: u64,
        swap_for_y: bool,
    ) -> (r: Result<(u64, u64, u64, u64), ErrorCode>)
        ensures
            ({
                let s = spec_swap_exact_out(
                    *old(self),
                    bin_step,
                    bin_id,
                    amount_out_left,
                    fee,
                    protocol_share,
                    swap_for_y,
                );
                match s {
                    Ok(o) => r == Ok::<(u64, u64, u64, u64), ErrorCode>(
                        (o.amount_in_with_fees, o.amount_out, o.fee_amount, o.protocol_fee),
                    ) && *final(self) == o.bin,
                    Err(e) => r == Err::<(u64, u64, u64, u64), ErrorCode>(e) && *final(self)
                        == *old(self),
                }
            }),
    {
        let bin_reserve_out = if swap_for_y {
            self.reserve_y
        } else {
            self.reserve_x
        };
        if bin_reserve_out == 0 {
            return Ok((0, 0, 0, 0));
        }

        let price = get_price_from_id(bin_step, bin_id)?;

        let amount_out = if amount_out_left > bin_reserve_out {
            bin_reserve_out
        } else {
            amount_out_left
        };

        let amount_in_without_fee = if swap_for_y {
            convert_math_result(
                shl_div(amount_out as u128, price, SCALE_OFFSET, Rounding::Up),
                ErrorCode::ShlDivMathError,
            )?
        } else {
            convert_math_result(
                mul_shr(amount_out as u128, price, SCALE_OFFSET, Rounding::Up),
                ErrorCode::MulShrMathError,
            )?
        };

        let fee_amount = get_fee_for_amount(amount_in_without_fee, fee)?;

        let amount_in = match amount_in_without_fee.checked_add(fee_amount) {
            Some(total) => total,
            None => {
                return Err(ErrorCode::AmountOverflow);
            },
        };

        let protocol_fee_amount = get_protocol_fee(fee_amount, protocol_share)?;

        self.apply_to_reserves(amount_in, amount_out, protocol_fee_amount, swap_for_y)?;

        Ok((amount_in, amount_out, fee_amount, protocol_fee_amount))
    }

    /// Grow the paying side by the gross input net of the protocol cut and
    /// shrink the paid side by the output; untouched on error.
    fn apply_to_reserves(
        &mut self,
        amount_in_with_fees: u64,
        amount_out: u64,
        protocol_fee: u64,
        swap_for_y: bool,
    ) -> (r: Result<(), ErrorCode>)
        ensures
            ({
                let s = spec_apply_to_reserves(
                    *old(self),
                    amount_in_with_fees,
                    amount_out,
                    protocol_fee,
                    swap_for_y,
                );
                match s {
                    Ok(b) => r == Ok::<(), ErrorCode>(()) && *final(self) == b,
                    Err(e) => r == Err::<(), ErrorCode>(e) && *final(self) == *old(self),
                }
            }),
    {
        let reserve_in_old = if swap_for_y {
            self.reserve_x
        } else {
            self.reserve_y
        };
        let reserve_out_old = if swap_for_y {
            self.reserve_y
        } else {
            self.reserve_x
        };
        let grown = match reserve_in_old.checked_add(amount_in_with_fees) {
            Some(total) => total,
            None => {
                return Err(ErrorCode::AmountOverflow);
            },
        };
        if grown < protocol_fee {
            return Err(ErrorCode::AmountUnderflow);
        }
        if reserve_out_old < amount_out {
            return Err(ErrorCode::AmountUnderflow);
        }
        let reserve_in_new = grown - protocol_fee;
        let reserve_out_new = reserve_out_old - amount_out;
        if swap_for_y {
            self.reserve_x = reserve_in_new;
            self.reserve_y = reserve_out_new;
        } else {
            self.reserve_x = reserve_out_new;
            self.reserve_y = reserve_in_new;
        }
        Ok(())
    }
}

/// Conservation: the gross amount charged to the trader is exactly the
/// exchanged input plus the fee, in both swap modes.
pub proof fn lemma_bin_swap_conservation(
    bin: Bin,
    bin_step: u8,
    bin_id: u32,
    amount_left: u64,
    fee: u64,
    protocol_share: u64,
    swap_for_y: bool,
)
    ensures
        spec_swap_exact_in(bin, bin_step, bin_id, amount_left, fee, protocol_share, swap_for_y)
            matches Ok(o) ==> o.amount_in_with_fees == o.amount_in + o.fee_amount,
        spec_swap_exact_out(bin, bin_step, bin_id, amount_left, fee, protocol_share, swap_for_y)
            matches Ok(o) ==> o.amount_in_with_fees == o.amount_in + o.fee_amount,
{
}

/// Per-bin reserve accounting: the touched bin's combined reserves change
/// by exactly the gross input net of the protocol cut, minus the output.
pub proof fn lemma_bin_swap_reserve_delta(
    bin: Bin,
    bin_step: u8,
    bin_id: u32,
    amount_left: u64,
    fee: u64,
    protocol_share: u64,
    swap_for_y: bool,
)
    ensures
        spec_swap_exact_in(bin, bin_step, bin_id, amount_left, fee, protocol_share, swap_for_y)
            matches Ok(o) ==> o.bin.reserve_x + o.bin.reserve_y == bin.reserve_x + bin.reserve_y
            + o.amount_in_with_fees - o.protocol_fee - o.amount_out,
        spec_swap_exact_out(bin, bin_step, bin_id, amount_left, fee, protocol_share, swap_for_y)
            matches Ok(o) ==> o.bin.reserve_x + o.bin.reserve_y == bin.reserve_x + bin.reserve_y
            + o.amount_in_with_fees - o.protocol_fee - o.amount_out,
{
}

/// The protocol's cut never exceeds the fee it is taken from, in both swap
/// modes, as long as the protocol share stays within one whole.
pub proof fn lemma_bin_swap_protocol_fee_bounded(
    bin: Bin,
    bin_step: u8,
    bin_id: u32,
    amount_left: u64,
    fee: u64,
    protocol_share: u64,
    swap_for_y: bool,
)
    requires
        protocol_share <= crate::constants::BASIS_POINT_MAX,
    ensures
        spec_swap_exact_in(bin, bin_step, bin_id, amount_left, fee, protocol_share, swap_for_y)
            matches Ok(o) ==> o.protocol_fee <= o.fee_amount,
        spec_swap_exact_out(bin, bin_step, bin_id, amount_left, fee, protocol_share, swap_for_y)
            matches Ok(o) ==> o.protocol_fee <= o.fee_amount,
{
    let s_in = spec_swap_exact_in(bin, bin_step, bin_id, amount_left, fee, protocol_share, swap_for_y);
    if s_in is Ok {
        let o = s_in->Ok_0;
        crate::utils::lemma_protocol_fee_bounded(o.fee_amount, protocol_share);
    }
    let s_out = spec_swap_exact_out(bin, bin_step, bin_id, amount_left, fee, protocol_share, swap_for_y);
    if s_out is Ok {
        let o = s_out->Ok_0;
        crate::utils::lemma_protocol_fee_bounded(o.fee_amount, protocol_share);
    }
}

} // verus!
