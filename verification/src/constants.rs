//! Protocol-wide constants shared by the fee math, the price curve and the
//! swap engine.

use vstd::prelude::*;

verus! {

/// Basis-point denominator: 10_000 basis points make one whole.
pub const BASIS_POINT_MAX: u64 = 10_000;

/// Fee unit: fee rates are expressed in parts of 10^9.
pub const PRECISION: u64 = 1_000_000_000;

/// `PRECISION` squared, the denominator of the composition fee.
pub const SQUARED_PRECISION: u64 = 1_000_000_000_000_000_000;

/// Denominator of the variable-fee formula (10^11).
pub const VARIABLE_FEE_PRECISION: u64 = 100_000_000_000;

/// Protocol share of the swap fee is capped at 2_500 basis points (25 %).
pub const MAX_PROTOCOL_SHARE: u16 = 2_500;

/// Largest valid bin id: 2^24 - 1.
pub const MAX_ACTIVE_ID: u32 = 16_777_215;

/// The centre bin, 2^23: the bin whose price is exactly one.
pub const MIDDLE_BIN_ID: i32 = 8_388_608;

/// A swap may cross at most this many bin boundaries.
pub const MAX_BIN_CROSSING: u32 = 30;

/// Number of bins held by one bin array.
pub const BIN_ARRAY_SIZE: u32 = 256;

/// `BIN_ARRAY_SIZE` as a usize, for indexing.
pub const BIN_ARRAY_SIZE_USIZE: usize = 256;

/// Fixed-point shift of the 64.64 price representation.
pub const SCALE_OFFSET: u8 = 64;

/// The 64.64 fixed-point representation of one: 2^64.
pub const ONE: u128 = 0x1_0000_0000_0000_0000;

} // verus!
