//! Off-chain quoting core for a discretized-liquidity market maker (DLMM):
//! a concentrated-liquidity AMM whose liquidity sits in a grid of
//! constant-sum price bins. The crate reproduces the on-chain arithmetic
//! bit for bit: fixed-point price curve, dynamic volatility-driven fees,
//! the cross-bin swap loop, transfer-fee wrapping, and the binary account
//! layouts.

pub mod bin;
pub mod bin_array;
pub mod bin_math;
pub mod constants;
pub mod errors;
pub mod fee;
pub mod fees;
pub mod pair;
pub mod pubkey;
pub mod quote;
pub mod swap_manager;
pub mod u128x128_math;
pub mod u64x64_math;
pub mod utils;
mod wide;
