//! Structured error values. A quote never panics: every fallible step
//! returns the first error it meets and the caller discards its working
//! copy of the state.

use vstd::prelude::*;

verus! {

/// Every way a quote can fail.
#[derive(Clone, Copy, Debug, PartialEq, Eq, Structural)]
pub enum ErrorCode {
    /// A division met a zero denominator.
    DivideByZero,
    /// A value could not be represented in the requested integer width.
    NumberCastError,
    /// The two bin arrays of a pair are not adjacent.
    BinArrayIndexMismatch,
    /// The requested bin id lies in neither bin array.
    BinNotFound,
    /// The input mint matches neither side of the pair.
    InvalidMint,
    /// The transfer-fee inversion failed its forward self-check.
    TransferFeeCalculationError,
    /// A checked addition or multiplication overflowed.
    AmountOverflow,
    /// A checked subtraction underflowed.
    AmountUnderflow,
    /// The active id would move below bin id zero.
    ActiveIdUnderflow,
    /// The active id would move past the largest bin id.
    ActiveIdOverflow,
    /// The requested input amount is invalid.
    InvalidAmountIn,
    /// The requested output amount is invalid.
    InvalidAmountOut,
    /// A multiply-then-shift-right left no representable result.
    MulShrMathError,
    /// A shift-left-then-divide left no representable result.
    ShlDivMathError,
    /// A 128-bit intermediate did not fit into 64 bits.
    U64ConversionOverflow,
    /// The swap would cross more bins than the engine allows.
    SwapCrossesTooManyBins,
}

impl ErrorCode {
    /// A human-readable description of the error.
    pub fn message(&self) -> (r: &'static str)
    {
        match self {
            ErrorCode::DivideByZero => "unable to divide by zero",
            ErrorCode::NumberCastError => "unable to cast number",
            ErrorCode::BinArrayIndexMismatch => "bin array index mismatch",
            ErrorCode::BinNotFound => "bin not found within bin array",
            ErrorCode::InvalidMint => "invalid mint",
            ErrorCode::TransferFeeCalculationError => "transfer fee calculation error",
            ErrorCode::AmountOverflow => "amount overflow",
            ErrorCode::AmountUnderflow => "amount underflow",
            ErrorCode::ActiveIdUnderflow => "active id underflow",
            ErrorCode::ActiveIdOverflow => "active id overflow",
            ErrorCode::InvalidAmountIn => "invalid amount in",
            ErrorCode::InvalidAmountOut => "invalid amount out",
            ErrorCode::MulShrMathError => "mul-shr math error",
            ErrorCode::ShlDivMathError => "shl-div math error",
            ErrorCode::U64ConversionOverflow => "u64 conversion overflow",
            ErrorCode::SwapCrossesTooManyBins => "swap crosses too many bins",
        }
    }
}

} // verus!
