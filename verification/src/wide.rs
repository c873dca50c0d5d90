//! The one arithmetic step the 128-bit fixed-point layer cannot do on its
//! own: a full 256-bit-wide multiply followed by a division back into 128
//! bits. It is delegated to ruint's `U256`.

use vstd::prelude::*;

verus! {

/// Relies on ruint's `U256`: `Mul` (a product of two 128-bit values never
/// exceeds 256 bits, so it cannot overflow), `div_rem` (Euclidean division,
/// panicking only on a zero divisor, which `requires` excludes) and
/// `TryFrom<U256> for u128` (errs exactly when the value needs more than
/// 128 bits).
#[verifier::external_body]
pub(crate) fn u256_mul_div_floor(x: u128, y: u128, d: u128) -> (r: Option<u128>)
    requires
        d != 0,
    ensures
        r == (if x * y / (d as int) <= u128::MAX {
            Some((x * y / (d as int)) as u128)
        } else {
            None::<u128>
        }),
{
    let wide = ruint::aliases::U256::from(x) * ruint::aliases::U256::from(y);
    let (quotient, _) = wide.div_rem(ruint::aliases::U256::from(d));
    quotient.try_into().ok()
}

/// Relies on ruint's `U256`: `Mul` (cannot overflow on 128-bit inputs),
/// `div_ceil` (rounds the quotient up; panics only on a zero divisor,
/// which `requires` excludes) and `TryFrom<U256> for u128`.
#[verifier::external_body]
pub(crate) fn u256_mul_div_ceil(x: u128, y: u128, d: u128) -> (r: Option<u128>)
    requires
        d != 0,
    ensures
        r == (if (x * y + d - 1) / (d as int) <= u128::MAX {
            Some(((x * y + d - 1) / (d as int)) as u128)
        } else {
            None::<u128>
        }),
{
    let wide = ruint::aliases::U256::from(x) * ruint::aliases::U256::from(y);
    let quotient = wide.div_ceil(ruint::aliases::U256::from(d));
    quotient.try_into().ok()
}

} // verus!
