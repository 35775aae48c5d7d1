//! Decimal amounts, as `rust_decimal` holds them.

use rust_decimal::Decimal;
use vstd::prelude::*;

verus! {

/// `rust_decimal::Decimal`, carried through the library as an opaque value.
#[verifier::external_type_specification]
#[verifier::external_body]
pub struct ExDecimal(rust_decimal::Decimal);

/// The decimal that `rust_decimal::Decimal::new` builds from a mantissa and a scale.
pub uninterp spec fn decimal_new(num: int, scale: int) -> Decimal;

/// The amount zero with no decimal places: the cost and price of a blank record.
pub open spec fn zero() -> Decimal {
    decimal_new(0, 0)
}

/// Calls `rust_decimal::Decimal::new`, which panics when the scale is above 28 and
/// otherwise builds the decimal `num / 10^scale` from its two arguments alone.
/// Trusted: the result is the value named `decimal_new(num, scale)`.
#[verifier::external_body]
pub(crate) fn decimal(num: i64, scale: u32) -> (amount: Decimal)
    requires
        scale <= 28,
    ensures
        amount == decimal_new(num as int, scale as int),
{
    Decimal::new(num, scale)
}

} // verus!
