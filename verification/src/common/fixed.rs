//! Fixed-point prices and quantities as the Nautilus model represents them:
//! a raw integer scaled by `10^9` and a display precision.

use vstd::prelude::*;

use crate::common::decimal::{pow10, Decimal};

verus! {

/// Decimal places of the raw fixed-point representation.
pub const FIXED_PRECISION: u8 = 9;

/// Largest raw price (`9_223_372_036 * 10^9`).
pub const PRICE_RAW_MAX: i64 = 9_223_372_036_000_000_000;

/// Largest raw quantity: `18_446_744_073.0 * 1e9` as the floating-point
/// product rounds it (`18_446_744_073 * 10^9 - 512`).
pub const QUANTITY_RAW_MAX: u64 = 18_446_744_072_999_999_488;

/// A price: `raw * 10^-9`, shown with `precision` decimal places.
#[derive(Clone, Copy, Debug, PartialEq, Eq, Structural)]
pub struct PriceValue {
    /// Raw fixed-point value.
    pub raw: i64,
    /// Number of decimal places.
    pub precision: u8,
}

/// A non-negative quantity: `raw * 10^-9`, shown with `precision` decimal places.
#[derive(Clone, Copy, Debug, PartialEq, Eq, Structural)]
pub struct QuantityValue {
    /// Raw fixed-point value.
    pub raw: u64,
    /// Number of decimal places.
    pub precision: u8,
}

/// The raw fixed-point value of `mantissa * 10^-scale` for `scale <= 9`.
pub open spec fn fixed_raw(d: (int, nat)) -> int {
    d.0 * pow10((FIXED_PRECISION - d.1) as nat)
}

/// Calls `nautilus_model::types::Price::from_decimal`.
///
/// Trusted, as its source (0.55) shows: the precision is the decimal's scale;
/// the call succeeds exactly when that scale is at most 9 and the raw value
/// `mantissa * 10^(9 - scale)` lies within `[-PRICE_RAW_MAX, PRICE_RAW_MAX]`,
/// and then the raw value is that product.
#[verifier::external_body]
pub(crate) fn nautilus_price_from_decimal(d: &Decimal) -> (res: Option<PriceValue>)
    ensures
        res is Some <==> (d@.1 <= FIXED_PRECISION && -PRICE_RAW_MAX <= fixed_raw(d@) <= PRICE_RAW_MAX),
        res matches Some(p) ==> p.raw == fixed_raw(d@) && p.precision == d@.1,
{
    let v = rust_decimal::Decimal::from_i128_with_scale(d.mantissa(), d.scale());
    match nautilus_model::types::Price::from_decimal(v) {
        Ok(p) => Some(PriceValue { raw: p.raw, precision: p.precision }),
        Err(_) => None,
    }
}

/// Calls `nautilus_model::types::Quantity::from_decimal`.
///
/// Trusted, as its source (0.55, standard precision) shows: the precision is
/// the decimal's scale; the call succeeds exactly when the mantissa is not
/// negative, the scale is at most 9 and the raw value
/// `mantissa * 10^(9 - scale)` is at most `QUANTITY_RAW_MAX` (the `u64` cast
/// of the product `QUANTITY_MAX * FIXED_SCALAR`, both exact in `f64`, whose
/// correctly rounded value is `18_446_744_072_999_999_488`), and then the
/// raw value is that product.
#[verifier::external_body]
pub(crate) fn nautilus_quantity_from_decimal(d: &Decimal) -> (res: Option<QuantityValue>)
    ensures
        res is Some <==> (d@.0 >= 0 && d@.1 <= FIXED_PRECISION && fixed_raw(d@) <= QUANTITY_RAW_MAX),
        res matches Some(q) ==> q.raw == fixed_raw(d@) && q.precision == d@.1,
{
    let v = rust_decimal::Decimal::from_i128_with_scale(d.mantissa(), d.scale());
    match nautilus_model::types::Quantity::from_decimal(v) {
        Ok(q) => Some(QuantityValue { raw: q.raw, precision: q.precision }),
        Err(_) => None,
    }
}

} // verus!
