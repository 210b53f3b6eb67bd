//! Fixed-point decimal numbers as the Architect API sends them (numeric
//! strings), held as a signed mantissa and a number of decimal places.

use std::str::FromStr;
use vstd::prelude::*;

verus! {

/// Largest magnitude of a decimal mantissa (`2^96 - 1`).
pub const MAX_MANTISSA: i128 = 0xFFFF_FFFF_FFFF_FFFF_FFFF_FFFF;

/// Largest number of decimal places of a decimal.
pub const MAX_SCALE: u32 = 28;

/// A decimal number `mantissa * 10^-scale`.
///
/// The representation is not normalised: `0.10` has mantissa 10 and scale 2,
/// `0.1` has mantissa 1 and scale 1.
#[derive(Clone, Copy, Debug)]
pub struct Decimal {
    mantissa: i128,
    scale: u32,
}

/// `10^n` as a mathematical integer.
pub open spec fn pow10(n: nat) -> int
    decreases n,
{
    if n == 0 {
        1
    } else {
        10 * pow10((n - 1) as nat)
    }
}

/// Whether a (mantissa, scale) pair is within the range of [`Decimal`].
pub open spec fn decimal_in_range(v: (int, nat)) -> bool {
    &&& -MAX_MANTISSA <= v.0 <= MAX_MANTISSA
    &&& v.1 <= MAX_SCALE
}

impl View for Decimal {
    type V = (int, nat);

    /// The mantissa and the scale.
    closed spec fn view(&self) -> (int, nat) {
        (self.mantissa as int, self.scale as nat)
    }
}

impl DeepView for Decimal {
    type V = (int, nat);

    open spec fn deep_view(&self) -> (int, nat) {
        self@
    }
}

impl Decimal {
    #[verifier::type_invariant]
    closed spec fn inv(self) -> bool {
        decimal_in_range(self@)
    }

    /// Zero (mantissa 0, scale 0).
    pub fn zero() -> (d: Self)
        ensures
            d@ == (0int, 0nat),
    {
        Decimal { mantissa: 0, scale: 0 }
    }

    /// Creates `num * 10^-scale`.
    pub fn new(num: i64, scale: u32) -> (d: Self)
        requires
            scale <= MAX_SCALE,
        ensures
            d@ == (num as int, scale as nat),
    {
        Decimal { mantissa: num as i128, scale }
    }

    /// Creates `num * 10^-scale` from a wide mantissa.
    pub fn from_i128_with_scale(num: i128, scale: u32) -> (d: Self)
        requires
            decimal_in_range((num as int, scale as nat)),
        ensures
            d@ == (num as int, scale as nat),
    {
        Decimal { mantissa: num, scale }
    }

    /// The signed mantissa.
    pub fn mantissa(&self) -> (m: i128)
        ensures
            m == self@.0,
            decimal_in_range(self@),
    {
        proof {
            use_type_invariant(self);
        }
        self.mantissa
    }

    /// The number of decimal places.
    pub fn scale(&self) -> (s: u32)
        ensures
            s == self@.1,
            decimal_in_range(self@),
    {
        proof {
            use_type_invariant(self);
        }
        self.scale
    }

    /// Whether the value is zero.
    pub fn is_zero(&self) -> (b: bool)
        ensures
            b == (self@.0 == 0),
    {
        self.mantissa == 0
    }
}

/// What `rust_decimal::Decimal::from_str` gives for a string: the mantissa
/// and the scale of the parsed decimal, or the message (`Display`) of the
/// error it returns.
pub uninterp spec fn decimal_from_str_result(s: Seq<char>) -> Result<(int, nat), Seq<char>>;

/// The mantissa and the scale `rust_decimal` parses from a string, or `None`
/// where it rejects the string.
pub open spec fn decimal_str_value(s: Seq<char>) -> Option<(int, nat)> {
    match decimal_from_str_result(s) {
        Ok(d) => Some(d),
        Err(_) => None,
    }
}

/// Calls `rust_decimal::Decimal::from_str`, and on failure the `Display` of
/// the returned `rust_decimal::Error`.
///
/// Trusted: the result depends on the string alone and is the one named by
/// [`decimal_from_str_result`]; the empty string is rejected (the parser's
/// first match arm on an empty byte slice); every decimal the crate produces
/// has a scale of at most 28 and a mantissa below `2^96` in magnitude.
#[verifier::external_body]
pub(crate) fn rust_decimal_from_str(s: &str) -> (res: Result<Decimal, String>)
    ensures
        match res {
            Ok(d) => decimal_from_str_result(s@) == Ok::<(int, nat), Seq<char>>(d@),
            Err(m) => decimal_from_str_result(s@) == Err::<(int, nat), Seq<char>>(m@),
        },
        s@.len() == 0 ==> res is Err,
{
    match rust_decimal::Decimal::from_str(s) {
        Ok(d) => Ok(Decimal { mantissa: d.mantissa(), scale: d.scale() }),
        Err(e) => Err(e.to_string()),
    }
}

} // verus!
