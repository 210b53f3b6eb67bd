//! Parsing of the numeric string fields of Architect API payloads.

use vstd::prelude::*;

use crate::common::decimal::{
    decimal_from_str_result, decimal_str_value, rust_decimal_from_str, Decimal,
};

verus! {

/// A string that is not a decimal number.
#[derive(Clone, Debug)]
pub struct DecimalParseError {
    /// The rejected input.
    pub input: String,
    /// Why the decimal parser rejected it.
    pub reason: String,
}

/// Whether `e` is the error for the rejected string `s`: its input is `s`
/// and its reason is the message of `rust_decimal`'s error for `s`.
pub open spec fn is_parse_error_of(e: DecimalParseError, s: Seq<char>) -> bool {
    &&& e.input@ == s
    &&& decimal_from_str_result(s) == Err::<(int, nat), Seq<char>>(e.reason@)
}

/// The string `"0"`.
pub open spec fn is_zero_literal(s: Seq<char>) -> bool {
    s == seq!['0']
}

/// Whether a field holds no value: it is empty or the literal `"0"`.
pub open spec fn is_blank_field(s: Seq<char>) -> bool {
    s.len() == 0 || is_zero_literal(s)
}

/// Tests whether the string is empty or `"0"`.
pub fn is_blank_or_zero(s: &str) -> (b: bool)
    ensures
        b == is_blank_field(s@),
{
    let n = s.unicode_len();
    if n == 0 {
        true
    } else if n == 1 {
        let c = s.get_char(0);
        if c == '0' {
            assert(s@ =~= seq!['0']);
            true
        } else {
            assert(seq!['0'][0] == '0');
            false
        }
    } else {
        false
    }
}

/// Parses a string to a decimal, returning an error if parsing fails.
pub fn parse_decimal(s: &str) -> (res: Result<Decimal, DecimalParseError>)
    ensures
        res is Ok <==> decimal_str_value(s@) is Some,
        s@.len() == 0 ==> res is Err,
        res matches Ok(d) ==> decimal_str_value(s@) == Some(d@),
        res matches Err(e) ==> is_parse_error_of(e, s@),
{
    match rust_decimal_from_str(s) {
        Ok(d) => Ok(d),
        Err(reason) => Err(DecimalParseError { input: s.to_owned(), reason }),
    }
}

/// What [`parse_optional_decimal`] gives for a field: `None` for a parse
/// error, `Some(None)` for an absent or empty field, otherwise the parsed value.
pub open spec fn optional_decimal_value(s: Option<Seq<char>>) -> Option<Option<(int, nat)>> {
    match s {
        None => Some(None),
        Some(v) => if v.len() == 0 {
            Some(None)
        } else {
            match decimal_str_value(v) {
                Some(d) => Some(Some(d)),
                None => None,
            }
        },
    }
}

/// Parses an optional string to a decimal, returning `None` if the string is
/// absent or empty.
pub fn parse_optional_decimal(s: &Option<String>) -> (res: Result<Option<Decimal>, DecimalParseError>)
    ensures
        res is Ok <==> optional_decimal_value(s.deep_view()) is Some,
        res matches Ok(d) ==> optional_decimal_value(s.deep_view()) == Some(d.deep_view()),
        s matches Some(v) ==> (v@.len() > 0 ==> (res is Ok <==> decimal_str_value(v@) is Some) && (
        res matches Ok(Some(d)) ==> decimal_str_value(v@) == Some(d@)) && !(res matches Ok(None))),
        res matches Err(e) ==> s matches Some(v) && is_parse_error_of(e, v@),
{
    match s {
        None => Ok(None),
        Some(v) => {
            if v.as_str().unicode_len() == 0 {
                Ok(None)
            } else {
                match parse_decimal(v.as_str()) {
                    Ok(d) => Ok(Some(d)),
                    Err(e) => Err(e),
                }
            }
        },
    }
}

/// What a field where empty and `"0"` mean "no value" parses to: `None` for a
/// parse error, `Some(None)` for no value, otherwise the parsed value.
pub open spec fn nonzero_decimal_field_value(s: Seq<char>) -> Option<Option<(int, nat)>> {
    if is_blank_field(s) {
        Some(None)
    } else {
        match decimal_str_value(s) {
            Some(d) => Some(Some(d)),
            None => None,
        }
    }
}

/// What a field where empty and `"0"` mean zero parses to: `None` for a parse
/// error, otherwise the value (zero for an empty or `"0"` field).
pub open spec fn decimal_or_zero_field_value(s: Seq<char>) -> Option<(int, nat)> {
    if is_blank_field(s) {
        Some((0int, 0nat))
    } else {
        decimal_str_value(s)
    }
}

/// Law: a field where empty and `"0"` mean zero reads as zero for those
/// texts, and as exactly the value `rust_decimal` parses for any other text
/// (`None` where it rejects the text).
pub proof fn law_decimal_or_zero_field(s: Seq<char>)
    ensures
        (s.len() == 0 || s == seq!['0']) ==> decimal_or_zero_field_value(s) == Some((0int, 0nat)),
        !(s.len() == 0 || s == seq!['0']) ==> decimal_or_zero_field_value(s) == decimal_str_value(s),
{
}

/// Law: a field where empty and `"0"` mean "no value" reads as no value for
/// those texts, and as exactly the value `rust_decimal` parses for any other
/// text (a parse failure where it rejects the text).
pub proof fn law_nonzero_decimal_field(s: Seq<char>)
    ensures
        (s.len() == 0 || s == seq!['0']) ==> nonzero_decimal_field_value(s) == Some(
            None::<(int, nat)>,
        ),
        !(s.len() == 0 || s == seq!['0']) ==> match decimal_str_value(s) {
            Some(d) => nonzero_decimal_field_value(s) == Some(Some(d)),
            None => nonzero_decimal_field_value(s) is None,
        },
{
}

/// Law: an optional field reads as no value when absent or empty, and as
/// exactly the value `rust_decimal` parses otherwise (a parse failure where
/// it rejects the text).
pub proof fn law_optional_decimal(s: Option<Seq<char>>)
    ensures
        match s {
            None => optional_decimal_value(s) == Some(None::<(int, nat)>),
            Some(v) => if v.len() == 0 {
                optional_decimal_value(s) == Some(None::<(int, nat)>)
            } else {
                match decimal_str_value(v) {
                    Some(d) => optional_decimal_value(s) == Some(Some(d)),
                    None => optional_decimal_value(s) is None,
                }
            },
        },
{
}

/// Reads an optional decimal from a string field: an empty string or `"0"`
/// gives `None`, any other string is parsed.
pub fn optional_decimal_from_field(s: &str) -> (res: Result<Option<Decimal>, DecimalParseError>)
    ensures
        res is Ok <==> nonzero_decimal_field_value(s@) is Some,
        res matches Ok(d) ==> nonzero_decimal_field_value(s@) == Some(d.deep_view()),
        res matches Err(e) ==> is_parse_error_of(e, s@),
        (s@.len() == 0 || s@ == seq!['0']) ==> (res matches Ok(d) && d is None),
        !(s@.len() == 0 || s@ == seq!['0']) ==> (res is Ok <==> decimal_str_value(s@) is Some)
            && (res matches Ok(Some(d)) ==> decimal_str_value(s@) == Some(d@)) && !(res matches Ok(
            None,
        )),
{
    if is_blank_or_zero(s) {
        Ok(None)
    } else {
        match parse_decimal(s) {
            Ok(d) => Ok(Some(d)),
            Err(e) => Err(e),
        }
    }
}

/// Reads a decimal from a string field: an empty string or `"0"` gives zero,
/// any other string is parsed.
pub fn decimal_or_zero_from_field(s: &str) -> (res: Result<Decimal, DecimalParseError>)
    ensures
        res is Ok <==> decimal_or_zero_field_value(s@) is Some,
        res matches Ok(d) ==> decimal_or_zero_field_value(s@) == Some(d@),
        res matches Err(e) ==> is_parse_error_of(e, s@),
        (s@.len() == 0 || s@ == seq!['0']) ==> (res matches Ok(d) && d@ == (0int, 0nat)),
        !(s@.len() == 0 || s@ == seq!['0']) ==> (res is Ok <==> decimal_str_value(s@) is Some)
            && (res matches Ok(d) ==> decimal_str_value(s@) == Some(d@)),
{
    if is_blank_or_zero(s) {
        Ok(Decimal::zero())
    } else {
        parse_decimal(s)
    }
}

/// Reads a decimal from an optional string field: an absent field, an empty
/// string or `"0"` give zero, any other string is parsed.
pub fn optional_decimal_or_zero_from_field(s: &Option<String>) -> (res: Result<Decimal, DecimalParseError>)
    ensures
        s is None ==> (res matches Ok(d) && d@ == (0int, 0nat)),
        s matches Some(v) ==> {
            &&& res is Ok <==> decimal_or_zero_field_value(v@) is Some
            &&& res matches Ok(d) ==> decimal_or_zero_field_value(v@) == Some(d@)
        },
        res matches Err(e) ==> s matches Some(v) && is_parse_error_of(e, v@),
        s matches Some(v) ==> (!(v@.len() == 0 || v@ == seq!['0']) ==> (res is Ok <==> decimal_str_value(
            v@,
        ) is Some) && (res matches Ok(d) ==> decimal_str_value(v@) == Some(d@))),
{
    match s {
        None => Ok(Decimal::zero()),
        Some(v) => decimal_or_zero_from_field(v.as_str()),
    }
}

} // verus!
