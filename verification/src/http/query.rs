//! Request parameter structures for the Architect REST API.

use vstd::prelude::*;

use crate::http::error::ArchitectHttpError;

verus! {

/// Query-string key of the instrument symbol.
pub const SYMBOL_KEY: &'static str = "symbol";

/// A byte that form encoding leaves as it is.
pub open spec fn is_form_unreserved(c: char) -> bool {
    ||| c == '*'
    ||| c == '-'
    ||| c == '.'
    ||| c == '_'
    ||| ('0' <= c && c <= '9')
    ||| ('A' <= c && c <= 'Z')
    ||| ('a' <= c && c <= 'z')
}

/// Whether every character is one that form encoding leaves as it is.
pub open spec fn is_form_unreserved_str(s: Seq<char>) -> bool {
    forall|i: int| 0 <= i < s.len() ==> is_form_unreserved(#[trigger] s[i])
}

/// What `serde_urlencoded::to_string` gives for the single pair `key=value`.
pub uninterp spec fn urlencoded_pair(key: Seq<char>, value: Seq<char>) -> Seq<char>;

#[verifier::external_type_specification]
#[verifier::external_body]
pub struct ExUrlEncodedError(serde_urlencoded::ser::Error);

/// Calls `serde_urlencoded::to_string` on the one-element array `[(key, value)]`.
///
/// Trusted, as the source of serde_urlencoded 0.7 and form_urlencoded 1.2
/// shows: a pair of strings always serializes; the result is the one named by
/// [`urlencoded_pair`]; characters in `*-._0-9A-Za-z` are written unchanged,
/// so for such keys and values the result is `key=value`.
#[verifier::external_body]
fn urlencode_pair(key: &str, value: &str) -> (res: Result<String, serde_urlencoded::ser::Error>)
    ensures
        res is Ok,
        res matches Ok(s) ==> s@ == urlencoded_pair(key@, value@),
        res matches Ok(s) ==> (is_form_unreserved_str(key@) && is_form_unreserved_str(value@)
            ==> s@ == key@ + seq!['='] + value@),
{
    serde_urlencoded::to_string([(key, value)])
}

/// Calls `Display::fmt` of `serde_urlencoded::ser::Error` (the error's message).
#[verifier::external_body]
fn urlencode_error_message(e: &serde_urlencoded::ser::Error) -> String {
    e.to_string()
}

/// Message prefix of a parameter serialization error.
pub const SERIALIZE_PARAMS_ERROR: &'static str = "Failed to serialize params: ";

/// Builds the query string `symbol=<symbol>`.
fn symbol_query(symbol: &str) -> (res: Result<String, ArchitectHttpError>)
    ensures
        res matches Ok(q) && q@ == urlencoded_pair(SYMBOL_KEY@, symbol@),
        is_form_unreserved_str(symbol@) ==> (res matches Ok(q) && q@ == SYMBOL_KEY@ + seq!['=']
            + symbol@),
{
    proof {
        reveal_strlit("symbol");
        assert(is_form_unreserved_str(SYMBOL_KEY@));
    }
    match urlencode_pair(SYMBOL_KEY, symbol) {
        Ok(q) => Ok(q),
        Err(e) => {
            let mut msg = SERIALIZE_PARAMS_ERROR.to_owned();
            msg.append(urlencode_error_message(&e).as_str());
            Err(ArchitectHttpError::JsonError(msg))
        },
    }
}

/// Parameters for the GET /ticker endpoint.
#[derive(Clone, Debug)]
pub struct GetTickerParams {
    /// Instrument symbol, e.g. "GBPUSD-PERP", "EURUSD-PERP".
    pub symbol: String,
}

impl GetTickerParams {
    /// Creates a new [`GetTickerParams`] with the given symbol.
    pub fn new(symbol: &str) -> (params: Self)
        ensures
            params.symbol@ == symbol@,
    {
        Self { symbol: symbol.to_owned() }
    }

    /// Serializes the parameters into a URL query string.
    pub fn to_query_string(&self) -> (res: Result<String, ArchitectHttpError>)
        ensures
            res matches Ok(q) && q@ == urlencoded_pair(SYMBOL_KEY@, self.symbol@),
            is_form_unreserved_str(self.symbol@) ==> (res matches Ok(q) && q@ == SYMBOL_KEY@ + seq![
                '=',
            ] + self.symbol@),
    {
        symbol_query(self.symbol.as_str())
    }
}

/// Parameters for the GET /instrument endpoint.
#[derive(Clone, Debug)]
pub struct GetInstrumentParams {
    /// Instrument symbol, e.g. "GBPUSD-PERP", "EURUSD-PERP".
    pub symbol: String,
}

impl GetInstrumentParams {
    /// Creates a new [`GetInstrumentParams`] with the given symbol.
    pub fn new(symbol: &str) -> (params: Self)
        ensures
            params.symbol@ == symbol@,
    {
        Self { symbol: symbol.to_owned() }
    }

    /// Serializes the parameters into a URL query string.
    pub fn to_query_string(&self) -> (res: Result<String, ArchitectHttpError>)
        ensures
            res matches Ok(q) && q@ == urlencoded_pair(SYMBOL_KEY@, self.symbol@),
            is_form_unreserved_str(self.symbol@) ==> (res matches Ok(q) && q@ == SYMBOL_KEY@ + seq![
                '=',
            ] + self.symbol@),
    {
        symbol_query(self.symbol.as_str())
    }
}

} // verus!
