//! Conversion of Architect instrument definitions into perpetual instrument
//! definitions in Nautilus terms.

use vstd::prelude::*;

use crate::common::consts::ARCHITECT_VENUE;
use crate::common::decimal::{decimal_str_value, Decimal};
use crate::common::fixed::{
    fixed_raw, nautilus_price_from_decimal, nautilus_quantity_from_decimal, PriceValue,
    QuantityValue, FIXED_PRECISION, PRICE_RAW_MAX, QUANTITY_RAW_MAX,
};
use crate::common::parse::{is_parse_error_of, parse_decimal, DecimalParseError};
use crate::common::text::{first_segment, first_segment_of};
use crate::http::models::ArchitectInstrument;

verus! {

/// Separator between the base currency code and the product suffix of a
/// perpetual symbol (`{BASE}-PERP`).
pub const SYMBOL_SEPARATOR: char = '-';

/// A linear perpetual futures instrument, with the values a Nautilus
/// `CryptoPerpetual` is built from.
#[derive(Clone, Debug)]
pub struct ArchitectPerpInstrument {
    /// Raw venue symbol, e.g. "BTC-PERP" (also the instrument ID's symbol).
    pub symbol: String,
    /// Venue of the instrument ID.
    pub venue: String,
    /// Base currency code.
    pub base_currency: String,
    /// Quote currency code.
    pub quote_currency: String,
    /// Settlement currency code.
    pub settlement_currency: String,
    /// Whether the contract is inverse (always false: Architect perps are linear).
    pub is_inverse: bool,
    /// Price precision.
    pub price_precision: u8,
    /// Size precision.
    pub size_precision: u8,
    /// Minimum price increment (tick size).
    pub price_increment: PriceValue,
    /// Minimum size increment.
    pub size_increment: QuantityValue,
    /// Lot size.
    pub lot_size: Option<QuantityValue>,
    /// Minimum order quantity.
    pub min_quantity: Option<QuantityValue>,
    /// Initial margin rate.
    pub margin_init: Decimal,
    /// Maintenance margin rate.
    pub margin_maint: Decimal,
    /// Maker fee rate.
    pub maker_fee: Decimal,
    /// Taker fee rate.
    pub taker_fee: Decimal,
    /// UNIX timestamp (nanoseconds) when the definition was published.
    pub ts_event: u64,
    /// UNIX timestamp (nanoseconds) when the definition was created.
    pub ts_init: u64,
}

/// A field of an instrument definition that holds a number.
#[derive(Clone, Copy, Debug, PartialEq, Eq, Structural)]
pub enum InstrumentField {
    /// `tick_size`.
    TickSize,
    /// `minimum_order_size`.
    MinimumOrderSize,
    /// `initial_margin_pct`.
    InitialMarginPct,
    /// `maintenance_margin_pct`.
    MaintenanceMarginPct,
}

/// Why an instrument definition could not be converted.
#[derive(Clone, Debug)]
pub enum InstrumentParseError {
    /// A numeric field is not a decimal number.
    InvalidDecimal {
        /// The field.
        field: InstrumentField,
        /// The decimal parse error.
        error: DecimalParseError,
    },
    /// The decimal does not fit a price.
    PriceConversion {
        /// The field.
        field: InstrumentField,
    },
    /// The decimal does not fit a quantity.
    QuantityConversion {
        /// The field.
        field: InstrumentField,
    },
    /// An increment (tick size or size increment) is not positive.
    NonPositiveIncrement {
        /// The field.
        field: InstrumentField,
    },
}

/// Whether the string parses to a decimal that converts to a price.
pub open spec fn is_price_field(s: Seq<char>) -> bool {
    decimal_str_value(s) matches Some(d) && d.1 <= FIXED_PRECISION && -PRICE_RAW_MAX
        <= fixed_raw(d) <= PRICE_RAW_MAX
}

/// Whether the string parses to a decimal that converts to a quantity.
pub open spec fn is_quantity_field(s: Seq<char>) -> bool {
    decimal_str_value(s) matches Some(d) && d.0 >= 0 && d.1 <= FIXED_PRECISION && fixed_raw(d)
        <= QUANTITY_RAW_MAX
}

/// Whether a Unicode character has the White_Space property (what
/// `char::is_whitespace` tests).
pub open spec fn is_unicode_whitespace(c: char) -> bool {
    ||| ('\u{9}' <= c && c <= '\u{d}')
    ||| c == ' '
    ||| c == '\u{85}'
    ||| c == '\u{a0}'
    ||| c == '\u{1680}'
    ||| ('\u{2000}' <= c && c <= '\u{200a}')
    ||| c == '\u{2028}'
    ||| c == '\u{2029}'
    ||| c == '\u{202f}'
    ||| c == '\u{205f}'
    ||| c == '\u{3000}'
}

/// Whether a string can be a currency code: it has a character that is not
/// whitespace (so it is not empty either).
pub open spec fn is_valid_currency_code(s: Seq<char>) -> bool {
    exists|i: int| 0 <= i < s.len() && !is_unicode_whitespace(#[trigger] s[i])
}

/// Tests whether a string can be a currency code.
pub fn valid_currency_code(code: &str) -> (b: bool)
    ensures
        b == is_valid_currency_code(code@),
{
    let n = code.unicode_len();
    let mut i: usize = 0;
    while i < n
        invariant
            n == code@.len(),
            i <= n,
            forall|j: int| 0 <= j < i ==> is_unicode_whitespace(#[trigger] code@[j]),
        decreases n - i,
    {
        let c = code.get_char(i);
        let white = ('\u{9}' <= c && c <= '\u{d}') || c == ' ' || c == '\u{85}' || c == '\u{a0}'
            || c == '\u{1680}' || ('\u{2000}' <= c && c <= '\u{200a}') || c == '\u{2028}' || c
            == '\u{2029}' || c == '\u{202f}' || c == '\u{205f}' || c == '\u{3000}';
        if !white {
            assert(!is_unicode_whitespace(code@[i as int]));
            return true;
        }
        i = i + 1;
    }
    false
}

/// Calls `nautilus_model::types::Currency::get_or_create_crypto` and gives
/// the currency's code.
///
/// Trusted, as its source (0.55) shows: the currency registered under the
/// code is returned, or else a new crypto currency with that code is created
/// and registered; its code is the argument. It panics only where a new
/// currency cannot be made, an empty or all-whitespace code, which
/// `requires` leaves out.
#[verifier::external_body]
fn currency_get_or_create(code: &str) -> (c: String)
    requires
        is_valid_currency_code(code@),
    ensures
        c@ == code@,
{
    nautilus_model::types::Currency::get_or_create_crypto(code).code.to_string()
}

/// Gets or creates the currency with the given code, and gives its code.
pub fn get_currency(code: &str) -> (c: String)
    requires
        is_valid_currency_code(code@),
    ensures
        c@ == code@,
{
    currency_get_or_create(code)
}

/// Parses a price from a string field.
pub fn parse_price(value: &str, field: InstrumentField) -> (res: Result<PriceValue, InstrumentParseError>)
    ensures
        res is Ok <==> is_price_field(value@),
        res matches Ok(p) ==> decimal_str_value(value@) matches Some(d) && p.raw == fixed_raw(d)
            && p.precision == d.1,
        res matches Err(e) ==> {
            ||| e matches InstrumentParseError::InvalidDecimal { field: f, error } && f == field
                && decimal_str_value(value@) is None && is_parse_error_of(error, value@)
            ||| e matches InstrumentParseError::PriceConversion { field: f } && f == field
                && decimal_str_value(value@) is Some
        },
{
    let decimal = match parse_decimal(value) {
        Ok(d) => d,
        Err(error) => {
            return Err(InstrumentParseError::InvalidDecimal { field, error });
        },
    };
    match nautilus_price_from_decimal(&decimal) {
        Some(p) => Ok(p),
        None => Err(InstrumentParseError::PriceConversion { field }),
    }
}

/// Parses a quantity from a string field.
pub fn parse_quantity(value: &str, field: InstrumentField) -> (res: Result<QuantityValue, InstrumentParseError>)
    ensures
        res is Ok <==> is_quantity_field(value@),
        res matches Ok(q) ==> decimal_str_value(value@) matches Some(d) && q.raw == fixed_raw(d)
            && q.precision == d.1,
        res matches Err(e) ==> {
            ||| e matches InstrumentParseError::InvalidDecimal { field: f, error } && f == field
                && decimal_str_value(value@) is None && is_parse_error_of(error, value@)
            ||| e matches InstrumentParseError::QuantityConversion { field: f } && f == field
                && decimal_str_value(value@) is Some
        },
{
    let decimal = match parse_decimal(value) {
        Ok(d) => d,
        Err(error) => {
            return Err(InstrumentParseError::InvalidDecimal { field, error });
        },
    };
    match nautilus_quantity_from_decimal(&decimal) {
        Some(q) => Ok(q),
        None => Err(InstrumentParseError::QuantityConversion { field }),
    }
}

/// Parses a decimal from a string field.
pub fn parse_decimal_field(value: &str, field: InstrumentField) -> (res: Result<Decimal, InstrumentParseError>)
    ensures
        res is Ok <==> decimal_str_value(value@) is Some,
        res matches Ok(d) ==> decimal_str_value(value@) == Some(d@),
        res matches Err(e) ==> e matches InstrumentParseError::InvalidDecimal { field: f, error } && f
            == field && is_parse_error_of(error, value@),
{
    match parse_decimal(value) {
        Ok(d) => Ok(d),
        Err(error) => Err(InstrumentParseError::InvalidDecimal { field, error }),
    }
}

/// The decimal value of the tick size, when it converts to a price.
pub open spec fn tick_value(definition: ArchitectInstrument) -> (int, nat) {
    decimal_str_value(definition.tick_size@)->0
}

/// The decimal value of the minimum order size, when it converts to a
/// quantity.
pub open spec fn size_value(definition: ArchitectInstrument) -> (int, nat) {
    decimal_str_value(definition.minimum_order_size@)->0
}

/// Whether every numeric field of the definition converts: the tick size
/// to a price, the minimum order size to a quantity, and both margins to
/// decimals.
pub open spec fn numeric_fields_convert(definition: ArchitectInstrument) -> bool {
    &&& is_price_field(definition.tick_size@)
    &&& is_quantity_field(definition.minimum_order_size@)
    &&& decimal_str_value(definition.initial_margin_pct@) is Some
    &&& decimal_str_value(definition.maintenance_margin_pct@) is Some
}

/// Whether the currency codes of a definition can be currency codes: the
/// base code (the symbol before the first `-`) and the quote code.
pub open spec fn has_valid_currency_codes(definition: ArchitectInstrument) -> bool {
    &&& is_valid_currency_code(first_segment(definition.symbol@, SYMBOL_SEPARATOR))
    &&& is_valid_currency_code(definition.quote_currency@)
}

/// Tests whether the currency codes of a definition can be currency codes.
pub fn valid_currency_codes(definition: &ArchitectInstrument) -> (b: bool)
    ensures
        b == has_valid_currency_codes(*definition),
{
    valid_currency_code(first_segment_of(definition.symbol.as_str(), SYMBOL_SEPARATOR))
        && valid_currency_code(definition.quote_currency.as_str())
}

/// The instrument built from a definition.
pub open spec fn is_perp_instrument_of(
    inst: ArchitectPerpInstrument,
    definition: ArchitectInstrument,
    maker_fee: Decimal,
    taker_fee: Decimal,
    ts_event: u64,
    ts_init: u64,
) -> bool {
    &&& inst.symbol@ == definition.symbol@
    &&& inst.venue@ == ARCHITECT_VENUE@
    &&& inst.base_currency@ == first_segment(definition.symbol@, SYMBOL_SEPARATOR)
    &&& inst.quote_currency@ == definition.quote_currency@
    &&& inst.settlement_currency@ == definition.quote_currency@
    &&& !inst.is_inverse
    &&& numeric_fields_convert(definition)
    &&& inst.price_increment.raw == fixed_raw(tick_value(definition))
    &&& inst.price_increment.precision == tick_value(definition).1
    &&& inst.price_increment.raw > 0
    &&& inst.size_increment.raw == fixed_raw(size_value(definition))
    &&& inst.size_increment.precision == size_value(definition).1
    &&& inst.size_increment.raw > 0
    &&& inst.price_precision == inst.price_increment.precision
    &&& inst.size_precision == inst.size_increment.precision
    &&& inst.lot_size == Some(inst.size_increment)
    &&& inst.min_quantity == Some(inst.size_increment)
    &&& decimal_str_value(definition.initial_margin_pct@) == Some(inst.margin_init@)
    &&& decimal_str_value(definition.maintenance_margin_pct@) == Some(inst.margin_maint@)
    &&& inst.maker_fee@ == maker_fee@
    &&& inst.taker_fee@ == taker_fee@
    &&& inst.ts_event == ts_event
    &&& inst.ts_init == ts_init
}

/// What converting a definition gives.
///
/// The checks come in this order: tick size (decimal, then price), minimum
/// order size (decimal, then quantity), initial margin, maintenance margin,
/// then a positive tick size and a positive size increment. The first
/// failing check gives the error; where none fails, the result is the
/// instrument.
pub open spec fn perp_instrument_outcome(
    definition: ArchitectInstrument,
    maker_fee: Decimal,
    taker_fee: Decimal,
    ts_event: u64,
    ts_init: u64,
    res: Result<ArchitectPerpInstrument, InstrumentParseError>,
) -> bool {
    let tick = definition.tick_size@;
    let size = definition.minimum_order_size@;
    let init = definition.initial_margin_pct@;
    let maint = definition.maintenance_margin_pct@;
    if decimal_str_value(tick) is None {
        res matches Err(InstrumentParseError::InvalidDecimal { field, error }) && field
            == InstrumentField::TickSize && is_parse_error_of(error, tick)
    } else if !is_price_field(tick) {
        res matches Err(InstrumentParseError::PriceConversion { field }) && field
            == InstrumentField::TickSize
    } else if decimal_str_value(size) is None {
        res matches Err(InstrumentParseError::InvalidDecimal { field, error }) && field
            == InstrumentField::MinimumOrderSize && is_parse_error_of(error, size)
    } else if !is_quantity_field(size) {
        res matches Err(InstrumentParseError::QuantityConversion { field }) && field
            == InstrumentField::MinimumOrderSize
    } else if decimal_str_value(init) is None {
        res matches Err(InstrumentParseError::InvalidDecimal { field, error }) && field
            == InstrumentField::InitialMarginPct && is_parse_error_of(error, init)
    } else if decimal_str_value(maint) is None {
        res matches Err(InstrumentParseError::InvalidDecimal { field, error }) && field
            == InstrumentField::MaintenanceMarginPct && is_parse_error_of(error, maint)
    } else if fixed_raw(tick_value(definition)) <= 0 {
        res matches Err(InstrumentParseError::NonPositiveIncrement { field }) && field
            == InstrumentField::TickSize
    } else if fixed_raw(size_value(definition)) == 0 {
        res matches Err(InstrumentParseError::NonPositiveIncrement { field }) && field
            == InstrumentField::MinimumOrderSize
    } else {
        res matches Ok(inst) && is_perp_instrument_of(
            inst,
            definition,
            maker_fee,
            taker_fee,
            ts_event,
            ts_init,
        )
    }
}

/// Law: a converted instrument keeps the definition's symbol, takes its base
/// currency from the symbol (the part before the first `-`), and is quoted
/// and settled in the definition's quote currency, as a linear contract.
pub proof fn law_perp_instrument_identity(
    definition: ArchitectInstrument,
    maker_fee: Decimal,
    taker_fee: Decimal,
    ts_event: u64,
    ts_init: u64,
    res: Result<ArchitectPerpInstrument, InstrumentParseError>,
)
    requires
        perp_instrument_outcome(definition, maker_fee, taker_fee, ts_event, ts_init, res),
    ensures
        res matches Ok(inst) ==> {
            &&& inst.symbol@ == definition.symbol@
            &&& inst.base_currency@ == first_segment(definition.symbol@, SYMBOL_SEPARATOR)
            &&& inst.quote_currency@ == definition.quote_currency@
            &&& inst.settlement_currency@ == definition.quote_currency@
            &&& inst.settlement_currency@ == inst.quote_currency@
            &&& !inst.is_inverse
            &&& inst.maker_fee@ == maker_fee@
            &&& inst.taker_fee@ == taker_fee@
            &&& inst.ts_event == ts_event
            &&& inst.ts_init == ts_init
        },
{
}

/// Law: a definition whose tick size converts to a positive price, whose
/// minimum order size converts to a positive quantity and whose margins are
/// decimals converts successfully, with the tick size as price increment,
/// the minimum order size as size increment, lot size and minimum quantity,
/// and the parsed margins.
pub proof fn law_perp_instrument_succeeds(
    definition: ArchitectInstrument,
    maker_fee: Decimal,
    taker_fee: Decimal,
    ts_event: u64,
    ts_init: u64,
    res: Result<ArchitectPerpInstrument, InstrumentParseError>,
)
    requires
        perp_instrument_outcome(definition, maker_fee, taker_fee, ts_event, ts_init, res),
        decimal_str_value(definition.tick_size@) matches Some(t) && t.1 <= 9 && 0 < fixed_raw(t)
            <= PRICE_RAW_MAX,
        decimal_str_value(definition.minimum_order_size@) matches Some(q) && q.0 >= 0 && q.1 <= 9
            && 0 < fixed_raw(q) <= QUANTITY_RAW_MAX,
        decimal_str_value(definition.initial_margin_pct@) is Some,
        decimal_str_value(definition.maintenance_margin_pct@) is Some,
    ensures
        res matches Ok(inst) && {
            &&& inst.price_increment.precision == (decimal_str_value(definition.tick_size@)->0).1
            &&& inst.price_increment.raw == fixed_raw(decimal_str_value(definition.tick_size@)->0)
            &&& inst.size_increment.raw == fixed_raw(decimal_str_value(definition.minimum_order_size@)->0)
            &&& inst.size_increment.precision == (decimal_str_value(definition.minimum_order_size@)->0).1
            &&& inst.lot_size == Some(inst.size_increment)
            &&& inst.min_quantity == Some(inst.size_increment)
            &&& decimal_str_value(definition.initial_margin_pct@) == Some(inst.margin_init@)
            &&& decimal_str_value(definition.maintenance_margin_pct@) == Some(inst.margin_maint@)
        },
{
}

/// Parses an Architect perpetual futures definition into a linear perpetual
/// instrument (see [`perp_instrument_outcome`]).
///
/// The base currency is the part of the symbol before the first `-`; it and
/// the quote currency are looked up, and created as crypto currencies where
/// they are not known yet. The quote currency is also the settlement
/// currency; the minimum order size is the size increment, the lot size and
/// the minimum quantity.
pub fn parse_perp_instrument(
    definition: &ArchitectInstrument,
    maker_fee: Decimal,
    taker_fee: Decimal,
    ts_event: u64,
    ts_init: u64,
) -> (res: Result<ArchitectPerpInstrument, InstrumentParseError>)
    requires
        has_valid_currency_codes(*definition),
    ensures
        perp_instrument_outcome(*definition, maker_fee, taker_fee, ts_event, ts_init, res),
        res matches Ok(inst) ==> {
            &&& inst.symbol@ == definition.symbol@
            &&& inst.base_currency@ == first_segment(definition.symbol@, SYMBOL_SEPARATOR)
            &&& inst.quote_currency@ == definition.quote_currency@
            &&& inst.settlement_currency@ == definition.quote_currency@
            &&& !inst.is_inverse
        },
{
    let raw_symbol = definition.symbol.as_str();
    let base_code = first_segment_of(raw_symbol, SYMBOL_SEPARATOR);
    let base_currency = get_currency(base_code);
    let quote_currency = get_currency(definition.quote_currency.as_str());
    let settlement_currency = quote_currency.clone();

    let price_increment = parse_price(definition.tick_size.as_str(), InstrumentField::TickSize)?;
    let size_increment = parse_quantity(
        definition.minimum_order_size.as_str(),
        InstrumentField::MinimumOrderSize,
    )?;

    let margin_init = parse_decimal_field(
        definition.initial_margin_pct.as_str(),
        InstrumentField::InitialMarginPct,
    )?;
    let margin_maint = parse_decimal_field(
        definition.maintenance_margin_pct.as_str(),
        InstrumentField::MaintenanceMarginPct,
    )?;

    if price_increment.raw <= 0 {
        return Err(InstrumentParseError::NonPositiveIncrement { field: InstrumentField::TickSize });
    }
    if size_increment.raw == 0 {
        return Err(
            InstrumentParseError::NonPositiveIncrement { field: InstrumentField::MinimumOrderSize },
        );
    }

    let venue = ARCHITECT_VENUE.to_owned();
    Ok(ArchitectPerpInstrument {
        symbol: raw_symbol.to_owned(),
        venue,
        base_currency,
        quote_currency,
        settlement_currency,
        is_inverse: false,
        price_precision: price_increment.precision,
        size_precision: size_increment.precision,
        price_increment,
        size_increment,
        lot_size: Some(size_increment),
        min_quantity: Some(size_increment),
        margin_init,
        margin_maint,
        maker_fee,
        taker_fee,
        ts_event,
        ts_init,
    })
}

} // verus!
