//! Instrument definitions as the Architect REST API returns them.

use vstd::prelude::*;

use crate::common::enums::ArchitectInstrumentState;

verus! {

/// Default instrument state when not provided by the API.
pub fn default_instrument_state() -> (state: ArchitectInstrumentState)
    ensures
        state == ArchitectInstrumentState::Open,
{
    ArchitectInstrumentState::Open
}

/// Individual instrument definition.
#[derive(Clone, Debug)]
pub struct ArchitectInstrument {
    /// Trading symbol for the instrument.
    pub symbol: String,
    /// Current trading state of the instrument (defaults to Open if not provided).
    pub state: ArchitectInstrumentState,
    /// Contract multiplier.
    pub multiplier: String,
    /// Minimum order size.
    pub minimum_order_size: String,
    /// Price tick size.
    pub tick_size: String,
    /// Quote currency symbol.
    pub quote_currency: String,
    /// Funding settlement currency.
    pub finding_settlement_currency: String,
    /// Maintenance margin percentage.
    pub maintenance_margin_pct: String,
    /// Initial margin percentage.
    pub initial_margin_pct: String,
    /// Current mark price for the contract (optional).
    pub contract_mark_price: Option<String>,
    /// Contract size (optional).
    pub contract_size: Option<String>,
    /// Instrument description (optional).
    pub description: Option<String>,
    /// Funding calendar schedule (optional).
    pub funding_calendar_schedule: Option<String>,
    /// Funding frequency (optional).
    pub funding_frequency: Option<String>,
    /// Lower cap for funding rate percentage (optional).
    pub funding_rate_cap_lower_pct: Option<String>,
    /// Upper cap for funding rate percentage (optional).
    pub funding_rate_cap_upper_pct: Option<String>,
    /// Lower deviation percentage for price bands (optional).
    pub price_band_lower_deviation_pct: Option<String>,
    /// Upper deviation percentage for price bands (optional).
    pub price_band_upper_deviation_pct: Option<String>,
    /// Price bands configuration (optional).
    pub price_bands: Option<String>,
    /// Price quotation format (optional).
    pub price_quotation: Option<String>,
    /// Underlying benchmark price (optional).
    pub underlying_benchmark_price: Option<String>,
}

/// Response payload returned by `GET /instruments`.
#[derive(Clone, Debug)]
pub struct ArchitectInstrumentsResponse {
    /// List of instruments.
    pub instruments: Vec<ArchitectInstrument>,
}

} // verus!
