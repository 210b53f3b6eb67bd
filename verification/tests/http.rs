use nautilus_architect::common::consts::{ARCHITECT_HTTP_URL, ARCHITECT_VENUE};
use nautilus_architect::common::decimal::Decimal;
use nautilus_architect::common::enums::{ArchitectEnvironment, ArchitectInstrumentState};
use nautilus_architect::http::client::{
    check_response_status, rate_limit_keys, retry_error, retry_settings, should_retry,
    RawHttpClientState,
};
use nautilus_architect::http::error::ArchitectHttpError;
use nautilus_architect::http::models::{default_instrument_state, ArchitectInstrument};
use nautilus_architect::http::parse::{
    get_currency, parse_decimal_field, parse_perp_instrument, parse_price, parse_quantity,
    valid_currency_code, valid_currency_codes, InstrumentField, InstrumentParseError,
};
use nautilus_architect::http::query::{GetInstrumentParams, GetTickerParams};
use nautilus_architect::python::urls::{
    py_get_architect_http_url, py_get_architect_orders_url, py_get_architect_ws_md_url,
    py_get_architect_ws_orders_url,
};

fn create_test_instrument() -> ArchitectInstrument {
    ArchitectInstrument {
        symbol: "BTC-PERP".to_string(),
        state: ArchitectInstrumentState::Open,
        multiplier: "1.0".to_string(),
        minimum_order_size: "0.001".to_string(),
        tick_size: "0.5".to_string(),
        quote_currency: "USD".to_string(),
        finding_settlement_currency: "USD".to_string(),
        maintenance_margin_pct: "0.005".to_string(),
        initial_margin_pct: "0.01".to_string(),
        contract_mark_price: Some("45000.50".to_string()),
        contract_size: Some("1.0".to_string()),
        description: Some("Bitcoin Perpetual Futures".to_string()),
        funding_calendar_schedule: Some("0,8,16".to_string()),
        funding_frequency: Some("8h".to_string()),
        funding_rate_cap_lower_pct: Some("-0.0075".to_string()),
        funding_rate_cap_upper_pct: Some("0.0075".to_string()),
        price_band_lower_deviation_pct: Some("0.05".to_string()),
        price_band_upper_deviation_pct: Some("0.05".to_string()),
        price_bands: Some("dynamic".to_string()),
        price_quotation: Some("USD".to_string()),
        underlying_benchmark_price: Some("45000.00".to_string()),
    }
}

#[test]
fn test_get_ticker_params_serialization() {
    let params = GetTickerParams::new("GBPUSD-PERP");
    let qs = params.to_query_string().unwrap();
    assert_eq!(qs, "symbol=GBPUSD-PERP");
}

#[test]
fn test_get_instrument_params_serialization() {
    let params = GetInstrumentParams::new("EURUSD-PERP");
    let qs = params.to_query_string().unwrap();
    assert_eq!(qs, "symbol=EURUSD-PERP");
}

#[test]
fn query_string_encodes_reserved_characters() {
    let params = GetTickerParams::new("A B&C");
    assert_eq!(params.to_query_string().unwrap(), "symbol=A+B%26C");
}

#[test]
fn test_parse_price() {
    let price = parse_price("100.50", InstrumentField::TickSize).unwrap();
    assert_eq!(price.raw as f64 / 1e9, 100.50);
    assert_eq!(price.raw, 100_500_000_000);
    assert_eq!(price.precision, 2);
}

#[test]
fn test_parse_quantity() {
    let qty = parse_quantity("1.5", InstrumentField::MinimumOrderSize).unwrap();
    assert_eq!(qty.raw as f64 / 1e9, 1.5);
    assert_eq!(qty.raw, 1_500_000_000);
    assert_eq!(qty.precision, 1);
}

#[test]
fn test_get_currency() {
    assert_eq!(get_currency("USD"), "USD");
    // An unknown code gets a new currency.
    assert_eq!(get_currency("NOTACOIN123"), "NOTACOIN123");
}

#[test]
fn currency_code_validity() {
    assert!(valid_currency_code("BTC"));
    assert!(valid_currency_code(" X "));
    assert!(!valid_currency_code(""));
    assert!(!valid_currency_code(" \t\n"));
    assert!(!valid_currency_code("\u{3000}\u{a0}"));
    let mut definition = create_test_instrument();
    assert!(valid_currency_codes(&definition));
    definition.symbol = "-PERP".to_string();
    assert!(!valid_currency_codes(&definition));
}

#[test]
fn parse_quantity_upper_limit() {
    let max = parse_quantity("18446744072.999999488", InstrumentField::MinimumOrderSize).unwrap();
    assert_eq!(max.raw, 18_446_744_072_999_999_488);
    assert!(matches!(
        parse_quantity("18446744072.999999489", InstrumentField::MinimumOrderSize),
        Err(InstrumentParseError::QuantityConversion { field: InstrumentField::MinimumOrderSize })
    ));
}

#[test]
fn parse_decimal_field_reports_field_and_reason() {
    match parse_decimal_field("x1", InstrumentField::InitialMarginPct) {
        Err(InstrumentParseError::InvalidDecimal { field, error }) => {
            assert_eq!(field, InstrumentField::InitialMarginPct);
            assert_eq!(error.input, "x1");
            assert!(!error.reason.is_empty());
        }
        other => panic!("unexpected {other:?}"),
    }
}

#[test]
fn parse_perp_instrument_creates_fx_currencies() {
    let mut definition = create_test_instrument();
    definition.symbol = "GBPUSD-PERP".to_string();
    let fee = Decimal::zero();
    let perp = parse_perp_instrument(&definition, fee, fee, 1, 2).unwrap();
    assert_eq!(perp.base_currency, "GBPUSD");
    assert_eq!(perp.quote_currency, "USD");
    assert_eq!(perp.price_increment.raw, 500_000_000);
    assert_eq!((perp.ts_event, perp.ts_init), (1, 2));
}

#[test]
fn parse_perp_instrument_rejects_non_positive_increments() {
    let fee = Decimal::zero();
    for tick in ["0", "-0.5"] {
        let mut definition = create_test_instrument();
        definition.tick_size = tick.to_string();
        assert!(matches!(
            parse_perp_instrument(&definition, fee, fee, 0, 0),
            Err(InstrumentParseError::NonPositiveIncrement { field: InstrumentField::TickSize })
        ));
    }
    let mut definition = create_test_instrument();
    definition.minimum_order_size = "0".to_string();
    assert!(matches!(
        parse_perp_instrument(&definition, fee, fee, 0, 0),
        Err(InstrumentParseError::NonPositiveIncrement {
            field: InstrumentField::MinimumOrderSize
        })
    ));
}

#[test]
fn test_parse_perp_instrument() {
    let definition = create_test_instrument();
    let maker_fee = Decimal::new(2, 4);
    let taker_fee = Decimal::new(5, 4);

    let perp = parse_perp_instrument(&definition, maker_fee, taker_fee, 7, 8).unwrap();
    assert_eq!(perp.symbol, "BTC-PERP");
    assert_eq!(perp.venue, ARCHITECT_VENUE);
    assert_eq!(perp.base_currency, "BTC");
    assert_eq!(perp.quote_currency, "USD");
    assert_eq!(perp.settlement_currency, "USD");
    assert!(!perp.is_inverse);
    assert_eq!(perp.price_increment.raw, 500_000_000);
    assert_eq!(perp.price_precision, 1);
    assert_eq!(perp.size_increment.raw, 1_000_000);
    assert_eq!(perp.size_precision, 3);
    assert_eq!(perp.lot_size, Some(perp.size_increment));
    assert_eq!(perp.min_quantity, Some(perp.size_increment));
    assert_eq!((perp.margin_init.mantissa(), perp.margin_init.scale()), (1, 2));
    assert_eq!((perp.margin_maint.mantissa(), perp.margin_maint.scale()), (5, 3));
    assert_eq!((perp.maker_fee.mantissa(), perp.maker_fee.scale()), (2, 4));
    assert_eq!((perp.taker_fee.mantissa(), perp.taker_fee.scale()), (5, 4));
    assert_eq!((perp.ts_event, perp.ts_init), (7, 8));
}

#[test]
fn parse_perp_instrument_rejects_invalid_tick_size() {
    let mut definition = create_test_instrument();
    definition.tick_size = "abc".to_string();
    let err = parse_perp_instrument(&definition, Decimal::zero(), Decimal::zero(), 0, 0)
        .unwrap_err();
    match err {
        InstrumentParseError::InvalidDecimal { field, error } => {
            assert_eq!(field, InstrumentField::TickSize);
            assert_eq!(error.input, "abc");
        }
        other => panic!("unexpected error {other:?}"),
    }
}

#[test]
fn parse_perp_instrument_rejects_too_precise_tick_size() {
    let mut definition = create_test_instrument();
    definition.tick_size = "0.0000000001".to_string();
    let err = parse_perp_instrument(&definition, Decimal::zero(), Decimal::zero(), 0, 0)
        .unwrap_err();
    assert!(matches!(
        err,
        InstrumentParseError::PriceConversion { field: InstrumentField::TickSize }
    ));
}

#[test]
fn parse_perp_instrument_rejects_negative_size() {
    let mut definition = create_test_instrument();
    definition.minimum_order_size = "-1".to_string();
    let err = parse_perp_instrument(&definition, Decimal::zero(), Decimal::zero(), 0, 0)
        .unwrap_err();
    assert!(matches!(
        err,
        InstrumentParseError::QuantityConversion { field: InstrumentField::MinimumOrderSize }
    ));
}

#[test]
fn parse_perp_instrument_rejects_invalid_margin() {
    let mut definition = create_test_instrument();
    definition.maintenance_margin_pct = "".to_string();
    let err = parse_perp_instrument(&definition, Decimal::zero(), Decimal::zero(), 0, 0)
        .unwrap_err();
    assert!(matches!(
        err,
        InstrumentParseError::InvalidDecimal { field: InstrumentField::MaintenanceMarginPct, .. }
    ));
}

#[test]
fn parse_perp_instrument_accepts_unknown_currency() {
    let mut definition = create_test_instrument();
    definition.symbol = "NOTACOIN123-PERP".to_string();
    let perp = parse_perp_instrument(&definition, Decimal::zero(), Decimal::zero(), 0, 0).unwrap();
    assert_eq!(perp.base_currency, "NOTACOIN123");
}

#[test]
fn test_default_instrument_state() {
    assert_eq!(default_instrument_state(), ArchitectInstrumentState::Open);
}

#[test]
fn rate_limit_keys_strip_query() {
    assert_eq!(
        rate_limit_keys("/ticker?symbol=BTC-PERP"),
        vec!["architect:global".to_string(), "architect:/ticker".to_string()]
    );
    assert_eq!(
        rate_limit_keys("/instruments"),
        vec!["architect:global".to_string(), "architect:/instruments".to_string()]
    );
}

#[test]
fn client_state_defaults() {
    let state = RawHttpClientState::new(None, Some(60), None, None, None, None);
    assert_eq!(state.base_url(), ARCHITECT_HTTP_URL);
    assert_eq!(state.timeout_secs(), Some(60));
    assert_eq!(state.proxy_url(), None);
    let retry = state.retry();
    assert_eq!(retry.max_retries, 3);
    assert_eq!(retry.initial_delay_ms, 1000);
    assert_eq!(retry.max_delay_ms, 10_000);
    assert_eq!(retry.jitter_ms, 1000);
    assert_eq!(retry.operation_timeout_ms, Some(60_000));
    assert!(!retry.immediate_first);
    assert_eq!(retry.max_elapsed_ms, Some(180_000));
    assert!(!state.has_credentials());
    assert!(!state.has_session_token());
}

#[test]
fn retry_settings_use_given_values() {
    let r = retry_settings(Some(5), Some(250), None);
    assert_eq!((r.max_retries, r.initial_delay_ms, r.max_delay_ms), (5, 250, 10_000));
}

#[test]
fn auth_headers_require_credentials_and_token() {
    let state = RawHttpClientState::new(None, None, None, None, None, None);
    assert!(matches!(state.auth_headers(), Err(ArchitectHttpError::MissingCredentials)));

    let mut state = RawHttpClientState::with_credentials(
        "key".to_string(),
        "secret".to_string(),
        Some("http://localhost:8080".to_string()),
        None,
        None,
        None,
        None,
        Some("http://proxy".to_string()),
    );
    assert_eq!(state.base_url(), "http://localhost:8080");
    assert_eq!(state.proxy_url(), Some("http://proxy"));
    match state.auth_headers() {
        Err(ArchitectHttpError::ValidationError(msg)) => assert_eq!(msg, "Session token not set"),
        other => panic!("unexpected {other:?}"),
    }

    state.set_session_token("tok123".to_string());
    assert!(state.has_session_token());
    assert_eq!(
        state.auth_headers().unwrap(),
        vec![("Authorization".to_string(), "Bearer tok123".to_string())]
    );
}

#[test]
fn request_headers_follow_authenticate() {
    let state = RawHttpClientState::new(None, None, None, None, None, None);
    let plain = state.request_headers(false).unwrap();
    assert_eq!(plain.len(), 1);
    assert_eq!(plain[0].0, "user-agent");
    assert_eq!(plain[0].1, nautilus_core::consts::NAUTILUS_USER_AGENT);
    assert!(matches!(state.request_headers(true), Err(ArchitectHttpError::MissingCredentials)));

    let mut state = RawHttpClientState::with_credentials(
        "key".to_string(),
        "secret".to_string(),
        None,
        None,
        None,
        None,
        None,
        None,
    );
    assert!(matches!(state.request_headers(true), Err(ArchitectHttpError::ValidationError(_))));
    assert_eq!(state.request_headers(false).unwrap().len(), 1);
    state.set_session_token("tok".to_string());
    let auth = state.request_headers(true).unwrap();
    assert_eq!(auth.len(), 2);
    assert_eq!(auth[0].0, "user-agent");
    assert_eq!(auth[1], ("Authorization".to_string(), "Bearer tok".to_string()));
}

#[test]
fn request_url_appends_non_empty_query() {
    let state = RawHttpClientState::new(Some("https://h/api".to_string()), None, None, None, None, None);
    assert_eq!(state.request_url("/ticker", Some("symbol=X")), "https://h/api/ticker?symbol=X");
    assert_eq!(state.request_url("/ticker", Some("")), "https://h/api/ticker");
    assert_eq!(state.request_url("/tickers", None), "https://h/api/tickers");
}

#[test]
fn response_status_classification() {
    assert_eq!(check_response_status(200, "ok".to_string()).unwrap(), "ok");
    assert_eq!(check_response_status(299, "ok".to_string()).unwrap(), "ok");
    match check_response_status(404, "missing".to_string()) {
        Err(ArchitectHttpError::UnexpectedStatus { status, body }) => {
            assert_eq!(status, 404);
            assert_eq!(body, "missing");
        }
        other => panic!("unexpected {other:?}"),
    }
    assert!(check_response_status(199, String::new()).is_err());
    assert!(check_response_status(300, String::new()).is_err());
}

#[test]
fn retry_errors() {
    match retry_error("canceled".to_string()) {
        ArchitectHttpError::Canceled(reason) => {
            assert_eq!(reason, "Adapter disconnecting or shutting down")
        }
        other => panic!("unexpected {other:?}"),
    }
    match retry_error("timeout".to_string()) {
        ArchitectHttpError::NetworkError(msg) => assert_eq!(msg, "timeout"),
        other => panic!("unexpected {other:?}"),
    }
    assert!(!should_retry(&ArchitectHttpError::MissingCredentials));
}

#[test]
fn environment_urls() {
    assert_eq!(
        py_get_architect_http_url(ArchitectEnvironment::Sandbox),
        "https://sandbox.x.architect.co/api"
    );
    assert_eq!(
        py_get_architect_http_url(ArchitectEnvironment::Production),
        "https://x.architect.co/api"
    );
    assert_eq!(
        py_get_architect_ws_md_url(ArchitectEnvironment::Sandbox),
        "wss://sandbox.x.architect.co/md/ws"
    );
    assert_eq!(
        py_get_architect_ws_orders_url(ArchitectEnvironment::Production),
        "wss://x.architect.co/orders/ws"
    );
    assert_eq!(
        py_get_architect_orders_url(ArchitectEnvironment::Sandbox),
        ArchitectEnvironment::Sandbox.orders_url()
    );
}
