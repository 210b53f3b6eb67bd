use nautilus_architect::common::decimal::Decimal;
use nautilus_architect::common::enums::{
    ArchitectCandleWidth, ArchitectMarketDataLevel, ArchitectOrderSide, ArchitectTimeInForce,
};
use nautilus_architect::common::fixed::{PriceValue, QuantityValue};
use nautilus_architect::common::text::{first_segment_of, same_text};
use nautilus_architect::http::parse::ArchitectPerpInstrument;
use nautilus_architect::websocket::data::handler::{
    self as md, FeedHandler as MdFeedHandler, HandlerAction as MdAction,
    HandlerCommand as MdCommand, MdRequest,
};
use nautilus_architect::websocket::error::ArchitectWsErrorResponse;
use nautilus_architect::websocket::frames::{inspect_text_frame, RawAction, RawMessage, TextFrame};
use nautilus_architect::websocket::messages::{
    ArchitectMdWsMessage, ArchitectOrdersWsMessage, ArchitectWsError, ArchitectWsPlaceOrder,
    OrderMetadata,
};
use nautilus_architect::websocket::orders::handler::{
    self as orders, FeedHandler as OrdersFeedHandler, HandlerAction as OrdersAction,
    HandlerCommand as OrdersCommand,
};

fn instrument(symbol: &str, tick_raw: i64) -> ArchitectPerpInstrument {
    let size = QuantityValue { raw: 1_000_000, precision: 3 };
    ArchitectPerpInstrument {
        symbol: symbol.to_string(),
        venue: "ARCHITECT".to_string(),
        base_currency: "BTC".to_string(),
        quote_currency: "USD".to_string(),
        settlement_currency: "USD".to_string(),
        is_inverse: false,
        price_precision: 1,
        size_precision: 3,
        price_increment: PriceValue { raw: tick_raw, precision: 1 },
        size_increment: size,
        lot_size: Some(size),
        min_quantity: Some(size),
        margin_init: Decimal::new(1, 2),
        margin_maint: Decimal::new(5, 3),
        maker_fee: Decimal::zero(),
        taker_fee: Decimal::zero(),
        ts_event: 0,
        ts_init: 0,
    }
}

fn place_order(rid: i64) -> ArchitectWsPlaceOrder {
    ArchitectWsPlaceOrder {
        rid,
        t: "p".to_string(),
        s: "BTCUSD-PERP".to_string(),
        d: ArchitectOrderSide::Buy,
        q: 100,
        p: "50000.50".to_string(),
        tif: ArchitectTimeInForce::Gtc,
        po: false,
        tag: Some("trade001".to_string()),
    }
}

fn metadata() -> OrderMetadata {
    OrderMetadata { client_order_id: "O-1".to_string(), symbol: "BTCUSD-PERP".to_string() }
}

fn text(s: &str) -> RawMessage {
    RawMessage::Text(s.to_string())
}

#[test]
fn ws_error_constructors() {
    let e = ArchitectWsError::new("boom".to_string());
    assert_eq!(e.code, None);
    assert_eq!(e.message, "boom");
    assert_eq!(e.request_id, None);

    let e = ArchitectWsError::with_code("E1".to_string(), "bad".to_string());
    assert_eq!(e.code, Some("E1".to_string()));
    assert_eq!(e.message, "bad");
    assert_eq!(e.request_id, None);
}

#[test]
fn ws_error_from_response() {
    let e = ArchitectWsError::from_response(ArchitectWsErrorResponse {
        code: Some("E2".to_string()),
        message: None,
        rid: Some(9),
    });
    assert_eq!(e.code, Some("E2".to_string()));
    assert_eq!(e.message, "Unknown error");
    assert_eq!(e.request_id, Some(9));

    let e = ArchitectWsError::from_response(ArchitectWsErrorResponse {
        code: None,
        message: Some("rate limited".to_string()),
        rid: None,
    });
    assert_eq!(e.message, "rate limited");
}

#[test]
fn text_helpers() {
    assert_eq!(first_segment_of("BTC-PERP", '-'), "BTC");
    assert_eq!(first_segment_of("BTC", '-'), "BTC");
    assert_eq!(first_segment_of("-PERP", '-'), "");
    assert_eq!(first_segment_of("/a?b?c", '?'), "/a");
    assert!(same_text("abc", "abc"));
    assert!(!same_text("abc", "abd"));
    assert!(!same_text("abc", "ab"));
}

#[test]
fn inspect_frames() {
    assert!(matches!(inspect_text_frame("__RECONNECTED__"), TextFrame::Reconnected));
    assert!(matches!(inspect_text_frame("not json"), TextFrame::NotObject));
    assert!(matches!(inspect_text_frame("[1,2]"), TextFrame::NotObject));
    match inspect_text_frame(r#"{"t":"h","ts":1,"tn":2}"#) {
        TextFrame::Object { msg_type, has_rid } => {
            assert_eq!(msg_type, Some("h".to_string()));
            assert!(!has_rid);
        }
        other => panic!("unexpected {other:?}"),
    }
    match inspect_text_frame(r#"{"t":1,"x":"y"}"#) {
        TextFrame::Object { msg_type, has_rid } => {
            assert_eq!(msg_type, None);
            assert!(!has_rid);
        }
        other => panic!("unexpected {other:?}"),
    }
    match inspect_text_frame(r#"{"rid":3,"res":{"oid":"O-1"}}"#) {
        TextFrame::Object { msg_type, has_rid } => {
            assert_eq!(msg_type, None);
            assert!(has_rid);
        }
        other => panic!("unexpected {other:?}"),
    }
}

#[test]
fn md_classification() {
    for t in ["h", "s", "c", "1", "2", "3"] {
        assert!(md::classify_message_type(t).is_none());
    }
    let msgs = md::classify_message_type("zz").unwrap();
    assert_eq!(msgs.len(), 1);
    match &msgs[0] {
        ArchitectMdWsMessage::Error(e) => assert_eq!(e.message, "Unknown message type: zz"),
        other => panic!("unexpected {other:?}"),
    }
}

#[test]
fn md_handler_commands_need_a_client() {
    let mut h = MdFeedHandler::new();
    let action = h.handle_command(MdCommand::Subscribe {
        request_id: 2,
        symbol: "BTCUSD-PERP".to_string(),
        level: ArchitectMarketDataLevel::Level2,
    });
    assert!(matches!(action, MdAction::Nothing));
    assert!(matches!(h.handle_command(MdCommand::Disconnect), MdAction::Nothing));

    assert!(matches!(h.handle_command(MdCommand::SetClient), MdAction::Nothing));
    match h.handle_command(MdCommand::Subscribe {
        request_id: 2,
        symbol: "BTCUSD-PERP".to_string(),
        level: ArchitectMarketDataLevel::Level2,
    }) {
        MdAction::Send(MdRequest::Subscribe(m)) => {
            assert_eq!(m.request_id, 2);
            assert_eq!(m.msg_type, "subscribe");
            assert_eq!(m.symbol, "BTCUSD-PERP");
            assert_eq!(m.level, ArchitectMarketDataLevel::Level2);
        }
        other => panic!("unexpected {other:?}"),
    }
    match h.handle_command(MdCommand::Unsubscribe { request_id: 3, symbol: "X".to_string() }) {
        MdAction::Send(MdRequest::Unsubscribe(m)) => {
            assert_eq!((m.request_id, m.msg_type.as_str(), m.symbol.as_str()), (3, "unsubscribe", "X"));
        }
        other => panic!("unexpected {other:?}"),
    }
    match h.handle_command(MdCommand::SubscribeCandles {
        request_id: 4,
        symbol: "X".to_string(),
        width: ArchitectCandleWidth::Minutes1,
    }) {
        MdAction::Send(MdRequest::SubscribeCandles(m)) => {
            assert_eq!(m.msg_type, "subscribe_candles");
            assert_eq!(m.width, ArchitectCandleWidth::Minutes1);
        }
        other => panic!("unexpected {other:?}"),
    }
    match h.handle_command(MdCommand::UnsubscribeCandles {
        request_id: 5,
        symbol: "X".to_string(),
        width: ArchitectCandleWidth::Minutes1,
    }) {
        MdAction::Send(MdRequest::UnsubscribeCandles(m)) => {
            assert_eq!((m.request_id, m.msg_type.as_str()), (5, "unsubscribe_candles"));
        }
        other => panic!("unexpected {other:?}"),
    }
    assert!(matches!(h.handle_command(MdCommand::Disconnect), MdAction::Disconnect));
}

#[test]
fn md_handler_caches_instruments_last_wins() {
    let mut h = MdFeedHandler::new();
    h.handle_command(MdCommand::InitializeInstruments(vec![
        instrument("BTC-PERP", 1),
        instrument("ETH-PERP", 2),
        instrument("BTC-PERP", 3),
    ]));
    assert_eq!(h.instrument("BTC-PERP").unwrap().price_increment.raw, 3);
    assert_eq!(h.instrument("ETH-PERP").unwrap().price_increment.raw, 2);
    assert!(h.instrument("SOL-PERP").is_none());
    h.handle_command(MdCommand::UpdateInstrument(instrument("ETH-PERP", 9)));
    assert_eq!(h.instrument("ETH-PERP").unwrap().price_increment.raw, 9);
}

#[test]
fn md_handler_queues_messages_in_order() {
    let mut h = MdFeedHandler::new();
    assert!(matches!(h.handle_raw_message(text(r#"{"t":"h","ts":1,"tn":2}"#)), RawAction::Nothing));
    assert!(h.pop_message().is_none());
    h.handle_raw_message(text(r#"{"t":"q"}"#));
    h.handle_raw_message(text("__RECONNECTED__"));
    h.handle_raw_message(text("garbage"));
    h.handle_raw_message(RawMessage::Binary(4));
    match h.pop_message() {
        Some(ArchitectMdWsMessage::Error(e)) => assert_eq!(e.message, "Unknown message type: q"),
        other => panic!("unexpected {other:?}"),
    }
    assert!(matches!(h.pop_message(), Some(ArchitectMdWsMessage::Reconnected)));
    assert!(h.pop_message().is_none());
}

#[test]
fn md_handler_answers_pings_with_a_client() {
    let mut h = MdFeedHandler::new();
    assert!(matches!(h.handle_raw_message(RawMessage::Ping(vec![1, 2])), RawAction::Nothing));
    h.handle_command(MdCommand::SetClient);
    match h.handle_raw_message(RawMessage::Ping(vec![1, 2])) {
        RawAction::Pong(data) => assert_eq!(data, vec![1, 2]),
        other => panic!("unexpected {other:?}"),
    }
    assert!(h.pop_message().is_none());
}

#[test]
fn orders_classification() {
    for t in ["h", "n", "f", "c", "j", "x", "e"] {
        assert!(orders::classify_message_type(t, false).is_none());
    }
    assert!(orders::classify_message_type("zz", true).is_none());
    let msgs = orders::classify_message_type("zz", false).unwrap();
    match &msgs[0] {
        ArchitectOrdersWsMessage::Error(e) => assert_eq!(e.message, "Unknown message type: zz"),
        other => panic!("unexpected {other:?}"),
    }
}

#[test]
fn orders_handler_authenticate_queues_notification() {
    let mut h = OrdersFeedHandler::new();
    assert!(!h.is_authenticated());
    h.handle_command(OrdersCommand::Authenticate { token: "t".to_string() });
    assert!(h.is_authenticated());
    assert!(matches!(h.pop_message(), Some(ArchitectOrdersWsMessage::Authenticated)));
    assert!(h.pop_message().is_none());
}

#[test]
fn orders_handler_tracks_pending_orders() {
    let mut h = OrdersFeedHandler::new();
    // Without a client the placement cannot be sent and leaves no trace.
    let action = h.handle_command(OrdersCommand::PlaceOrder {
        request_id: 1,
        order: place_order(1),
        metadata: metadata(),
    });
    assert!(matches!(action, OrdersAction::Nothing));
    assert!(h.pending_order(1).is_none());

    h.handle_command(OrdersCommand::SetClient);
    match h.handle_command(OrdersCommand::PlaceOrder {
        request_id: 1,
        order: place_order(1),
        metadata: metadata(),
    }) {
        OrdersAction::PlaceOrder { request_id, order } => {
            assert_eq!(request_id, 1);
            assert_eq!(order.p, "50000.50");
        }
        other => panic!("unexpected {other:?}"),
    }
    let pending = h.pending_order(1).unwrap();
    assert_eq!(pending.client_order_id, "O-1");
    assert_eq!(pending.symbol, "BTCUSD-PERP");

    h.place_order_send_failed(1);
    assert!(h.pending_order(1).is_none());
}

#[test]
fn orders_handler_cancel_and_open_orders() {
    let mut h = OrdersFeedHandler::new();
    assert!(matches!(
        h.handle_command(OrdersCommand::GetOpenOrders { request_id: 3 }),
        OrdersAction::Nothing
    ));
    h.handle_command(OrdersCommand::SetClient);
    match h.handle_command(OrdersCommand::CancelOrder {
        request_id: 2,
        order_id: "O-01ARZ3NDEKTSV4RRFFQ69G5FAV".to_string(),
    }) {
        OrdersAction::CancelOrder(m) => {
            assert_eq!(m.rid, 2);
            assert_eq!(m.t, "x");
            assert_eq!(m.oid, "O-01ARZ3NDEKTSV4RRFFQ69G5FAV");
        }
        other => panic!("unexpected {other:?}"),
    }
    match h.handle_command(OrdersCommand::GetOpenOrders { request_id: 3 }) {
        OrdersAction::GetOpenOrders(m) => {
            assert_eq!(m.rid, 3);
            assert_eq!(m.t, "o");
        }
        other => panic!("unexpected {other:?}"),
    }
}

#[test]
fn orders_handler_frames() {
    let mut h = OrdersFeedHandler::new();
    h.handle_raw_message(text(r#"{"t":"n","ts":1,"tn":0}"#));
    h.handle_raw_message(text(r#"{"t":"p","rid":1,"res":{"oid":"O-1"}}"#));
    h.handle_raw_message(text(r#"{"rid":2,"res":{"cxl_rx":true}}"#));
    assert!(h.pop_message().is_none());
    h.handle_raw_message(text(r#"{"t":"p"}"#));
    h.handle_raw_message(text("__RECONNECTED__"));
    match h.pop_message() {
        Some(ArchitectOrdersWsMessage::Error(e)) => assert_eq!(e.message, "Unknown message type: p"),
        other => panic!("unexpected {other:?}"),
    }
    assert!(matches!(h.pop_message(), Some(ArchitectOrdersWsMessage::Reconnected)));
}

#[test]
fn orders_handler_caches_instruments() {
    let mut h = OrdersFeedHandler::new();
    h.handle_command(OrdersCommand::UpdateInstrument(instrument("BTC-PERP", 5)));
    assert_eq!(h.instrument("BTC-PERP").unwrap().price_increment.raw, 5);
}
