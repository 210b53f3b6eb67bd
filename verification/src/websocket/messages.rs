//! WebSocket message types for the Architect API.
//!
//! Request and response message structures for both the market data and the
//! order management WebSocket streams. Instrument symbols are held as `String`.

use vstd::prelude::*;

use crate::websocket::error::ArchitectWsErrorResponse;
use crate::common::enums::{
    ArchitectCandleWidth, ArchitectMarketDataLevel, ArchitectOrderSide, ArchitectOrderStatus,
    ArchitectTimeInForce,
};

verus! {

/// Subscribe request for market data.
#[derive(Clone, Debug)]
pub struct ArchitectMdSubscribe {
    /// Client request ID for correlation.
    pub request_id: i64,
    /// Request type (always "subscribe").
    pub msg_type: String,
    /// Instrument symbol.
    pub symbol: String,
    /// Market data level (LEVEL_1, LEVEL_2, LEVEL_3).
    pub level: ArchitectMarketDataLevel,
}

/// Unsubscribe request for market data.
#[derive(Clone, Debug)]
pub struct ArchitectMdUnsubscribe {
    /// Client request ID for correlation.
    pub request_id: i64,
    /// Request type (always "unsubscribe").
    pub msg_type: String,
    /// Instrument symbol.
    pub symbol: String,
}

/// Subscribe request for candle data.
#[derive(Clone, Debug)]
pub struct ArchitectMdSubscribeCandles {
    /// Client request ID for correlation.
    pub request_id: i64,
    /// Request type (always "subscribe_candles").
    pub msg_type: String,
    /// Instrument symbol.
    pub symbol: String,
    /// Candle width/interval.
    pub width: ArchitectCandleWidth,
}

/// Unsubscribe request for candle data.
#[derive(Clone, Debug)]
pub struct ArchitectMdUnsubscribeCandles {
    /// Client request ID for correlation.
    pub request_id: i64,
    /// Request type (always "unsubscribe_candles").
    pub msg_type: String,
    /// Instrument symbol.
    pub symbol: String,
    /// Candle width/interval.
    pub width: ArchitectCandleWidth,
}

/// Heartbeat message from market data WebSocket.
#[derive(Clone, Debug)]
pub struct ArchitectMdHeartbeat {
    /// Message type (always "h").
    pub t: String,
    /// Timestamp (Unix epoch seconds).
    pub ts: i64,
    /// Transaction number.
    pub tn: i64,
}

/// Ticker/statistics message from market data WebSocket.
#[derive(Clone, Debug)]
pub struct ArchitectMdTicker {
    /// Message type (always "s").
    pub t: String,
    /// Timestamp (Unix epoch seconds).
    pub ts: i64,
    /// Transaction number.
    pub tn: i64,
    /// Instrument symbol.
    pub s: String,
    /// Last price.
    pub p: String,
    /// Last quantity.
    pub q: i64,
    /// Open price (24h).
    pub o: String,
    /// Low price (24h).
    pub l: String,
    /// High price (24h).
    pub h: String,
    /// Volume (24h).
    pub v: i64,
    /// Open interest.
    pub oi: Option<i64>,
}

/// Trade message from market data WebSocket.
///
/// Note: uses the same "s" message type as the ticker but with different fields.
#[derive(Clone, Debug)]
pub struct ArchitectMdTrade {
    /// Message type (always "s").
    pub t: String,
    /// Timestamp (Unix epoch seconds).
    pub ts: i64,
    /// Transaction number.
    pub tn: i64,
    /// Instrument symbol.
    pub s: String,
    /// Trade price.
    pub p: String,
    /// Trade quantity.
    pub q: i64,
    /// Trade direction: "B" (buy) or "S" (sell).
    pub d: ArchitectOrderSide,
}

/// Candle/OHLCV message from market data WebSocket.
#[derive(Clone, Debug)]
pub struct ArchitectMdCandle {
    /// Message type (always "c").
    pub t: String,
    /// Instrument symbol.
    pub symbol: String,
    /// Candle timestamp (Unix epoch).
    pub ts: i64,
    /// Open price.
    pub open: String,
    /// Low price.
    pub low: String,
    /// High price.
    pub high: String,
    /// Close price.
    pub close: String,
    /// Total volume.
    pub volume: i64,
    /// Buy volume.
    pub buy_volume: i64,
    /// Sell volume.
    pub sell_volume: i64,
    /// Candle width/interval.
    pub width: ArchitectCandleWidth,
}

/// Price level entry in order book.
#[derive(Clone, Debug)]
pub struct ArchitectBookLevel {
    /// Price at this level.
    pub p: String,
    /// Quantity at this level.
    pub q: i64,
}

/// Price level entry with individual order breakdown (L3).
#[derive(Clone, Debug)]
pub struct ArchitectBookLevelL3 {
    /// Price at this level.
    pub p: String,
    /// Total quantity at this level.
    pub q: i64,
    /// Individual order quantities at this price.
    pub o: Vec<i64>,
}

/// Level 1 order book update (best bid/ask).
#[derive(Clone, Debug)]
pub struct ArchitectMdBookL1 {
    /// Message type (always "1").
    pub t: String,
    /// Timestamp (Unix epoch seconds).
    pub ts: i64,
    /// Transaction number.
    pub tn: i64,
    /// Instrument symbol.
    pub s: String,
    /// Bid levels (typically just best bid).
    pub b: Vec<ArchitectBookLevel>,
    /// Ask levels (typically just best ask).
    pub a: Vec<ArchitectBookLevel>,
}

/// Level 2 order book update (aggregated price levels).
#[derive(Clone, Debug)]
pub struct ArchitectMdBookL2 {
    /// Message type (always "2").
    pub t: String,
    /// Timestamp (Unix epoch seconds).
    pub ts: i64,
    /// Transaction number.
    pub tn: i64,
    /// Instrument symbol.
    pub s: String,
    /// Bid levels.
    pub b: Vec<ArchitectBookLevel>,
    /// Ask levels.
    pub a: Vec<ArchitectBookLevel>,
}

/// Level 3 order book update (individual order quantities).
#[derive(Clone, Debug)]
pub struct ArchitectMdBookL3 {
    /// Message type (always "3").
    pub t: String,
    /// Timestamp (Unix epoch seconds).
    pub ts: i64,
    /// Transaction number.
    pub tn: i64,
    /// Instrument symbol.
    pub s: String,
    /// Bid levels with order breakdown.
    pub b: Vec<ArchitectBookLevelL3>,
    /// Ask levels with order breakdown.
    pub a: Vec<ArchitectBookLevelL3>,
}

/// Place order request via WebSocket.
#[derive(Clone, Debug)]
pub struct ArchitectWsPlaceOrder {
    /// Request ID for correlation.
    pub rid: i64,
    /// Message type (always "p").
    pub t: String,
    /// Instrument symbol.
    pub s: String,
    /// Order side: "B" (buy) or "S" (sell).
    pub d: ArchitectOrderSide,
    /// Order quantity.
    pub q: i64,
    /// Order price.
    pub p: String,
    /// Time in force.
    pub tif: ArchitectTimeInForce,
    /// Post-only flag (maker-or-cancel).
    pub po: bool,
    /// Optional order tag.
    pub tag: Option<String>,
}

/// Cancel order request via WebSocket.
#[derive(Clone, Debug)]
pub struct ArchitectWsCancelOrder {
    /// Request ID for correlation.
    pub rid: i64,
    /// Message type (always "x").
    pub t: String,
    /// Order ID to cancel.
    pub oid: String,
}

/// Get open orders request via WebSocket.
#[derive(Clone, Debug)]
pub struct ArchitectWsGetOpenOrders {
    /// Request ID for correlation.
    pub rid: i64,
    /// Message type (always "o").
    pub t: String,
}

/// Place order response from WebSocket.
#[derive(Clone, Debug)]
pub struct ArchitectWsPlaceOrderResponse {
    /// Request ID matching the original request.
    pub rid: i64,
    /// Response result.
    pub res: ArchitectWsPlaceOrderResult,
}

/// Result payload for place order response.
#[derive(Clone, Debug)]
pub struct ArchitectWsPlaceOrderResult {
    /// Order ID of the placed order.
    pub oid: String,
}

/// Cancel order response from WebSocket.
#[derive(Clone, Debug)]
pub struct ArchitectWsCancelOrderResponse {
    /// Request ID matching the original request.
    pub rid: i64,
    /// Response result.
    pub res: ArchitectWsCancelOrderResult,
}

/// Result payload for cancel order response.
#[derive(Clone, Debug)]
pub struct ArchitectWsCancelOrderResult {
    /// Whether the cancel request was received.
    pub cxl_rx: bool,
}

/// Open orders response from WebSocket.
#[derive(Clone, Debug)]
pub struct ArchitectWsOpenOrdersResponse {
    /// Request ID matching the original request.
    pub rid: i64,
    /// List of open orders.
    pub res: Vec<ArchitectWsOrder>,
}

/// Order details in WebSocket messages.
#[derive(Clone, Debug)]
pub struct ArchitectWsOrder {
    /// Order ID.
    pub oid: String,
    /// User ID.
    pub u: String,
    /// Instrument symbol.
    pub s: String,
    /// Order price.
    pub p: String,
    /// Order quantity.
    pub q: i64,
    /// Executed quantity.
    pub xq: i64,
    /// Remaining quantity.
    pub rq: i64,
    /// Order status.
    pub o: ArchitectOrderStatus,
    /// Order side.
    pub d: ArchitectOrderSide,
    /// Time in force.
    pub tif: ArchitectTimeInForce,
    /// Timestamp (Unix epoch seconds).
    pub ts: i64,
    /// Transaction number.
    pub tn: i64,
    /// Optional order tag.
    pub tag: Option<String>,
}

/// Heartbeat event from orders WebSocket.
#[derive(Clone, Debug)]
pub struct ArchitectWsHeartbeat {
    /// Message type (always "h").
    pub t: String,
    /// Timestamp (Unix epoch seconds).
    pub ts: i64,
    /// Transaction number.
    pub tn: i64,
}

/// Order acknowledged event.
#[derive(Clone, Debug)]
pub struct ArchitectWsOrderAcknowledged {
    /// Message type (always "n").
    pub t: String,
    /// Timestamp (Unix epoch seconds).
    pub ts: i64,
    /// Transaction number.
    pub tn: i64,
    /// Event ID.
    pub eid: String,
    /// Order details.
    pub o: ArchitectWsOrder,
}

/// Trade execution details for fill events.
#[derive(Clone, Debug)]
pub struct ArchitectWsTradeExecution {
    /// Trade ID.
    pub tid: String,
    /// Instrument symbol.
    pub s: String,
    /// Executed quantity.
    pub q: i64,
    /// Execution price.
    pub p: String,
    /// Trade direction.
    pub d: ArchitectOrderSide,
    /// Whether this was an aggressor (taker) order.
    pub agg: bool,
}

/// Order partially filled event.
#[derive(Clone, Debug)]
pub struct ArchitectWsOrderPartiallyFilled {
    /// Message type (always "p").
    pub t: String,
    /// Timestamp (Unix epoch seconds).
    pub ts: i64,
    /// Transaction number.
    pub tn: i64,
    /// Event ID.
    pub eid: String,
    /// Order details.
    pub o: ArchitectWsOrder,
    /// Trade execution details.
    pub xs: ArchitectWsTradeExecution,
}

/// Order filled event.
#[derive(Clone, Debug)]
pub struct ArchitectWsOrderFilled {
    /// Message type (always "f").
    pub t: String,
    /// Timestamp (Unix epoch seconds).
    pub ts: i64,
    /// Transaction number.
    pub tn: i64,
    /// Event ID.
    pub eid: String,
    /// Order details.
    pub o: ArchitectWsOrder,
    /// Trade execution details.
    pub xs: ArchitectWsTradeExecution,
}

/// Order canceled event.
#[derive(Clone, Debug)]
pub struct ArchitectWsOrderCanceled {
    /// Message type (always "c").
    pub t: String,
    /// Timestamp (Unix epoch seconds).
    pub ts: i64,
    /// Transaction number.
    pub tn: i64,
    /// Event ID.
    pub eid: String,
    /// Order details.
    pub o: ArchitectWsOrder,
    /// Cancellation reason.
    pub xr: String,
    /// Cancellation text/description.
    pub txt: Option<String>,
}

/// Order rejected event.
#[derive(Clone, Debug)]
pub struct ArchitectWsOrderRejected {
    /// Message type (always "j").
    pub t: String,
    /// Timestamp (Unix epoch seconds).
    pub ts: i64,
    /// Transaction number.
    pub tn: i64,
    /// Event ID.
    pub eid: String,
    /// Order details.
    pub o: ArchitectWsOrder,
    /// Rejection reason code.
    pub r: String,
    /// Rejection text/description.
    pub txt: Option<String>,
}

/// Order expired event.
#[derive(Clone, Debug)]
pub struct ArchitectWsOrderExpired {
    /// Message type (always "x").
    pub t: String,
    /// Timestamp (Unix epoch seconds).
    pub ts: i64,
    /// Transaction number.
    pub tn: i64,
    /// Event ID.
    pub eid: String,
    /// Order details.
    pub o: ArchitectWsOrder,
}

/// Order replaced/amended event.
#[derive(Clone, Debug)]
pub struct ArchitectWsOrderReplaced {
    /// Message type (always "r").
    pub t: String,
    /// Timestamp (Unix epoch seconds).
    pub ts: i64,
    /// Transaction number.
    pub tn: i64,
    /// Event ID.
    pub eid: String,
    /// Order details.
    pub o: ArchitectWsOrder,
}

/// Order done for day event.
#[derive(Clone, Debug)]
pub struct ArchitectWsOrderDoneForDay {
    /// Message type (always "d").
    pub t: String,
    /// Timestamp (Unix epoch seconds).
    pub ts: i64,
    /// Transaction number.
    pub tn: i64,
    /// Event ID.
    pub eid: String,
    /// Order details.
    pub o: ArchitectWsOrder,
}

/// Cancel rejected event.
#[derive(Clone, Debug)]
pub struct ArchitectWsCancelRejected {
    /// Message type (always "e").
    pub t: String,
    /// Timestamp (Unix epoch seconds).
    pub ts: i64,
    /// Transaction number.
    pub tn: i64,
    /// Order ID that failed to cancel.
    pub oid: String,
    /// Rejection reason code.
    pub r: String,
    /// Rejection text/description.
    pub txt: Option<String>,
}

/// Domain message of the market data WebSocket.
#[derive(Clone, Debug)]
pub enum ArchitectMdWsMessage {
    /// Error from venue or client.
    Error(ArchitectWsError),
    /// WebSocket reconnected notification.
    Reconnected,
}

/// Domain message of the orders WebSocket.
#[derive(Clone, Debug)]
pub enum ArchitectOrdersWsMessage {
    /// Error from venue or client.
    Error(ArchitectWsError),
    /// WebSocket reconnected notification.
    Reconnected,
    /// Authentication successful notification.
    Authenticated,
}

/// Message of an error response that carries none.
pub const UNKNOWN_ERROR: &'static str = "Unknown error";

/// Represents an error event surfaced by the WebSocket client.
#[derive(Clone, Debug)]
pub struct ArchitectWsError {
    /// Error code from Architect.
    pub code: Option<String>,
    /// Human readable message.
    pub message: String,
    /// Optional request ID related to the failure.
    pub request_id: Option<i64>,
}

impl ArchitectWsError {
    /// Creates a new error with the provided message.
    pub fn new(message: String) -> (err: Self)
        ensures
            err.code is None,
            err.message@ == message@,
            err.request_id is None,
    {
        Self { code: None, message, request_id: None }
    }

    /// Creates a new error with code and message.
    pub fn with_code(code: String, message: String) -> (err: Self)
        ensures
            err.code matches Some(c) && c@ == code@,
            err.message@ == message@,
            err.request_id is None,
    {
        Self { code: Some(code), message, request_id: None }
    }

    /// Converts an error response of the venue: its code and request ID are
    /// kept, a missing message becomes "Unknown error".
    pub fn from_response(resp: ArchitectWsErrorResponse) -> (err: Self)
        ensures
            err.code.deep_view() == resp.code.deep_view(),
            err.message@ == (match resp.message {
                Some(m) => m@,
                None => UNKNOWN_ERROR@,
            }),
            err.request_id == resp.rid,
    {
        let message = match resp.message {
            Some(m) => m,
            None => UNKNOWN_ERROR.to_owned(),
        };
        Self { code: resp.code, message, request_id: resp.rid }
    }
}

/// Metadata for pending order operations, used to correlate order responses
/// with the original request.
#[derive(Clone, Debug)]
pub struct OrderMetadata {
    /// Client order ID for correlation.
    pub client_order_id: String,
    /// Instrument symbol.
    pub symbol: String,
}

} // verus!
