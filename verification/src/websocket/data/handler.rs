//! Decision logic of the market data stream handler: commands from the
//! client, frames from the venue, and the queue of domain messages.

use std::collections::VecDeque;
use vstd::prelude::*;

use crate::common::enums::{ArchitectCandleWidth, ArchitectMarketDataLevel};
use crate::http::parse::ArchitectPerpInstrument;
use crate::websocket::cache::{cache_all, InstrumentCache};
use crate::websocket::frames::{
    field_str, inspect_text_frame, json_object_of, RawAction, RawMessage, TextFrame, MESSAGE_TYPE_KEY,
    RECONNECTED,
};
use crate::websocket::messages::{
    ArchitectMdSubscribe, ArchitectMdSubscribeCandles, ArchitectMdUnsubscribe,
    ArchitectMdUnsubscribeCandles, ArchitectMdWsMessage, ArchitectWsError,
};

verus! {

/// Request type of a market data subscription.
pub const SUBSCRIBE_TYPE: &'static str = "subscribe";

/// Request type of a market data unsubscription.
pub const UNSUBSCRIBE_TYPE: &'static str = "unsubscribe";

/// Request type of a candle subscription.
pub const SUBSCRIBE_CANDLES_TYPE: &'static str = "subscribe_candles";

/// Request type of a candle unsubscription.
pub const UNSUBSCRIBE_CANDLES_TYPE: &'static str = "unsubscribe_candles";

/// Prefix of the error message for a message of unknown type.
pub const UNKNOWN_MESSAGE_TYPE: &'static str = "Unknown message type: ";

/// Commands sent from the outer client to the handler.
#[derive(Clone, Debug)]
pub enum HandlerCommand {
    /// The transport now has a WebSocket client.
    SetClient,
    /// Disconnect the WebSocket connection.
    Disconnect,
    /// Subscribe to market data for a symbol.
    Subscribe {
        /// Request ID for correlation.
        request_id: i64,
        /// Instrument symbol.
        symbol: String,
        /// Market data level.
        level: ArchitectMarketDataLevel,
    },
    /// Unsubscribe from market data for a symbol.
    Unsubscribe {
        /// Request ID for correlation.
        request_id: i64,
        /// Instrument symbol.
        symbol: String,
    },
    /// Subscribe to candle data for a symbol.
    SubscribeCandles {
        /// Request ID for correlation.
        request_id: i64,
        /// Instrument symbol.
        symbol: String,
        /// Candle width/interval.
        width: ArchitectCandleWidth,
    },
    /// Unsubscribe from candle data for a symbol.
    UnsubscribeCandles {
        /// Request ID for correlation.
        request_id: i64,
        /// Instrument symbol.
        symbol: String,
        /// Candle width/interval.
        width: ArchitectCandleWidth,
    },
    /// Initialize the instrument cache with instruments.
    InitializeInstruments(Vec<ArchitectPerpInstrument>),
    /// Update a single instrument in the cache.
    UpdateInstrument(ArchitectPerpInstrument),
}

/// A request to send to the venue.
#[derive(Clone, Debug)]
pub enum MdRequest {
    /// Market data subscription.
    Subscribe(ArchitectMdSubscribe),
    /// Market data unsubscription.
    Unsubscribe(ArchitectMdUnsubscribe),
    /// Candle subscription.
    SubscribeCandles(ArchitectMdSubscribeCandles),
    /// Candle unsubscription.
    UnsubscribeCandles(ArchitectMdUnsubscribeCandles),
}

/// What the transport does after a command.
#[derive(Clone, Debug)]
pub enum HandlerAction {
    /// Nothing.
    Nothing,
    /// Close the WebSocket client.
    Disconnect,
    /// Send a request to the venue as JSON.
    Send(MdRequest),
}

/// Whether `t` is a message type of the market data stream: heartbeat "h",
/// ticker/trade "s", candle "c", or book level "1", "2", "3".
pub open spec fn is_md_message_type(t: Seq<char>) -> bool {
    ||| t == seq!['h']
    ||| t == seq!['s']
    ||| t == seq!['c']
    ||| t == seq!['1']
    ||| t == seq!['2']
    ||| t == seq!['3']
}

/// Whether a message list is the single error for an unknown message type `t`.
pub open spec fn is_unknown_type_error(v: Seq<ArchitectMdWsMessage>, t: Seq<char>) -> bool {
    &&& v.len() == 1
    &&& v[0] matches ArchitectMdWsMessage::Error(e)
    &&& e.code is None
    &&& e.request_id is None
    &&& e.message@ == UNKNOWN_MESSAGE_TYPE@ + t
}

/// Maps the type of a market data message to the domain messages it yields:
/// known types yield none (heartbeats are ignored, the others are not parsed
/// yet), an unknown type yields an error.
pub fn classify_message_type(msg_type: &str) -> (res: Option<Vec<ArchitectMdWsMessage>>)
    ensures
        is_md_message_type(msg_type@) ==> res is None,
        !is_md_message_type(msg_type@) ==> (res matches Some(v) && is_unknown_type_error(v@, msg_type@)),
{
    if msg_type.unicode_len() == 1 {
        let c = msg_type.get_char(0);
        if c == 'h' || c == 's' || c == 'c' || c == '1' || c == '2' || c == '3' {
            assert(msg_type@ =~= seq![c]);
            return None;
        }
        assert(msg_type@ =~= seq![c]);
    }
    let mut message = UNKNOWN_MESSAGE_TYPE.to_owned();
    message.append(msg_type);
    let mut v: Vec<ArchitectMdWsMessage> = Vec::new();
    v.push(ArchitectMdWsMessage::Error(ArchitectWsError::new(message)));
    Some(v)
}

/// Whether `added` are the domain messages a received frame yields: the
/// reconnection signal yields `Reconnected`; a JSON object with a string
/// `"t"` field of unknown type yields the error for that type; any other
/// frame yields nothing.
pub open spec fn md_messages_of(msg: RawMessage, added: Seq<ArchitectMdWsMessage>) -> bool {
    match msg {
        RawMessage::Text(text) => if text@ == RECONNECTED@ {
            added == seq![ArchitectMdWsMessage::Reconnected]
        } else {
            match json_object_of(text@) {
                Some(fields) => match field_str(fields, MESSAGE_TYPE_KEY@) {
                    Some(t) => if is_md_message_type(t) {
                        added.len() == 0
                    } else {
                        is_unknown_type_error(added, t)
                    },
                    None => added.len() == 0,
                },
                None => added.len() == 0,
            }
        },
        _ => added.len() == 0,
    }
}

/// Parses a received frame into domain messages (see [`md_messages_of`]);
/// `None` where it yields none.
pub fn parse_raw_message(msg: &RawMessage) -> (res: Option<Vec<ArchitectMdWsMessage>>)
    ensures
        res is None <==> md_messages_of(*msg, Seq::empty()),
        res matches Some(v) ==> md_messages_of(*msg, v@),
{
    match msg {
        RawMessage::Text(text) => match inspect_text_frame(text.as_str()) {
            TextFrame::Reconnected => {
                let mut v: Vec<ArchitectMdWsMessage> = Vec::new();
                v.push(ArchitectMdWsMessage::Reconnected);
                assert(v@ =~= seq![ArchitectMdWsMessage::Reconnected]);
                Some(v)
            },
            TextFrame::Object { msg_type: Some(t), .. } => {
                classify_message_type(t.as_str())
            },
            _ => None,
        },
        _ => None,
    }
}

/// Builds a market data subscription request.
fn subscribe_request(request_id: i64, symbol: &str, level: ArchitectMarketDataLevel) -> (m: ArchitectMdSubscribe)
    ensures
        m.request_id == request_id,
        m.msg_type@ == SUBSCRIBE_TYPE@,
        m.symbol@ == symbol@,
        m.level == level,
{
    ArchitectMdSubscribe {
        request_id,
        msg_type: SUBSCRIBE_TYPE.to_owned(),
        symbol: symbol.to_owned(),
        level,
    }
}

/// Builds a market data unsubscription request.
fn unsubscribe_request(request_id: i64, symbol: &str) -> (m: ArchitectMdUnsubscribe)
    ensures
        m.request_id == request_id,
        m.msg_type@ == UNSUBSCRIBE_TYPE@,
        m.symbol@ == symbol@,
{
    ArchitectMdUnsubscribe { request_id, msg_type: UNSUBSCRIBE_TYPE.to_owned(), symbol: symbol.to_owned() }
}

/// Builds a candle subscription request.
fn subscribe_candles_request(request_id: i64, symbol: &str, width: ArchitectCandleWidth) -> (m: ArchitectMdSubscribeCandles)
    ensures
        m.request_id == request_id,
        m.msg_type@ == SUBSCRIBE_CANDLES_TYPE@,
        m.symbol@ == symbol@,
        m.width == width,
{
    ArchitectMdSubscribeCandles {
        request_id,
        msg_type: SUBSCRIBE_CANDLES_TYPE.to_owned(),
        symbol: symbol.to_owned(),
        width,
    }
}

/// Builds a candle unsubscription request.
fn unsubscribe_candles_request(request_id: i64, symbol: &str, width: ArchitectCandleWidth) -> (m: ArchitectMdUnsubscribeCandles)
    ensures
        m.request_id == request_id,
        m.msg_type@ == UNSUBSCRIBE_CANDLES_TYPE@,
        m.symbol@ == symbol@,
        m.width == width,
{
    ArchitectMdUnsubscribeCandles {
        request_id,
        msg_type: UNSUBSCRIBE_CANDLES_TYPE.to_owned(),
        symbol: symbol.to_owned(),
        width,
    }
}

/// State of the market data handler: whether the transport has a client,
/// the instrument cache, and the domain messages not yet handed out.
pub struct FeedHandler {
    has_client: bool,
    instruments: InstrumentCache,
    message_queue: VecDeque<ArchitectMdWsMessage>,
}

impl FeedHandler {
    /// Whether the transport has a WebSocket client.
    pub closed spec fn has_client_view(&self) -> bool {
        self.has_client
    }

    /// The cached instruments, keyed by symbol.
    pub closed spec fn instruments_view(&self) -> Map<Seq<char>, ArchitectPerpInstrument> {
        self.instruments.entries()
    }

    /// The queued domain messages, oldest first.
    pub closed spec fn queue_view(&self) -> Seq<ArchitectMdWsMessage> {
        self.message_queue@
    }

    /// Creates a handler with no client, no instruments and no messages.
    pub fn new() -> (h: Self)
        ensures
            !h.has_client_view(),
            h.instruments_view() == Map::<Seq<char>, ArchitectPerpInstrument>::empty(),
            h.queue_view() == Seq::<ArchitectMdWsMessage>::empty(),
    {
        FeedHandler {
            has_client: false,
            instruments: InstrumentCache::new(),
            message_queue: VecDeque::new(),
        }
    }

    /// Handles a command from the outer client and says what the transport
    /// must do.
    pub fn handle_command(&mut self, cmd: HandlerCommand) -> (action: HandlerAction)
        ensures
            final(self).queue_view() == old(self).queue_view(),
            !(cmd is InitializeInstruments || cmd is UpdateInstrument) ==> final(self).instruments_view()
                == old(self).instruments_view(),
            !(cmd is SetClient || cmd is Disconnect) ==> final(self).has_client_view()
                == old(self).has_client_view(),
            cmd is SetClient ==> final(self).has_client_view() && action is Nothing,
            cmd is Disconnect ==> !final(self).has_client_view() && (old(self).has_client_view()
                ==> action is Disconnect) && (!old(self).has_client_view() ==> action is Nothing),
            cmd matches HandlerCommand::Subscribe { request_id, symbol, level } ==> {
                &&& old(self).has_client_view() ==> (action matches HandlerAction::Send(
                    MdRequest::Subscribe(m),
                ) && m.request_id == request_id && m.msg_type@ == SUBSCRIBE_TYPE@ && m.symbol@
                    == symbol@ && m.level == level)
                &&& !old(self).has_client_view() ==> action is Nothing
            },
            cmd matches HandlerCommand::Unsubscribe { request_id, symbol } ==> {
                &&& old(self).has_client_view() ==> (action matches HandlerAction::Send(
                    MdRequest::Unsubscribe(m),
                ) && m.request_id == request_id && m.msg_type@ == UNSUBSCRIBE_TYPE@ && m.symbol@
                    == symbol@)
                &&& !old(self).has_client_view() ==> action is Nothing
            },
            cmd matches HandlerCommand::SubscribeCandles { request_id, symbol, width } ==> {
                &&& old(self).has_client_view() ==> (action matches HandlerAction::Send(
                    MdRequest::SubscribeCandles(m),
                ) && m.request_id == request_id && m.msg_type@ == SUBSCRIBE_CANDLES_TYPE@ && m.symbol@
                    == symbol@ && m.width == width)
                &&& !old(self).has_client_view() ==> action is Nothing
            },
            cmd matches HandlerCommand::UnsubscribeCandles { request_id, symbol, width } ==> {
                &&& old(self).has_client_view() ==> (action matches HandlerAction::Send(
                    MdRequest::UnsubscribeCandles(m),
                ) && m.request_id == request_id && m.msg_type@ == UNSUBSCRIBE_CANDLES_TYPE@
                    && m.symbol@ == symbol@ && m.width == width)
                &&& !old(self).has_client_view() ==> action is Nothing
            },
            cmd matches HandlerCommand::InitializeInstruments(v) ==> final(self).instruments_view()
                == cache_all(old(self).instruments_view(), v@) && action is Nothing,
            cmd matches HandlerCommand::InitializeInstruments(v) ==> forall|i: int|
                0 <= i < v@.len() ==> final(self).instruments_view().contains_key(
                    #[trigger] v@[i].symbol@,
                ),
            cmd matches HandlerCommand::UpdateInstrument(i) ==> final(self).instruments_view()
                == old(self).instruments_view().insert(i.symbol@, i) && action is Nothing,
    {
        match cmd {
            HandlerCommand::SetClient => {
                self.has_client = true;
                HandlerAction::Nothing
            },
            HandlerCommand::Disconnect => {
                if self.has_client {
                    self.has_client = false;
                    HandlerAction::Disconnect
                } else {
                    HandlerAction::Nothing
                }
            },
            HandlerCommand::Subscribe { request_id, symbol, level } => {
                if self.has_client {
                    HandlerAction::Send(
                        MdRequest::Subscribe(subscribe_request(request_id, symbol.as_str(), level)),
                    )
                } else {
                    HandlerAction::Nothing
                }
            },
            HandlerCommand::Unsubscribe { request_id, symbol } => {
                if self.has_client {
                    HandlerAction::Send(
                        MdRequest::Unsubscribe(unsubscribe_request(request_id, symbol.as_str())),
                    )
                } else {
                    HandlerAction::Nothing
                }
            },
            HandlerCommand::SubscribeCandles { request_id, symbol, width } => {
                if self.has_client {
                    HandlerAction::Send(
                        MdRequest::SubscribeCandles(
                            subscribe_candles_request(request_id, symbol.as_str(), width),
                        ),
                    )
                } else {
                    HandlerAction::Nothing
                }
            },
            HandlerCommand::UnsubscribeCandles { request_id, symbol, width } => {
                if self.has_client {
                    HandlerAction::Send(
                        MdRequest::UnsubscribeCandles(
                            unsubscribe_candles_request(request_id, symbol.as_str(), width),
                        ),
                    )
                } else {
                    HandlerAction::Nothing
                }
            },
            HandlerCommand::InitializeInstruments(instruments) => {
                self.instruments.insert_all(instruments);
                HandlerAction::Nothing
            },
            HandlerCommand::UpdateInstrument(instrument) => {
                self.instruments.insert(instrument);
                HandlerAction::Nothing
            },
        }
    }

    /// Handles a frame from the venue: a ping is answered with a pong while
    /// there is a client; any other frame is parsed and its domain messages
    /// are queued behind those already waiting.
    pub fn handle_raw_message(&mut self, msg: RawMessage) -> (action: RawAction)
        ensures
            final(self).has_client_view() == old(self).has_client_view(),
            final(self).instruments_view() == old(self).instruments_view(),
            msg matches RawMessage::Ping(d) ==> {
                &&& final(self).queue_view() == old(self).queue_view()
                &&& old(self).has_client_view() ==> (action matches RawAction::Pong(p) && p@ == d@)
                &&& !old(self).has_client_view() ==> action is Nothing
            },
            !(msg is Ping) ==> action is Nothing && exists|added: Seq<ArchitectMdWsMessage>|
                final(self).queue_view() == old(self).queue_view() + added && md_messages_of(msg, added),
            msg matches RawMessage::Text(text) && text@ == RECONNECTED@ ==> final(self).queue_view()
                == old(self).queue_view().push(ArchitectMdWsMessage::Reconnected),
            !(msg is Text) ==> final(self).queue_view() == old(self).queue_view(),
    {
        match msg {
            RawMessage::Ping(data) => {
                if self.has_client {
                    RawAction::Pong(data)
                } else {
                    RawAction::Nothing
                }
            },
            other => {
                let parsed = parse_raw_message(&other);
                let ghost before = self.message_queue@;
                let ghost mut added = Seq::<ArchitectMdWsMessage>::empty();
                match parsed {
                    Some(messages) => {
                        proof {
                            added = messages@;
                        }
                        self.enqueue_all(messages);
                    },
                    None => {
                        assert(self.message_queue@ =~= before + added);
                    },
                }
                assert(self.queue_view() == old(self).queue_view() + added);
                RawAction::Nothing
            },
        }
    }

    /// Appends messages to the queue in order.
    fn enqueue_all(&mut self, messages: Vec<ArchitectMdWsMessage>)
        ensures
            final(self).message_queue@ == old(self).message_queue@ + messages@,
            final(self).has_client == old(self).has_client,
            final(self).instruments == old(self).instruments,
    {
        let ghost start = self.message_queue@;
        let ghost orig = messages@;
        let mut rest = messages;
        let n = rest.len();
        let mut k: usize = 0;
        assert(orig.skip(0) =~= orig);
        assert(start + orig.take(0) =~= start);
        while rest.len() > 0
            invariant
                k <= orig.len(),
                orig.len() == n,
                k + rest@.len() == orig.len(),
                rest@ == orig.skip(k as int),
                self.message_queue@ == start + orig.take(k as int),
                self.has_client == old(self).has_client,
                self.instruments == old(self).instruments,
            decreases rest.len(),
        {
            let m = rest.remove(0);
            proof {
                assert(orig.take(k + 1) =~= orig.take(k as int).push(orig[k as int]));
                assert(orig.skip(k + 1) =~= orig.skip(k as int).drop_first());
            }
            self.message_queue.push_back(m);
            k = k + 1;
        }
        assert(orig.take(k as int) =~= orig);
    }

    /// Hands out the oldest queued message, if any.
    pub fn pop_message(&mut self) -> (msg: Option<ArchitectMdWsMessage>)
        ensures
            old(self).queue_view().len() == 0 ==> msg is None && final(self).queue_view()
                == old(self).queue_view(),
            old(self).queue_view().len() > 0 ==> msg == Some(old(self).queue_view()[0])
                && final(self).queue_view() == old(self).queue_view().drop_first(),
            final(self).has_client_view() == old(self).has_client_view(),
            final(self).instruments_view() == old(self).instruments_view(),
    {
        self.message_queue.pop_front()
    }

    /// Looks up a cached instrument by symbol.
    pub fn instrument(&self, symbol: &str) -> (res: Option<&ArchitectPerpInstrument>)
        ensures
            res is Some <==> self.instruments_view().contains_key(symbol@),
            res matches Some(v) ==> *v == self.instruments_view()[symbol@],
    {
        self.instruments.get(symbol)
    }
}

} // verus!
