//! Decision logic of the orders stream handler: commands from the client,
//! frames from the venue, the table of pending order requests, and the queue
//! of domain messages.

use std::collections::VecDeque;
use vstd::prelude::*;

use crate::http::parse::ArchitectPerpInstrument;
use crate::websocket::cache::{cache_all, InstrumentCache, PendingOrders};
use crate::websocket::frames::{
    field_str, inspect_text_frame, json_object_of, RawAction, RawMessage, TextFrame, MESSAGE_TYPE_KEY,
    RECONNECTED, REQUEST_ID_KEY,
};
use crate::websocket::messages::{
    ArchitectOrdersWsMessage, ArchitectWsCancelOrder, ArchitectWsError, ArchitectWsGetOpenOrders,
    ArchitectWsPlaceOrder, OrderMetadata,
};

verus! {

/// Message type of a cancel order request.
pub const CANCEL_ORDER_TYPE: &'static str = "x";

/// Message type of a get open orders request.
pub const GET_OPEN_ORDERS_TYPE: &'static str = "o";

/// Prefix of the error message for a message of unknown type.
pub const UNKNOWN_MESSAGE_TYPE: &'static str = "Unknown message type: ";

/// Commands sent from the outer client to the handler.
#[derive(Clone, Debug)]
pub enum HandlerCommand {
    /// The transport now has a WebSocket client.
    SetClient,
    /// Disconnect the WebSocket connection.
    Disconnect,
    /// Authenticate with the provided token (the bearer token goes in the
    /// connection headers, so this only records success).
    Authenticate {
        /// Bearer token for authentication.
        token: String,
    },
    /// Place an order.
    PlaceOrder {
        /// Request ID for correlation.
        request_id: i64,
        /// Order placement message.
        order: ArchitectWsPlaceOrder,
        /// Metadata for response correlation.
        metadata: OrderMetadata,
    },
    /// Cancel an order.
    CancelOrder {
        /// Request ID for correlation.
        request_id: i64,
        /// Order ID to cancel.
        order_id: String,
    },
    /// Get open orders.
    GetOpenOrders {
        /// Request ID for correlation.
        request_id: i64,
    },
    /// Initialize the instrument cache with instruments.
    InitializeInstruments(Vec<ArchitectPerpInstrument>),
    /// Update a single instrument in the cache.
    UpdateInstrument(ArchitectPerpInstrument),
}

/// What the transport does after a command.
#[derive(Clone, Debug)]
pub enum HandlerAction {
    /// Nothing.
    Nothing,
    /// Close the WebSocket client.
    Disconnect,
    /// Send an order placement; should sending fail, report it with
    /// [`FeedHandler::place_order_send_failed`] for this request ID.
    PlaceOrder {
        /// Request ID the order is pending under.
        request_id: i64,
        /// The order placement message.
        order: ArchitectWsPlaceOrder,
    },
    /// Send a cancel request.
    CancelOrder(ArchitectWsCancelOrder),
    /// Send a get open orders request.
    GetOpenOrders(ArchitectWsGetOpenOrders),
}

/// Whether `t` is a message type of the orders stream: heartbeat "h",
/// acknowledged "n", filled "f", canceled "c", rejected "j", expired "x" or
/// cancel rejected "e".
pub open spec fn is_orders_message_type(t: Seq<char>) -> bool {
    ||| t == seq!['h']
    ||| t == seq!['n']
    ||| t == seq!['f']
    ||| t == seq!['c']
    ||| t == seq!['j']
    ||| t == seq!['x']
    ||| t == seq!['e']
}

/// Whether a message list is the single error for an unknown message type `t`.
pub open spec fn is_unknown_type_error(v: Seq<ArchitectOrdersWsMessage>, t: Seq<char>) -> bool {
    &&& v.len() == 1
    &&& v[0] matches ArchitectOrdersWsMessage::Error(e)
    &&& e.code is None
    &&& e.request_id is None
    &&& e.message@ == UNKNOWN_MESSAGE_TYPE@ + t
}

/// Maps the type of an orders message to the domain messages it yields:
/// known types and responses (messages with a request ID) yield none (they
/// are not parsed yet), anything else yields an error.
pub fn classify_message_type(msg_type: &str, has_rid: bool) -> (res: Option<Vec<ArchitectOrdersWsMessage>>)
    ensures
        is_orders_message_type(msg_type@) || has_rid ==> res is None,
        !is_orders_message_type(msg_type@) && !has_rid ==> (res matches Some(v) && is_unknown_type_error(
            v@,
            msg_type@,
        )),
{
    if msg_type.unicode_len() == 1 {
        let c = msg_type.get_char(0);
        assert(msg_type@ =~= seq![c]);
        if c == 'h' || c == 'n' || c == 'f' || c == 'c' || c == 'j' || c == 'x' || c == 'e' {
            return None;
        }
    }
    if has_rid {
        return None;
    }
    let mut message = UNKNOWN_MESSAGE_TYPE.to_owned();
    message.append(msg_type);
    let mut v: Vec<ArchitectOrdersWsMessage> = Vec::new();
    v.push(ArchitectOrdersWsMessage::Error(ArchitectWsError::new(message)));
    Some(v)
}

/// Whether `added` are the domain messages a received frame yields: the
/// reconnection signal yields `Reconnected`; a JSON object with a string
/// `"t"` field of unknown type and no `"rid"` field yields the error for that
/// type; any other frame yields nothing.
pub open spec fn orders_messages_of(msg: RawMessage, added: Seq<ArchitectOrdersWsMessage>) -> bool {
    match msg {
        RawMessage::Text(text) => if text@ == RECONNECTED@ {
            added == seq![ArchitectOrdersWsMessage::Reconnected]
        } else {
            match json_object_of(text@) {
                Some(fields) => match field_str(fields, MESSAGE_TYPE_KEY@) {
                    Some(t) => if is_orders_message_type(t) || fields.contains_key(REQUEST_ID_KEY@) {
                        added.len() == 0
                    } else {
                        is_unknown_type_error(added, t)
                    },
                    None => added.len() == 0,
                },
                None => added.len() == 0,
            }
        },
        _ => added.len() == 0,
    }
}

/// Parses a received frame into domain messages (see
/// [`orders_messages_of`]); `None` where it yields none.
pub fn parse_raw_message(msg: &RawMessage) -> (res: Option<Vec<ArchitectOrdersWsMessage>>)
    ensures
        res is None <==> orders_messages_of(*msg, Seq::empty()),
        res matches Some(v) ==> orders_messages_of(*msg, v@),
{
    match msg {
        RawMessage::Text(text) => match inspect_text_frame(text.as_str()) {
            TextFrame::Reconnected => {
                let mut v: Vec<ArchitectOrdersWsMessage> = Vec::new();
                v.push(ArchitectOrdersWsMessage::Reconnected);
                assert(v@ =~= seq![ArchitectOrdersWsMessage::Reconnected]);
                Some(v)
            },
            TextFrame::Object { msg_type: Some(t), has_rid } => {
                classify_message_type(t.as_str(), has_rid)
            },
            _ => None,
        },
        _ => None,
    }
}

/// Builds a cancel order request.
fn cancel_order_request(request_id: i64, order_id: &str) -> (m: ArchitectWsCancelOrder)
    ensures
        m.rid == request_id,
        m.t@ == CANCEL_ORDER_TYPE@,
        m.oid@ == order_id@,
{
    ArchitectWsCancelOrder { rid: request_id, t: CANCEL_ORDER_TYPE.to_owned(), oid: order_id.to_owned() }
}

/// Builds a get open orders request.
fn get_open_orders_request(request_id: i64) -> (m: ArchitectWsGetOpenOrders)
    ensures
        m.rid == request_id,
        m.t@ == GET_OPEN_ORDERS_TYPE@,
{
    ArchitectWsGetOpenOrders { rid: request_id, t: GET_OPEN_ORDERS_TYPE.to_owned() }
}

/// An order placement whose sending failed leaves the pending requests as
/// they were before the placement, when its request ID was not pending yet.
pub proof fn lemma_failed_placement_leaves_no_trace(
    pending: Map<i64, (Seq<char>, Seq<char>)>,
    request_id: i64,
    entry: (Seq<char>, Seq<char>),
)
    requires
        !pending.contains_key(request_id),
    ensures
        pending.insert(request_id, entry).remove(request_id) == pending,
{
    assert(pending.insert(request_id, entry).remove(request_id) =~= pending);
}

/// State of the orders handler: whether the transport has a client, whether
/// the session is authenticated, the instrument cache, the pending order
/// requests and the domain messages not yet handed out.
pub struct FeedHandler {
    has_client: bool,
    authenticated: bool,
    instruments: InstrumentCache,
    pending_orders: PendingOrders,
    message_queue: VecDeque<ArchitectOrdersWsMessage>,
}

impl FeedHandler {
    /// Whether the transport has a WebSocket client.
    pub closed spec fn has_client_view(&self) -> bool {
        self.has_client
    }

    /// Whether authentication has succeeded.
    pub closed spec fn authenticated_view(&self) -> bool {
        self.authenticated
    }

    /// The cached instruments, keyed by symbol.
    pub closed spec fn instruments_view(&self) -> Map<Seq<char>, ArchitectPerpInstrument> {
        self.instruments.entries()
    }

    /// The pending order requests: request ID to (client order ID, symbol).
    pub closed spec fn pending_view(&self) -> Map<i64, (Seq<char>, Seq<char>)> {
        self.pending_orders.entries()
    }

    /// The queued domain messages, oldest first.
    pub closed spec fn queue_view(&self) -> Seq<ArchitectOrdersWsMessage> {
        self.message_queue@
    }

    /// Creates a handler with no client, not authenticated, with no
    /// instruments, no pending requests and no messages.
    pub fn new() -> (h: Self)
        ensures
            !h.has_client_view(),
            !h.authenticated_view(),
            h.instruments_view() == Map::<Seq<char>, ArchitectPerpInstrument>::empty(),
            h.pending_view() == Map::<i64, (Seq<char>, Seq<char>)>::empty(),
            h.queue_view() == Seq::<ArchitectOrdersWsMessage>::empty(),
    {
        FeedHandler {
            has_client: false,
            authenticated: false,
            instruments: InstrumentCache::new(),
            pending_orders: PendingOrders::new(),
            message_queue: VecDeque::new(),
        }
    }

    /// Handles a command from the outer client and says what the transport
    /// must do.
    pub fn handle_command(&mut self, cmd: HandlerCommand) -> (action: HandlerAction)
        ensures
            !(cmd is Authenticate) ==> final(self).queue_view() == old(self).queue_view()
                && final(self).authenticated_view() == old(self).authenticated_view(),
            !(cmd is InitializeInstruments || cmd is UpdateInstrument) ==> final(self).instruments_view()
                == old(self).instruments_view(),
            !(cmd is PlaceOrder) ==> final(self).pending_view() == old(self).pending_view(),
            !(cmd is SetClient || cmd is Disconnect) ==> final(self).has_client_view()
                == old(self).has_client_view(),
            cmd is SetClient ==> final(self).has_client_view() && action is Nothing,
            cmd is Disconnect ==> !final(self).has_client_view() && (old(self).has_client_view()
                ==> action is Disconnect) && (!old(self).has_client_view() ==> action is Nothing),
            cmd is Authenticate ==> {
                &&& final(self).authenticated_view()
                &&& final(self).queue_view() == old(self).queue_view().push(
                    ArchitectOrdersWsMessage::Authenticated,
                )
                &&& action is Nothing
            },
            cmd matches HandlerCommand::PlaceOrder { request_id, order, metadata } ==> {
                &&& old(self).has_client_view() ==> {
                    &&& final(self).pending_view() == old(self).pending_view().insert(
                        request_id,
                        (metadata.client_order_id@, metadata.symbol@),
                    )
                    &&& action matches HandlerAction::PlaceOrder { request_id: r, order: o }
                    &&& r == request_id
                    &&& o == order
                }
                &&& !old(self).has_client_view() ==> {
                    &&& final(self).pending_view() == old(self).pending_view().insert(
                        request_id,
                        (metadata.client_order_id@, metadata.symbol@),
                    ).remove(request_id)
                    &&& action is Nothing
                }
            },
            cmd matches HandlerCommand::CancelOrder { request_id, order_id } ==> {
                &&& old(self).has_client_view() ==> (action matches HandlerAction::CancelOrder(m)
                    && m.rid == request_id && m.t@ == CANCEL_ORDER_TYPE@ && m.oid@ == order_id@)
                &&& !old(self).has_client_view() ==> action is Nothing
            },
            cmd matches HandlerCommand::GetOpenOrders { request_id } ==> {
                &&& old(self).has_client_view() ==> (action matches HandlerAction::GetOpenOrders(m)
                    && m.rid == request_id && m.t@ == GET_OPEN_ORDERS_TYPE@)
                &&& !old(self).has_client_view() ==> action is Nothing
            },
            cmd matches HandlerCommand::InitializeInstruments(v) ==> final(self).instruments_view()
                == cache_all(old(self).instruments_view(), v@) && action is Nothing,
            cmd matches HandlerCommand::InitializeInstruments(v) ==> forall|i: int|
                0 <= i < v@.len() ==> final(self).instruments_view().contains_key(
                    #[trigger] v@[i].symbol@,
                ),
            cmd matches HandlerCommand::UpdateInstrument(i) ==> final(self).instruments_view()
                == old(self).instruments_view().insert(i.symbol@, i) && action is Nothing,
    {
        match cmd {
            HandlerCommand::SetClient => {
                self.has_client = true;
                HandlerAction::Nothing
            },
            HandlerCommand::Disconnect => {
                if self.has_client {
                    self.has_client = false;
                    HandlerAction::Disconnect
                } else {
                    HandlerAction::Nothing
                }
            },
            HandlerCommand::Authenticate { token: _ } => {
                self.authenticated = true;
                self.message_queue.push_back(ArchitectOrdersWsMessage::Authenticated);
                HandlerAction::Nothing
            },
            HandlerCommand::PlaceOrder { request_id, order, metadata } => {
                self.pending_orders.insert(request_id, metadata);
                if self.has_client {
                    HandlerAction::PlaceOrder { request_id, order }
                } else {
                    self.pending_orders.remove(request_id);
                    HandlerAction::Nothing
                }
            },
            HandlerCommand::CancelOrder { request_id, order_id } => {
                if self.has_client {
                    HandlerAction::CancelOrder(cancel_order_request(request_id, order_id.as_str()))
                } else {
                    HandlerAction::Nothing
                }
            },
            HandlerCommand::GetOpenOrders { request_id } => {
                if self.has_client {
                    HandlerAction::GetOpenOrders(get_open_orders_request(request_id))
                } else {
                    HandlerAction::Nothing
                }
            },
            HandlerCommand::InitializeInstruments(instruments) => {
                self.instruments.insert_all(instruments);
                HandlerAction::Nothing
            },
            HandlerCommand::UpdateInstrument(instrument) => {
                self.instruments.insert(instrument);
                HandlerAction::Nothing
            },
        }
    }

    /// Records that sending an order placement failed: the request is no
    /// longer pending.
    pub fn place_order_send_failed(&mut self, request_id: i64)
        ensures
            final(self).pending_view() == old(self).pending_view().remove(request_id),
            final(self).has_client_view() == old(self).has_client_view(),
            final(self).authenticated_view() == old(self).authenticated_view(),
            final(self).instruments_view() == old(self).instruments_view(),
            final(self).queue_view() == old(self).queue_view(),
    {
        self.pending_orders.remove(request_id);
    }

    /// Handles a frame from the venue: a ping is answered with a pong while
    /// there is a client; any other frame is parsed and its domain messages
    /// are queued behind those already waiting.
    pub fn handle_raw_message(&mut self, msg: RawMessage) -> (action: RawAction)
        ensures
            final(self).has_client_view() == old(self).has_client_view(),
            final(self).authenticated_view() == old(self).authenticated_view(),
            final(self).instruments_view() == old(self).instruments_view(),
            final(self).pending_view() == old(self).pending_view(),
            msg matches RawMessage::Ping(d) ==> {
                &&& final(self).queue_view() == old(self).queue_view()
                &&& old(self).has_client_view() ==> (action matches RawAction::Pong(p) && p@ == d@)
                &&& !old(self).has_client_view() ==> action is Nothing
            },
            !(msg is Ping) ==> action is Nothing && exists|added: Seq<ArchitectOrdersWsMessage>|
                final(self).queue_view() == old(self).queue_view() + added && orders_messages_of(
                    msg,
                    added,
                ),
            msg matches RawMessage::Text(text) && text@ == RECONNECTED@ ==> final(self).queue_view()
                == old(self).queue_view().push(ArchitectOrdersWsMessage::Reconnected),
            !(msg is Text) ==> final(self).queue_view() == old(self).queue_view(),
    {
        match msg {
            RawMessage::Ping(data) => {
                if self.has_client {
                    RawAction::Pong(data)
                } else {
                    RawAction::Nothing
                }
            },
            other => {
                let parsed = parse_raw_message(&other);
                let ghost before = self.message_queue@;
                let ghost mut added = Seq::<ArchitectOrdersWsMessage>::empty();
                match parsed {
                    Some(messages) => {
                        proof {
                            added = messages@;
                        }
                        self.enqueue_all(messages);
                    },
                    None => {
                        assert(self.message_queue@ =~= before + added);
                    },
                }
                assert(self.queue_view() == old(self).queue_view() + added);
                RawAction::Nothing
            },
        }
    }

    /// Appends messages to the queue in order.
    fn enqueue_all(&mut self, messages: Vec<ArchitectOrdersWsMessage>)
        ensures
            final(self).message_queue@ == old(self).message_queue@ + messages@,
            final(self).has_client == old(self).has_client,
            final(self).authenticated == old(self).authenticated,
            final(self).instruments == old(self).instruments,
            final(self).pending_orders == old(self).pending_orders,
    {
        let ghost start = self.message_queue@;
        let ghost orig = messages@;
        let mut rest = messages;
        let n = rest.len();
        let mut k: usize = 0;
        assert(orig.skip(0) =~= orig);
        assert(start + orig.take(0) =~= start);
        while rest.len() > 0
            invariant
                k <= orig.len(),
                orig.len() == n,
                k + rest@.len() == orig.len(),
                rest@ == orig.skip(k as int),
                self.message_queue@ == start + orig.take(k as int),
                self.has_client == old(self).has_client,
                self.authenticated == old(self).authenticated,
                self.instruments == old(self).instruments,
                self.pending_orders == old(self).pending_orders,
            decreases rest.len(),
        {
            let m = rest.remove(0);
            proof {
                assert(orig.take(k + 1) =~= orig.take(k as int).push(orig[k as int]));
                assert(orig.skip(k + 1) =~= orig.skip(k as int).drop_first());
            }
            self.message_queue.push_back(m);
            k = k + 1;
        }
        assert(orig.take(k as int) =~= orig);
    }

    /// Hands out the oldest queued message, if any.
    pub fn pop_message(&mut self) -> (msg: Option<ArchitectOrdersWsMessage>)
        ensures
            old(self).queue_view().len() == 0 ==> msg is None && final(self).queue_view()
                == old(self).queue_view(),
            old(self).queue_view().len() > 0 ==> msg == Some(old(self).queue_view()[0])
                && final(self).queue_view() == old(self).queue_view().drop_first(),
            final(self).has_client_view() == old(self).has_client_view(),
            final(self).authenticated_view() == old(self).authenticated_view(),
            final(self).instruments_view() == old(self).instruments_view(),
            final(self).pending_view() == old(self).pending_view(),
    {
        self.message_queue.pop_front()
    }

    /// Whether authentication has succeeded.
    pub fn is_authenticated(&self) -> (b: bool)
        ensures
            b == self.authenticated_view(),
    {
        self.authenticated
    }

    /// Looks up a pending order request.
    pub fn pending_order(&self, request_id: i64) -> (res: Option<&OrderMetadata>)
        ensures
            res is Some <==> self.pending_view().contains_key(request_id),
            res matches Some(v) ==> (v.client_order_id@, v.symbol@) == self.pending_view()[request_id],
    {
        self.pending_orders.get(request_id)
    }

    /// Looks up a cached instrument by symbol.
    pub fn instrument(&self, symbol: &str) -> (res: Option<&ArchitectPerpInstrument>)
        ensures
            res is Some <==> self.instruments_view().contains_key(symbol@),
            res matches Some(v) ==> *v == self.instruments_view()[symbol@],
    {
        self.instruments.get(symbol)
    }
}

} // verus!
