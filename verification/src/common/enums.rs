//! Enumerations of the Architect API.

use vstd::prelude::*;

use crate::common::consts::{
    ARCHITECT_HTTP_PRODUCTION_URL, ARCHITECT_HTTP_SANDBOX_URL, ARCHITECT_ORDERS_PRODUCTION_URL,
    ARCHITECT_ORDERS_SANDBOX_URL, ARCHITECT_WS_MD_PRODUCTION_URL, ARCHITECT_WS_MD_SANDBOX_URL,
    ARCHITECT_WS_ORDERS_PRODUCTION_URL, ARCHITECT_WS_ORDERS_SANDBOX_URL,
};

verus! {

/// Architect deployment environment.
#[derive(Clone, Copy, Debug, PartialEq, Eq, Structural)]
pub enum ArchitectEnvironment {
    /// The sandbox (paper trading) environment.
    Sandbox,
    /// The production environment.
    Production,
}

/// The HTTP API base URL of an environment.
pub open spec fn http_url_of(env: ArchitectEnvironment) -> Seq<char> {
    match env {
        ArchitectEnvironment::Sandbox => ARCHITECT_HTTP_SANDBOX_URL@,
        ArchitectEnvironment::Production => ARCHITECT_HTTP_PRODUCTION_URL@,
    }
}

/// The orders API base URL of an environment.
pub open spec fn orders_url_of(env: ArchitectEnvironment) -> Seq<char> {
    match env {
        ArchitectEnvironment::Sandbox => ARCHITECT_ORDERS_SANDBOX_URL@,
        ArchitectEnvironment::Production => ARCHITECT_ORDERS_PRODUCTION_URL@,
    }
}

/// The market data WebSocket URL of an environment.
pub open spec fn ws_md_url_of(env: ArchitectEnvironment) -> Seq<char> {
    match env {
        ArchitectEnvironment::Sandbox => ARCHITECT_WS_MD_SANDBOX_URL@,
        ArchitectEnvironment::Production => ARCHITECT_WS_MD_PRODUCTION_URL@,
    }
}

/// The orders WebSocket URL of an environment.
pub open spec fn ws_orders_url_of(env: ArchitectEnvironment) -> Seq<char> {
    match env {
        ArchitectEnvironment::Sandbox => ARCHITECT_WS_ORDERS_SANDBOX_URL@,
        ArchitectEnvironment::Production => ARCHITECT_WS_ORDERS_PRODUCTION_URL@,
    }
}

/// Law: each environment has its own URLs, as documented: the production
/// URLs are on `x.architect.co`, the sandbox URLs on
/// `sandbox.x.architect.co`, and for each kind of URL the two environments
/// differ.
pub proof fn law_environment_urls()
    ensures
        http_url_of(ArchitectEnvironment::Sandbox) == "https://sandbox.x.architect.co/api"@,
        http_url_of(ArchitectEnvironment::Production) == "https://x.architect.co/api"@,
        orders_url_of(ArchitectEnvironment::Sandbox) == "https://sandbox.x.architect.co/orders"@,
        orders_url_of(ArchitectEnvironment::Production) == "https://x.architect.co/orders"@,
        ws_md_url_of(ArchitectEnvironment::Sandbox) == "wss://sandbox.x.architect.co/md/ws"@,
        ws_md_url_of(ArchitectEnvironment::Production) == "wss://x.architect.co/md/ws"@,
        ws_orders_url_of(ArchitectEnvironment::Sandbox) == "wss://sandbox.x.architect.co/orders/ws"@,
        ws_orders_url_of(ArchitectEnvironment::Production) == "wss://x.architect.co/orders/ws"@,
        http_url_of(ArchitectEnvironment::Sandbox) != http_url_of(ArchitectEnvironment::Production),
        orders_url_of(ArchitectEnvironment::Sandbox) != orders_url_of(
            ArchitectEnvironment::Production,
        ),
        ws_md_url_of(ArchitectEnvironment::Sandbox) != ws_md_url_of(ArchitectEnvironment::Production),
        ws_orders_url_of(ArchitectEnvironment::Sandbox) != ws_orders_url_of(
            ArchitectEnvironment::Production,
        ),
{
    reveal_strlit("https://sandbox.x.architect.co/api");
    reveal_strlit("https://x.architect.co/api");
    reveal_strlit("https://sandbox.x.architect.co/orders");
    reveal_strlit("https://x.architect.co/orders");
    reveal_strlit("wss://sandbox.x.architect.co/md/ws");
    reveal_strlit("wss://x.architect.co/md/ws");
    reveal_strlit("wss://sandbox.x.architect.co/orders/ws");
    reveal_strlit("wss://x.architect.co/orders/ws");
    assert(http_url_of(ArchitectEnvironment::Sandbox)[8] != http_url_of(ArchitectEnvironment::Production)[8]);
    assert(orders_url_of(ArchitectEnvironment::Sandbox)[8] != orders_url_of(ArchitectEnvironment::Production)[8]);
    assert(ws_md_url_of(ArchitectEnvironment::Sandbox)[6] != ws_md_url_of(ArchitectEnvironment::Production)[6]);
    assert(ws_orders_url_of(ArchitectEnvironment::Sandbox)[6] != ws_orders_url_of(ArchitectEnvironment::Production)[6]);
}

impl ArchitectEnvironment {
    /// Returns the HTTP API base URL of the environment.
    pub fn http_url(&self) -> (u: &'static str)
        ensures
            u@ == http_url_of(*self),
            *self is Sandbox ==> u@ == ARCHITECT_HTTP_SANDBOX_URL@,
            *self is Production ==> u@ == ARCHITECT_HTTP_PRODUCTION_URL@,
    {
        match self {
            ArchitectEnvironment::Sandbox => ARCHITECT_HTTP_SANDBOX_URL,
            ArchitectEnvironment::Production => ARCHITECT_HTTP_PRODUCTION_URL,
        }
    }

    /// Returns the orders API base URL of the environment.
    pub fn orders_url(&self) -> (u: &'static str)
        ensures
            u@ == orders_url_of(*self),
            *self is Sandbox ==> u@ == ARCHITECT_ORDERS_SANDBOX_URL@,
            *self is Production ==> u@ == ARCHITECT_ORDERS_PRODUCTION_URL@,
    {
        match self {
            ArchitectEnvironment::Sandbox => ARCHITECT_ORDERS_SANDBOX_URL,
            ArchitectEnvironment::Production => ARCHITECT_ORDERS_PRODUCTION_URL,
        }
    }

    /// Returns the market data WebSocket URL of the environment.
    pub fn ws_md_url(&self) -> (u: &'static str)
        ensures
            u@ == ws_md_url_of(*self),
            *self is Sandbox ==> u@ == ARCHITECT_WS_MD_SANDBOX_URL@,
            *self is Production ==> u@ == ARCHITECT_WS_MD_PRODUCTION_URL@,
    {
        match self {
            ArchitectEnvironment::Sandbox => ARCHITECT_WS_MD_SANDBOX_URL,
            ArchitectEnvironment::Production => ARCHITECT_WS_MD_PRODUCTION_URL,
        }
    }

    /// Returns the orders WebSocket URL of the environment.
    pub fn ws_orders_url(&self) -> (u: &'static str)
        ensures
            u@ == ws_orders_url_of(*self),
            *self is Sandbox ==> u@ == ARCHITECT_WS_ORDERS_SANDBOX_URL@,
            *self is Production ==> u@ == ARCHITECT_WS_ORDERS_PRODUCTION_URL@,
    {
        match self {
            ArchitectEnvironment::Sandbox => ARCHITECT_WS_ORDERS_SANDBOX_URL,
            ArchitectEnvironment::Production => ARCHITECT_WS_ORDERS_PRODUCTION_URL,
        }
    }
}

/// Trading state of an instrument.
#[derive(Clone, Copy, Debug, PartialEq, Eq, Structural)]
pub enum ArchitectInstrumentState {
    /// Open for trading.
    Open,
    /// Trading suspended.
    Suspended,
}

/// Market data subscription level.
#[derive(Clone, Copy, Debug, PartialEq, Eq, Structural)]
pub enum ArchitectMarketDataLevel {
    /// Best bid and offer.
    Level1,
    /// Aggregated price levels.
    Level2,
    /// Individual order quantities.
    Level3,
}

/// Candle width (bar interval).
#[derive(Clone, Copy, Debug, PartialEq, Eq, Structural)]
pub enum ArchitectCandleWidth {
    /// One second.
    Seconds1,
    /// Five seconds.
    Seconds5,
    /// One minute.
    Minutes1,
    /// Five minutes.
    Minutes5,
    /// Fifteen minutes.
    Minutes15,
    /// One hour.
    Hours1,
    /// One day.
    Days1,
}

/// Order side (trade direction).
#[derive(Clone, Copy, Debug, PartialEq, Eq, Structural)]
pub enum ArchitectOrderSide {
    /// Buy ("B").
    Buy,
    /// Sell ("S").
    Sell,
}

/// Order status.
#[derive(Clone, Copy, Debug, PartialEq, Eq, Structural)]
pub enum ArchitectOrderStatus {
    /// Accepted by the venue.
    Accepted,
    /// Partially filled.
    PartiallyFilled,
    /// Completely filled.
    Filled,
    /// Canceled.
    Canceled,
    /// Rejected.
    Rejected,
    /// Expired.
    Expired,
    /// Replaced (amended).
    Replaced,
    /// Done for the trading day.
    DoneForDay,
}

/// Time in force.
#[derive(Clone, Copy, Debug, PartialEq, Eq, Structural)]
pub enum ArchitectTimeInForce {
    /// Good till canceled.
    Gtc,
    /// Immediate or cancel.
    Ioc,
    /// Day order.
    Day,
}

} // verus!
