//! Constants of the Architect integration.

use vstd::prelude::*;

verus! {

/// Venue identifier under which Architect instruments are registered.
pub const ARCHITECT_VENUE: &'static str = "ARCHITECT";

/// Sandbox HTTP API base URL.
pub const ARCHITECT_HTTP_SANDBOX_URL: &'static str = "https://sandbox.x.architect.co/api";

/// Production HTTP API base URL.
pub const ARCHITECT_HTTP_PRODUCTION_URL: &'static str = "https://x.architect.co/api";

/// Default HTTP API base URL (the sandbox).
pub const ARCHITECT_HTTP_URL: &'static str = ARCHITECT_HTTP_SANDBOX_URL;

/// Sandbox orders API base URL.
pub const ARCHITECT_ORDERS_SANDBOX_URL: &'static str = "https://sandbox.x.architect.co/orders";

/// Production orders API base URL.
pub const ARCHITECT_ORDERS_PRODUCTION_URL: &'static str = "https://x.architect.co/orders";

/// Sandbox market data WebSocket URL.
pub const ARCHITECT_WS_MD_SANDBOX_URL: &'static str = "wss://sandbox.x.architect.co/md/ws";

/// Production market data WebSocket URL.
pub const ARCHITECT_WS_MD_PRODUCTION_URL: &'static str = "wss://x.architect.co/md/ws";

/// Sandbox orders WebSocket URL.
pub const ARCHITECT_WS_ORDERS_SANDBOX_URL: &'static str = "wss://sandbox.x.architect.co/orders/ws";

/// Production orders WebSocket URL.
pub const ARCHITECT_WS_ORDERS_PRODUCTION_URL: &'static str = "wss://x.architect.co/orders/ws";

} // verus!
