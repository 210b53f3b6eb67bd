//! Verified core of the Architect exchange adapter: request parameters, wire
//! message models, decimal field parsing, instrument definitions and the
//! decision logic of the HTTP and WebSocket clients.

pub mod common;
pub mod http;
pub mod python;
pub mod websocket;
