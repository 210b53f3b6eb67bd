//! Architect WebSocket API: message models and the decision logic of the
//! market data and order stream handlers.

pub mod cache;
pub mod data;
pub mod error;
pub mod frames;
pub mod messages;
pub mod orders;
