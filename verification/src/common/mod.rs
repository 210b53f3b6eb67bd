//! Definitions shared by the HTTP and WebSocket layers.

pub mod consts;
pub mod credential;
pub mod decimal;
pub mod enums;
pub mod fixed;
pub mod parse;
pub mod text;
