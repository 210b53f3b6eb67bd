//! Market data stream.

pub mod handler;
