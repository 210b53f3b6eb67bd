//! Order management stream.

pub mod handler;
