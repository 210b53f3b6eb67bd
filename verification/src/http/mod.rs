//! Architect REST API: request parameters, response models, instrument
//! parsing and the decision logic of the raw HTTP client.

pub mod client;
pub mod error;
pub mod models;
pub mod parse;
pub mod query;
