//! Word and phrase lookup over a dictionary service and an encyclopedia
//! summary service: query normalization, classification, response shaping
//! and the per-lookup decision state machine.

pub mod text;
pub mod model;
pub mod query;
pub mod dictionary;
pub mod encyclopedia;
pub mod session;
