//! Streaming client core for the Binance exchange: feed descriptors, the
//! decoder that turns raw frames into typed events, and the multiplexer that
//! merges any number of feeds into one sequence of events.

pub mod client;
pub mod decimal;
pub mod error;
pub mod json;
pub mod model;
pub mod text;
