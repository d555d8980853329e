//! The data that the Flux API exchanges.

pub mod models;
