//! An off-chain metadata service for the Cardano token registry: the
//! registry's JSON files are read into memory and served by subject.

pub mod api;
pub mod json;
pub mod server;
