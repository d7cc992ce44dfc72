//! Authentication and decoding of price-oracle updates and governance
//! instructions for a target chain contract.
//!
//! - `governance`: the governance instruction wire codec, with its laws.
//! - `state`: the trust configuration and the source checks.
//! - `contract`: instantiation and the governance pipeline.
//! - `price`, `accumulator`: decoded feeds from the legacy batch and the
//!   Merkle accumulator update formats.
//! - `query`: selection of feeds for the two price queries.

pub mod accumulator;
pub mod contract;
pub mod error;
pub mod governance;
pub mod msg;
pub mod price;
pub mod query;
pub mod state;
