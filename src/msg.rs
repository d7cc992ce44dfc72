use vstd::prelude::*;

use crate::price::{Price, PriceFeed};
use crate::state::PythDataSource;

verus! {

/// Message for a contract migration; it carries nothing.
#[derive(Clone, Copy, Debug, PartialEq, Eq, Structural)]
pub struct MigrateMsg {}

/// The initial configuration of a deployment.
#[derive(Clone, Debug, PartialEq, Eq)]
pub struct InstantiateMsg {
    pub wormhole_contract: String,
    pub data_sources: Vec<PythDataSource>,
    pub governance_source: PythDataSource,
    pub governance_source_index: u32,
    pub governance_sequence_number: u64,
    pub chain_id: u16,
}

/// One feed for each requested identifier, in the order requested.
#[derive(Clone, Debug, PartialEq, Eq)]
pub struct ParsePriceFeedsResponse {
    pub price_feeds: Vec<PriceFeed>,
}

/// The price found by the single-feed query.
#[derive(Clone, Copy, Debug, PartialEq, Eq)]
pub struct ParseSinglePriceFeedResponse {
    pub price: Price,
}

} // verus!
