use vstd::prelude::*;

use crate::ids::ActorId;

pub use crate::feeds::{HubCmd, QueryRequest};

verus! {

/// The price data of the oracle, as the engine's clients exchange it.
pub type BridgePriceFeed = crate::feeds::PriceFeed;

pub type BridgeGasFeed = crate::feeds::GasFeed;

pub type BridgeNewsSummary = crate::feeds::NewsSummary;

pub type BridgeMarketFeed = crate::feeds::MarketFeed;

pub type BridgeDatetimeFeed = crate::feeds::DatetimeFeed;

/// Everything the oracle holds, at a block.
pub type BridgeSnapshot = crate::bridge::state::BridgeSnapshot;

/// The oracle's answer.
pub type QueryReply = crate::bridge::state::QueryReply;

/// The engine's whole state.
pub struct StrategyState {
    pub bridge_pid: ActorId,
    pub network_pid: ActorId,
    pub owner: ActorId,
    /// Every recommendation made, oldest first.
    pub recommendations: Vec<Recommendation>,
    pub total_analyzed: u64,
    pub total_posted: u64,
    pub last_analysis_block: u32,
}

/// A recommendation on one symbol.
#[derive(Debug)]
pub struct Recommendation {
    pub id: u64,
    /// `momentum` or `value`.
    pub rec_type: String,
    pub symbol: Option<String>,
    pub title: String,
    pub body: String,
    /// In percent.
    pub confidence: u32,
    pub created_block: u32,
    pub posted: bool,
}

/// The figures of one symbol to analyse.
#[derive(Debug)]
pub struct PriceEntry {
    pub symbol: String,
    pub price_usd_micro: u64,
    pub change_24h_bps: i32,
    pub volume_24h_usd: u64,
}

/// A recommendation as the engine hands it out.
#[derive(Debug)]
pub struct RecommendationView {
    pub id: u64,
    pub rec_type: String,
    pub title: String,
    pub body: String,
    pub confidence: u32,
    pub created_block: u32,
    pub posted: bool,
}

#[derive(Debug, Clone, Copy, PartialEq, Eq, Structural)]
pub struct StrategyStats {
    pub total_analyzed: u64,
    pub total_posted: u64,
    pub last_analysis_block: u32,
    pub recommendations_count: u32,
}

/// Why the engine refuses a message; nothing changes then.
#[derive(Debug, Clone, Copy, PartialEq, Eq, Structural)]
pub enum StrategyError {
    /// The caller of an owner-only method is not the owner.
    OwnerOnly,
}

impl StrategyError {
    /// The text the program fails with.
    pub fn message(&self) -> (r: &'static str)
        ensures
            r@ == "Owner only"@,
    {
        match self {
            StrategyError::OwnerOnly => "Owner only",
        }
    }
}

impl Clone for Recommendation {
    fn clone(&self) -> (r: Self)
        ensures
            r == *self,
    {
        Recommendation {
            id: self.id,
            rec_type: self.rec_type.clone(),
            symbol: match &self.symbol {
                Some(s) => Some(s.clone()),
                None => None,
            },
            title: self.title.clone(),
            body: self.body.clone(),
            confidence: self.confidence,
            created_block: self.created_block,
            posted: self.posted,
        }
    }
}

/// `v` shows recommendation `r`.
pub open spec fn shows(v: RecommendationView, r: Recommendation) -> bool {
    &&& v.id == r.id
    &&& v.rec_type == r.rec_type
    &&& v.title == r.title
    &&& v.body == r.body
    &&& v.confidence == r.confidence
    &&& v.created_block == r.created_block
    &&& v.posted == r.posted
}

impl Recommendation {
    /// The recommendation as it is handed out.
    pub fn to_view(&self) -> (v: RecommendationView)
        ensures
            shows(v, *self),
    {
        RecommendationView {
            id: self.id,
            rec_type: self.rec_type.clone(),
            title: self.title.clone(),
            body: self.body.clone(),
            confidence: self.confidence,
            created_block: self.created_block,
            posted: self.posted,
        }
    }
}

} // verus!
