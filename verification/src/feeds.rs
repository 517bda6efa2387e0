use vstd::prelude::*;

use crate::strmap::{entry_values, StrMap};

verus! {

/// Price of one symbol, in micro-dollars.
#[derive(Debug)]
pub struct PriceFeed {
    pub symbol: String,
    pub price_usd_micro: u64,
    pub change_24h_bps: i32,
    pub market_cap_usd: u64,
    pub volume_24h_usd: u64,
    pub updated_at_block: u32,
}

/// Network fee data.
#[derive(Debug)]
pub struct GasFeed {
    pub current_fee_micro: u64,
    pub suggested_tip: u64,
    pub block_num: u32,
    pub finalized_hash: String,
    pub updated_at_block: u32,
}

/// One news headline.
#[derive(Debug)]
pub struct NewsSummary {
    pub title: String,
    pub source: String,
    pub published_at: u64,
    pub category: String,
}

/// One prediction market.
#[derive(Debug)]
pub struct MarketFeed {
    pub market_id: String,
    pub question: String,
    pub yes_prob_bps: u32,
    pub volume_usd: u64,
    pub closes_at: u64,
    pub updated_at_block: u32,
}

/// Date and time as last fed.
#[derive(Debug)]
pub struct DatetimeFeed {
    pub unix_ts: u64,
    pub utc_string: String,
    pub day_of_week: String,
    pub updated_at_block: u32,
}

/// A request to the oracle: `query_type` is one of price, gas, news,
/// markets, datetime, all (in any letter case).
#[derive(Debug)]
pub struct QueryRequest {
    pub query_type: String,
    pub symbol: Option<String>,
    pub keys: Option<Vec<String>>,
}

/// A post to the network hub: an announcement on the Board, or a Chat post.
#[derive(Debug)]
pub enum HubCmd {
    PostAnnouncement { body: String },
    ChatPost { body: String, mentions: Vec<String> },
}

impl Clone for PriceFeed {
    fn clone(&self) -> (r: Self)
        ensures
            r == *self,
    {
        PriceFeed {
            symbol: self.symbol.clone(),
            price_usd_micro: self.price_usd_micro,
            change_24h_bps: self.change_24h_bps,
            market_cap_usd: self.market_cap_usd,
            volume_24h_usd: self.volume_24h_usd,
            updated_at_block: self.updated_at_block,
        }
    }
}

impl Clone for GasFeed {
    fn clone(&self) -> (r: Self)
        ensures
            r == *self,
    {
        GasFeed {
            current_fee_micro: self.current_fee_micro,
            suggested_tip: self.suggested_tip,
            block_num: self.block_num,
            finalized_hash: self.finalized_hash.clone(),
            updated_at_block: self.updated_at_block,
        }
    }
}

impl Clone for NewsSummary {
    fn clone(&self) -> (r: Self)
        ensures
            r == *self,
    {
        NewsSummary {
            title: self.title.clone(),
            source: self.source.clone(),
            published_at: self.published_at,
            category: self.category.clone(),
        }
    }
}

impl Clone for MarketFeed {
    fn clone(&self) -> (r: Self)
        ensures
            r == *self,
    {
        MarketFeed {
            market_id: self.market_id.clone(),
            question: self.question.clone(),
            yes_prob_bps: self.yes_prob_bps,
            volume_usd: self.volume_usd,
            closes_at: self.closes_at,
            updated_at_block: self.updated_at_block,
        }
    }
}

impl Clone for DatetimeFeed {
    fn clone(&self) -> (r: Self)
        ensures
            r == *self,
    {
        DatetimeFeed {
            unix_ts: self.unix_ts,
            utc_string: self.utc_string.clone(),
            day_of_week: self.day_of_week.clone(),
            updated_at_block: self.updated_at_block,
        }
    }
}

impl Default for GasFeed {
    fn default() -> (r: Self)
        ensures
            r.current_fee_micro == 0,
            r.suggested_tip == 0,
            r.block_num == 0,
            r.finalized_hash@.len() == 0,
            r.updated_at_block == 0,
    {
        GasFeed {
            current_fee_micro: 0,
            suggested_tip: 0,
            block_num: 0,
            finalized_hash: String::new(),
            updated_at_block: 0,
        }
    }
}

impl Default for DatetimeFeed {
    fn default() -> (r: Self)
        ensures
            r.unix_ts == 0,
            r.utc_string@.len() == 0,
            r.day_of_week@.len() == 0,
            r.updated_at_block == 0,
    {
        DatetimeFeed {
            unix_ts: 0,
            utc_string: String::new(),
            day_of_week: String::new(),
            updated_at_block: 0,
        }
    }
}

/// Copies of a list of values whose clones are exact.
pub fn clone_news(v: &Vec<NewsSummary>) -> (r: Vec<NewsSummary>)
    ensures
        r@ == v@,
{
    let r = v.clone();
    assert(r@ =~= v@);
    r
}

/// An exact copy of a price map.
pub fn copy_prices(m: &StrMap<PriceFeed>) -> (r: StrMap<PriceFeed>)
    ensures
        r@ == m@,
{
    let r = m.clone();
    assert(r@ =~= m@);
    r
}

/// An exact copy of a market map.
pub fn copy_markets(m: &StrMap<MarketFeed>) -> (r: StrMap<MarketFeed>)
    ensures
        r@ == m@,
{
    let r = m.clone();
    assert(r@ =~= m@);
    r
}

/// An exact copy of a text-to-text map.
pub fn copy_texts(m: &StrMap<String>) -> (r: StrMap<String>)
    ensures
        r@ == m@,
{
    let r = m.clone();
    assert(r@ =~= m@);
    r
}

/// The prices of a map, in key order.
pub fn price_values(m: &StrMap<PriceFeed>) -> (r: Vec<PriceFeed>)
    ensures
        r@ == entry_values(m@),
{
    let mut r: Vec<PriceFeed> = Vec::new();
    let mut i: usize = 0;
    while i < m.entries.len()
        invariant
            i <= m@.len(),
            m@.len() == m.entries@.len(),
            r@ == entry_values(m@).take(i as int),
        decreases m@.len() - i,
    {
        r.push(m.entries[i].1.clone());
        assert(entry_values(m@).take(i + 1) =~= entry_values(m@).take(i as int).push(m@[i as int].1));
        i = i + 1;
    }
    assert(entry_values(m@).take(i as int) =~= entry_values(m@));
    r
}

/// The markets of a map, in key order.
pub fn market_values(m: &StrMap<MarketFeed>) -> (r: Vec<MarketFeed>)
    ensures
        r@ == entry_values(m@),
{
    let mut r: Vec<MarketFeed> = Vec::new();
    let mut i: usize = 0;
    while i < m.entries.len()
        invariant
            i <= m@.len(),
            m@.len() == m.entries@.len(),
            r@ == entry_values(m@).take(i as int),
        decreases m@.len() - i,
    {
        r.push(m.entries[i].1.clone());
        assert(entry_values(m@).take(i + 1) =~= entry_values(m@).take(i as int).push(m@[i as int].1));
        i = i + 1;
    }
    assert(entry_values(m@).take(i as int) =~= entry_values(m@));
    r
}

} // verus!
