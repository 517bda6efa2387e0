use vstd::prelude::*;

use crate::feeds::{DatetimeFeed, GasFeed, MarketFeed, NewsSummary, PriceFeed, QueryRequest};
use crate::ids::{all_zero, ActorId};
use crate::strmap::{insert_entry, StrMap};

pub use crate::feeds::HubCmd;

verus! {

/// How many headlines the oracle keeps.
pub const MAX_NEWS: usize = 10;

/// A post of the oracle with its addressee.
pub struct HubPost {
    pub to: ActorId,
    pub cmd: HubCmd,
}

/// The oracle's whole state.
pub struct BridgeState {
    pub prices: StrMap<PriceFeed>,
    pub gas: GasFeed,
    /// Headlines, oldest first; at most `MAX_NEWS` of them.
    pub news: Vec<NewsSummary>,
    pub markets: StrMap<MarketFeed>,
    pub datetime: DatetimeFeed,
    pub feeder_address: ActorId,
    pub owner: ActorId,
    pub network_pid: ActorId,
    pub last_updated_block: u32,
    pub last_broadcast_block: u32,
    pub query_count: u64,
    pub update_count: u64,
    pub broadcast_count: u64,
}

/// One update from the feeder; each part that is present replaces or
/// extends what the oracle holds.
pub struct FullUpdatePayload {
    pub prices: Option<Vec<PriceFeed>>,
    pub gas: Option<GasFeed>,
    pub news: Option<Vec<NewsSummary>>,
    pub markets: Option<Vec<MarketFeed>>,
    pub datetime: Option<DatetimeFeed>,
}

/// The answer to a `QueryRequest`.
pub enum QueryReply {
    Price(Option<PriceFeed>),
    Gas(GasFeed),
    News(Vec<NewsSummary>),
    Markets(Vec<MarketFeed>),
    Datetime(DatetimeFeed),
    All(BridgeSnapshot),
    Error(String),
}

/// Everything the oracle holds, at a block.
pub struct BridgeSnapshot {
    pub prices: StrMap<PriceFeed>,
    pub gas: GasFeed,
    pub news: Vec<NewsSummary>,
    pub markets: StrMap<MarketFeed>,
    pub datetime: DatetimeFeed,
    pub block: u32,
}

/// Counters of the oracle.
#[derive(Debug, Clone, Copy, PartialEq, Eq, Structural)]
pub struct BridgeStats {
    pub query_count: u64,
    pub update_count: u64,
    pub broadcast_count: u64,
    pub last_updated_block: u32,
    pub symbols_tracked: u32,
}

/// Constructor arguments of the oracle.
#[derive(Debug, Clone, Copy)]
pub struct InitConfig {
    pub feeder_address: ActorId,
    pub network_pid: ActorId,
}

/// Why the oracle refuses a message.
#[derive(Debug, Clone, Copy, PartialEq, Eq, Structural)]
pub enum BridgeError {
    /// The caller of an update is not the feeder.
    NotFeeder,
    /// The caller is not the owner (owner checks in the form of `ensure_owner`).
    NotOwner,
    /// The caller of an owner-only method is not the owner.
    OwnerOnly,
}

impl BridgeError {
    /// The text the program fails with.
    pub fn message(&self) -> (r: &'static str)
        ensures
            r@ == bridge_error_text(*self),
    {
        match self {
            BridgeError::NotFeeder => "Unauthorized: caller is not the feeder address",
            BridgeError::NotOwner => "Unauthorized: caller is not the owner",
            BridgeError::OwnerOnly => "Owner only",
        }
    }
}

pub open spec fn bridge_error_text(e: BridgeError) -> Seq<char> {
    match e {
        BridgeError::NotFeeder => "Unauthorized: caller is not the feeder address"@,
        BridgeError::NotOwner => "Unauthorized: caller is not the owner"@,
        BridgeError::OwnerOnly => "Owner only"@,
    }
}

impl BridgeState {
    /// Both maps sorted by key, and at most `MAX_NEWS` headlines.
    pub open spec fn wf(&self) -> bool {
        &&& self.prices.wf()
        &&& self.markets.wf()
        &&& self.news@.len() <= MAX_NEWS
    }
}

impl Default for BridgeState {
    fn default() -> (r: Self)
        ensures
            r.wf(),
            r.prices@.len() == 0,
            r.news@.len() == 0,
            r.markets@.len() == 0,
            r.gas.current_fee_micro == 0,
            r.gas.finalized_hash@.len() == 0,
            r.datetime.unix_ts == 0,
            r.datetime.utc_string@.len() == 0,
            all_zero(r.feeder_address.bytes),
            all_zero(r.owner.bytes),
            all_zero(r.network_pid.bytes),
            r.last_updated_block == 0,
            r.last_broadcast_block == 0,
            r.query_count == 0,
            r.update_count == 0,
            r.broadcast_count == 0,
    {
        BridgeState {
            prices: StrMap::new(),
            gas: GasFeed::default(),
            news: Vec::new(),
            markets: StrMap::new(),
            datetime: DatetimeFeed::default(),
            feeder_address: ActorId::zero(),
            owner: ActorId::zero(),
            network_pid: ActorId::zero(),
            last_updated_block: 0,
            last_broadcast_block: 0,
            query_count: 0,
            update_count: 0,
            broadcast_count: 0,
        }
    }
}

/// A price as stored: stamped with the block of the update.
pub open spec fn stamped_price(p: PriceFeed, block: u32) -> PriceFeed {
    PriceFeed { updated_at_block: block, ..p }
}

/// A market as stored: stamped with the block of the update.
pub open spec fn stamped_market(m: MarketFeed, block: u32) -> MarketFeed {
    MarketFeed { updated_at_block: block, ..m }
}

/// Gas data as stored: stamped with the block of the update.
pub open spec fn stamped_gas(g: GasFeed, block: u32) -> GasFeed {
    GasFeed { updated_at_block: block, ..g }
}

/// Date and time as stored: stamped with the block of the update.
pub open spec fn stamped_datetime(d: DatetimeFeed, block: u32) -> DatetimeFeed {
    DatetimeFeed { updated_at_block: block, ..d }
}

/// The price entries after storing `items` one after the other, each under
/// its own symbol.
pub open spec fn stored_prices(
    s: Seq<(Seq<char>, PriceFeed)>,
    items: Seq<PriceFeed>,
    block: u32,
) -> Seq<(Seq<char>, PriceFeed)>
    decreases items.len(),
{
    if items.len() == 0 {
        s
    } else {
        let prev = stored_prices(s, items.drop_last(), block);
        insert_entry(prev, items.last().symbol@, stamped_price(items.last(), block))
    }
}

/// The market entries after storing `items` one after the other, each under
/// its own market id.
pub open spec fn stored_markets(
    s: Seq<(Seq<char>, MarketFeed)>,
    items: Seq<MarketFeed>,
    block: u32,
) -> Seq<(Seq<char>, MarketFeed)>
    decreases items.len(),
{
    if items.len() == 0 {
        s
    } else {
        let prev = stored_markets(s, items.drop_last(), block);
        insert_entry(prev, items.last().market_id@, stamped_market(items.last(), block))
    }
}

/// The headlines after appending `items` one by one, dropping the oldest
/// whenever `MAX_NEWS` are held.
pub open spec fn kept_news(old: Seq<NewsSummary>, items: Seq<NewsSummary>) -> Seq<NewsSummary>
    decreases items.len(),
{
    if items.len() == 0 {
        old
    } else {
        let prev = kept_news(old, items.drop_last());
        let base = if prev.len() >= MAX_NEWS {
            prev.drop_first()
        } else {
            prev
        };
        base.push(items.last())
    }
}

/// The last `n` elements of `s` (all of them when there are fewer).
pub open spec fn newest<T>(s: Seq<T>, n: nat) -> Seq<T> {
    if s.len() <= n {
        s
    } else {
        s.skip(s.len() - n)
    }
}

/// Law of the headline list: it holds the newest `MAX_NEWS` headlines of
/// what it held and what came in, oldest first.
pub proof fn lemma_news_window(old: Seq<NewsSummary>, items: Seq<NewsSummary>)
    requires
        old.len() <= MAX_NEWS,
    ensures
        kept_news(old, items) == newest(old + items, MAX_NEWS as nat),
        kept_news(old, items).len() <= MAX_NEWS,
    decreases items.len(),
{
    if items.len() > 0 {
        lemma_news_window(old, items.drop_last());
        let prev = kept_news(old, items.drop_last());
        let all_prev = old + items.drop_last();
        let all = old + items;
        assert(all =~= all_prev.push(items.last()));
        if prev.len() >= MAX_NEWS {
            assert(all_prev.len() >= MAX_NEWS);
            assert(prev.drop_first().push(items.last()) =~= newest(all, MAX_NEWS as nat));
        } else {
            assert(all_prev.len() < MAX_NEWS);
            assert(prev.push(items.last()) =~= newest(all, MAX_NEWS as nat));
        }
    }
}

} // verus!
