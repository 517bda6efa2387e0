use vstd::prelude::*;

use crate::feeds::{copy_prices, GasFeed, PriceFeed, QueryRequest};
use crate::flow::state::{QueryReply, Snapshot};
use crate::ids::ActorId;
use crate::strmap::{insert_entry, keys_sorted, lemma_first_not_below, lookup, StrMap};
use crate::text::{to_uppercase, upper_text};
use vstd::wrapping::u32_specs;

verus! {

/// The oracle data the orchestrator keeps for its conditions and triggers.
pub struct CachedBridgeData {
    pub prices: StrMap<PriceFeed>,
    /// The gas data of the last full reply; none before one came.
    pub gas: Option<GasFeed>,
    /// The block of the last reply that refreshed the cache.
    pub updated_at_block: u32,
}

/// What the cache holds, each key by its text.
pub struct CacheView {
    pub prices: Seq<(Seq<char>, PriceFeed)>,
    pub gas: Option<GasFeed>,
    pub updated_at_block: u32,
}

impl View for CachedBridgeData {
    type V = CacheView;

    open spec fn view(&self) -> CacheView {
        CacheView { prices: self.prices@, gas: self.gas, updated_at_block: self.updated_at_block }
    }
}

/// What an optional cache holds.
pub open spec fn cache_view(c: Option<CachedBridgeData>) -> Option<CacheView> {
    match c {
        Some(x) => Some(x@),
        None => None,
    }
}

/// The cache after the oracle's reply `reply` at `block`: an `All` reply
/// replaces it with its prices and gas; a price reply stores that price under
/// its symbol, stamped with `block`, keeping the rest; either makes the cache
/// fresh at `block`. Any other reply leaves it.
pub open spec fn reply_cache(old: Option<CacheView>, reply: QueryReply, block: u32) -> Option<CacheView> {
    match reply {
        QueryReply::All(snap) => Some(
            CacheView {
                prices: reinserted(snap.prices@),
                gas: Some(snap.gas),
                updated_at_block: block,
            },
        ),
        QueryReply::Price(Some(f)) => Some(
            CacheView {
                prices: insert_entry(
                    match old {
                        Some(c) => c.prices,
                        None => Seq::empty(),
                    },
                    f.symbol@,
                    PriceFeed { updated_at_block: block, ..f },
                ),
                gas: match old {
                    Some(c) => c.gas,
                    None => None,
                },
                updated_at_block: block,
            },
        ),
        _ => old,
    }
}

/// The cached prices are in key order (or nothing is cached).
pub open spec fn cache_sorted(c: Option<CacheView>) -> bool {
    match c {
        Some(x) => keys_sorted(x.prices),
        None => true,
    }
}

/// How many blocks cached prices stay usable.
pub const CACHE_TTL_BLOCKS: u32 = 100;

/// A query message for the oracle.
pub struct BridgeQuery {
    pub to: ActorId,
    pub query: QueryRequest,
    pub gas_limit: u128,
}

/// The message that sends `query` to the oracle.
pub fn query_bridge(bridge_pid: ActorId, query: QueryRequest, gas_limit: u128) -> (r: BridgeQuery)
    ensures
        r == (BridgeQuery { to: bridge_pid, query, gas_limit }),
{
    BridgeQuery { to: bridge_pid, query, gas_limit }
}

/// The message that asks the oracle for everything it holds.
pub fn query_bridge_all(bridge_pid: ActorId, gas_limit: u128) -> (r: BridgeQuery)
    ensures
        r.to == bridge_pid,
        r.gas_limit == gas_limit,
        r.query.query_type@ == "all"@,
        r.query.symbol is None,
        r.query.keys is None,
{
    BridgeQuery {
        to: bridge_pid,
        query: QueryRequest { query_type: "all".to_owned(), symbol: None, keys: None },
        gas_limit,
    }
}

/// The cache is recent enough at `block` (the difference wraps as the
/// program is built).
pub open spec fn cache_fresh(c: CacheView, block: u32) -> bool {
    u32_specs::wrapping_sub(block, c.updated_at_block) <= CACHE_TTL_BLOCKS
}

/// The cached price of the upper-cased `symbol`, while the cache is fresh.
pub open spec fn cached_price(cache: Option<CacheView>, symbol: Seq<char>, block: u32) -> Option<u64> {
    match cache {
        Some(c) => if cache_fresh(c, block) {
            match lookup(c.prices, upper_text(symbol)) {
                Some(p) => Some(p.price_usd_micro),
                None => None,
            }
        } else {
            None
        },
        None => None,
    }
}

/// The cached gas fee; the largest value when no gas data is cached.
pub open spec fn cached_gas(cache: Option<CacheView>) -> u64 {
    match cache {
        Some(c) => match c.gas {
            Some(g) => g.current_fee_micro,
            None => u64::MAX,
        },
        None => u64::MAX,
    }
}

/// The entries of a map built by storing `entries` one after the other.
pub open spec fn reinserted(entries: Seq<(Seq<char>, PriceFeed)>) -> Seq<(Seq<char>, PriceFeed)>
    decreases entries.len(),
{
    if entries.len() == 0 {
        Seq::empty()
    } else {
        insert_entry(reinserted(entries.drop_last()), entries.last().0, entries.last().1)
    }
}

/// Storing the entries of a map in key order, one after the other, rebuilds
/// the map.
pub proof fn lemma_reinserted_sorted(entries: Seq<(Seq<char>, PriceFeed)>)
    requires
        keys_sorted(entries),
    ensures
        reinserted(entries) == entries,
    decreases entries.len(),
{
    if entries.len() > 0 {
        let prev = entries.drop_last();
        assert(keys_sorted(prev)) by {
            assert forall|i: int, j: int| 0 <= i < j < prev.len() implies crate::text::text_lt(
                #[trigger] prev[i].0,
                #[trigger] prev[j].0,
            ) by {
                assert(prev[i] == entries[i] && prev[j] == entries[j]);
            }
        }
        lemma_reinserted_sorted(prev);
        let k = entries.last().0;
        assert forall|j: int| 0 <= j < prev.len() implies crate::text::text_lt((#[trigger] prev[j]).0, k) by {
            assert(prev[j] == entries[j]);
        }
        lemma_first_not_below(prev, k, prev.len() as int);
        assert(prev.insert(prev.len() as int, (k, entries.last().1)) =~= entries);
    }
}

/// Read after refresh: after an `All` reply at `block` whose prices are in
/// key order, a price read within the time to live is the reply's price of
/// the upper-cased symbol; a read after it finds none.
pub proof fn lemma_cache_read_after_refresh(
    old: Option<CacheView>,
    snap: Snapshot,
    block: u32,
    later: u32,
    symbol: Seq<char>,
)
    requires
        keys_sorted(snap.prices@),
    ensures
        u32_specs::wrapping_sub(later, block) <= CACHE_TTL_BLOCKS ==> cached_price(
            reply_cache(old, QueryReply::All(snap), block),
            symbol,
            later,
        ) == match lookup(snap.prices@, upper_text(symbol)) {
            Some(p) => Some(p.price_usd_micro),
            None => None,
        },
        u32_specs::wrapping_sub(later, block) > CACHE_TTL_BLOCKS ==> cached_price(
            reply_cache(old, QueryReply::All(snap), block),
            symbol,
            later,
        ) is None,
{
    lemma_reinserted_sorted(snap.prices@);
}

/// Read after a price reply: right after the oracle answers a price query at
/// `block`, the cache gives that price for its symbol, in any letter case
/// that upper-cases to it.
pub proof fn lemma_cache_read_after_price(old: Option<CacheView>, f: PriceFeed, block: u32, symbol: Seq<char>)
    requires
        cache_sorted(old),
        f.symbol@ == upper_text(symbol),
    ensures
        cached_price(reply_cache(old, QueryReply::Price(Some(f)), block), symbol, block) == Some(
            f.price_usd_micro,
        ),
{
    let prices = match old {
        Some(c) => c.prices,
        None => Seq::empty(),
    };
    crate::strmap::lemma_lookup_after_insert(
        prices,
        f.symbol@,
        PriceFeed { updated_at_block: block, ..f },
        f.symbol@,
    );
}

/// What a reply does to the cache: a full reply makes it fresh at `block`
/// with the reply's gas; a price reply makes it fresh at `block`, keeps its
/// gas (none when there was no cache) and every price under another key;
/// any other reply leaves it as it was.
pub proof fn lemma_cache_reply_effects(old: Option<CacheView>, reply: QueryReply, block: u32, key: Seq<char>)
    requires
        cache_sorted(old),
    ensures
        match reply {
            QueryReply::All(snap) => reply_cache(old, reply, block) matches Some(c) && c.gas == Some(
                snap.gas,
            ) && c.updated_at_block == block,
            QueryReply::Price(Some(f)) => reply_cache(old, reply, block) matches Some(c)
                && c.updated_at_block == block && c.gas == (match old {
                Some(o) => o.gas,
                None => None,
            }) && (key != f.symbol@ ==> lookup(c.prices, key) == match old {
                Some(o) => lookup(o.prices, key),
                None => None,
            }),
            _ => reply_cache(old, reply, block) == old,
        },
{
    if let QueryReply::Price(Some(f)) = reply {
        let prices = match old {
            Some(c) => c.prices,
            None => Seq::empty(),
        };
        crate::strmap::lemma_lookup_after_insert(
            prices,
            f.symbol@,
            PriceFeed { updated_at_block: block, ..f },
            key,
        );
    }
}

pub fn get_cached_price(cache: &Option<CachedBridgeData>, symbol: &str, block: u32) -> (r: Option<u64>)
    ensures
        r == cached_price(cache_view(*cache), symbol@, block),
{
    match cache {
        Some(c) => {
            if block.wrapping_sub(c.updated_at_block) <= CACHE_TTL_BLOCKS {
                let upper = to_uppercase(symbol);
                match c.prices.get(upper.as_str()) {
                    Some(p) => Some(p.price_usd_micro),
                    None => None,
                }
            } else {
                None
            }
        },
        None => None,
    }
}

pub fn get_cached_gas(cache: &Option<CachedBridgeData>) -> (r: u64)
    ensures
        r == cached_gas(cache_view(*cache)),
{
    match cache {
        Some(c) => match &c.gas {
            Some(g) => g.current_fee_micro,
            None => u64::MAX,
        },
        None => u64::MAX,
    }
}

/// A copy of the cache.
pub fn copy_cache(cache: &Option<CachedBridgeData>) -> (r: Option<CachedBridgeData>)
    ensures
        cache_view(r) == cache_view(*cache),
{
    match cache {
        Some(c) => Some(
            CachedBridgeData {
                prices: copy_prices(&c.prices),
                gas: match &c.gas {
                    Some(g) => Some(g.clone()),
                    None => None,
                },
                updated_at_block: c.updated_at_block,
            },
        ),
        None => None,
    }
}

/// The oracle's reply `reply` at `block` updates the cache: an `All` reply
/// replaces it with its prices and gas; a price reply stores that price under
/// its symbol, stamped with `block`; either makes the cache fresh at `block`.
/// Any other reply leaves the cache as it is.
pub fn update_cache(cache: &mut Option<CachedBridgeData>, reply: &QueryReply, block: u32)
    requires
        cache_sorted(cache_view(*old(cache))),
    ensures
        cache_view(*final(cache)) == reply_cache(cache_view(*old(cache)), *reply, block),
        cache_sorted(cache_view(*final(cache))),
        !(*reply is All || *reply matches QueryReply::Price(Some(_))) ==> *final(cache) == *old(cache),
{
    match reply {
        QueryReply::All(snapshot) => {
            let mut prices: StrMap<PriceFeed> = StrMap::new();
            let mut i: usize = 0;
            while i < snapshot.prices.entries.len()
                invariant
                    i <= snapshot.prices@.len(),
                    snapshot.prices@.len() == snapshot.prices.entries@.len(),
                    prices.wf(),
                    prices@ == reinserted(snapshot.prices@.take(i as int)),
                decreases snapshot.prices@.len() - i,
            {
                let k = snapshot.prices.entries[i].0.clone();
                let v = snapshot.prices.entries[i].1.clone();
                prices.insert(k, v);
                assert(snapshot.prices@.take(i + 1).drop_last() =~= snapshot.prices@.take(i as int));
                i = i + 1;
            }
            assert(snapshot.prices@.take(i as int) =~= snapshot.prices@);
            *cache = Some(
                CachedBridgeData { prices, gas: Some(snapshot.gas.clone()), updated_at_block: block },
            );
        },
        QueryReply::Price(Some(feed)) => {
            let mut stamped = feed.clone();
            stamped.updated_at_block = block;
            let mut current: Option<CachedBridgeData> = None;
            core::mem::swap(&mut current, cache);
            let ghost before = cache_view(current);
            match current {
                Some(mut c) => {
                    proof {
                        crate::strmap::lemma_lookup_after_insert(c.prices@, feed.symbol@, stamped, feed.symbol@);
                    }
                    c.prices.insert(feed.symbol.clone(), stamped);
                    c.updated_at_block = block;
                    *cache = Some(c);
                    assert(stamped == (PriceFeed { updated_at_block: block, ..*feed }));
                    assert(before == cache_view(*old(cache)));
                },
                None => {
                    let mut prices: StrMap<PriceFeed> = StrMap::new();
                    proof {
                        crate::strmap::lemma_lookup_after_insert(prices@, feed.symbol@, stamped, feed.symbol@);
                    }
                    prices.insert(feed.symbol.clone(), stamped);
                    *cache = Some(CachedBridgeData { prices, gas: None, updated_at_block: block });
                    assert(prices@ =~= insert_entry(Seq::empty(), feed.symbol@, stamped));
                },
            }
        },
        _ => {},
    }
}

} // verus!
