use vstd::prelude::*;

use crate::bridge::auth::ensure_feeder;
use crate::bridge::broadcast::{announces, bridge_body, broadcast_due, check_and_broadcast};
use crate::bridge::state::{
    kept_news, lemma_news_window, stamped_datetime, stamped_gas, stamped_price, stored_markets,
    stored_prices, BridgeError, BridgeSnapshot, BridgeState, BridgeStats, FullUpdatePayload, HubPost,
    QueryReply, MAX_NEWS,
};
use crate::feeds::{
    clone_news, copy_markets, copy_prices, market_values, DatetimeFeed, GasFeed, MarketFeed,
    NewsSummary, PriceFeed, QueryRequest,
};
use crate::ids::ActorId;
use crate::strmap::{entry_values, insert_entry, lookup, StrMap};
use crate::text::{
    ascii_case_insensitive_eq, eq_ignore_ascii_case, lower_text, str_equals, to_lowercase,
    to_uppercase, upper_text,
};
use vstd::wrapping::u64_specs;

verus! {

/// The oracle program: created once, it holds the service and its state.
pub struct VaraBridgeProgram {
    pub service: VaraBridgeService,
}

/// The oracle's service: every message of the oracle is a method here.
pub struct VaraBridgeService {
    pub state: BridgeState,
}

/// `snap` holds everything `s` holds, taken at `block`.
pub open spec fn snapshot_of(snap: BridgeSnapshot, s: BridgeState, block: u32) -> bool {
    &&& snap.prices@ == s.prices@
    &&& snap.gas == s.gas
    &&& snap.news@ == s.news@
    &&& snap.markets@ == s.markets@
    &&& snap.datetime == s.datetime
    &&& snap.block == block
}

/// The price stored under the upper-cased `symbol`.
pub open spec fn price_of(s: BridgeState, symbol: Seq<char>) -> Option<PriceFeed> {
    lookup(s.prices@, upper_text(symbol))
}

/// The answer of the oracle in state `s` to `req` at `block`.
pub open spec fn answers(r: QueryReply, s: BridgeState, req: QueryRequest, block: u32) -> bool {
    answer_for(r, s, lower_text(req.query_type@), req, block)
}

/// The keys a request names; none when it names none.
pub open spec fn requested_keys(req: QueryRequest) -> Seq<String> {
    match req.keys {
        Some(k) => k@,
        None => Seq::empty(),
    }
}

/// `snap` holds what `s` holds for `keys`, taken at `block`: each key's
/// price and market (the key upper-cased), the headlines when some key is
/// "news" in any letter case, and always gas and date.
pub open spec fn selection_of(snap: BridgeSnapshot, s: BridgeState, keys: Seq<String>, block: u32) -> bool {
    &&& snap.prices@ == selected_prices(s.prices@, keys)
    &&& snap.markets@ == selected_markets(s.markets@, keys)
    &&& snap.news@ == if asks_news(keys) {
        s.news@
    } else {
        Seq::empty()
    }
    &&& snap.gas == s.gas
    &&& snap.datetime == s.datetime
    &&& snap.block == block
}

/// `r` answers `req` read as a query of type `q`.
pub open spec fn answer_for(r: QueryReply, s: BridgeState, q: Seq<char>, req: QueryRequest, block: u32) -> bool {
    if q == "price"@ {
        r == QueryReply::Price(
            match req.symbol {
                Some(sym) => price_of(s, sym@),
                None => None,
            },
        )
    } else if q == "gas"@ {
        r == QueryReply::Gas(s.gas)
    } else if q == "news"@ {
        r matches QueryReply::News(v) && v@ == s.news@
    } else if q == "markets"@ {
        r matches QueryReply::Markets(v) && v@ == entry_values(s.markets@)
    } else if q == "datetime"@ {
        r == QueryReply::Datetime(s.datetime)
    } else if q == "all"@ {
        r matches QueryReply::All(snap) && snapshot_of(snap, s, block)
    } else if q == "snapshot"@ {
        r matches QueryReply::All(snap) && selection_of(snap, s, requested_keys(req), block)
    } else {
        r matches QueryReply::Error(m) && m@ == "Unknown query_type: "@ + req.query_type@
    }
}

/// The prices a snapshot for `keys` holds: each key, upper-cased, that names
/// a stored price.
pub open spec fn selected_prices(
    src: Seq<(Seq<char>, PriceFeed)>,
    keys: Seq<String>,
) -> Seq<(Seq<char>, PriceFeed)>
    decreases keys.len(),
{
    if keys.len() == 0 {
        Seq::empty()
    } else {
        let prev = selected_prices(src, keys.drop_last());
        let upper = upper_text(keys.last()@);
        match lookup(src, upper) {
            Some(p) => insert_entry(prev, upper, p),
            None => prev,
        }
    }
}

/// The markets a snapshot for `keys` holds: each key, upper-cased, that names
/// a stored market.
pub open spec fn selected_markets(
    src: Seq<(Seq<char>, MarketFeed)>,
    keys: Seq<String>,
) -> Seq<(Seq<char>, MarketFeed)>
    decreases keys.len(),
{
    if keys.len() == 0 {
        Seq::empty()
    } else {
        let prev = selected_markets(src, keys.drop_last());
        let upper = upper_text(keys.last()@);
        match lookup(src, upper) {
            Some(m) => insert_entry(prev, upper, m),
            None => prev,
        }
    }
}

/// A snapshot holds just the chosen prices: under a key it holds the stored
/// one exactly when some requested key upper-cases to it, and nothing else.
pub proof fn lemma_selected_prices(src: Seq<(Seq<char>, PriceFeed)>, keys: Seq<String>, k: Seq<char>)
    requires
        crate::strmap::keys_sorted(src),
    ensures
        crate::strmap::keys_sorted(selected_prices(src, keys)),
        lookup(selected_prices(src, keys), k) == if exists|i: int|
            0 <= i < keys.len() && upper_text((#[trigger] keys[i])@) == k {
            lookup(src, k)
        } else {
            None
        },
    decreases keys.len(),
{
    if keys.len() > 0 {
        let init = keys.drop_last();
        let upper = upper_text(keys.last()@);
        lemma_selected_prices(src, init, k);
        lemma_selected_prices(src, init, upper);
        let prev = selected_prices(src, init);
        if let Some(v) = lookup(src, upper) {
            crate::strmap::lemma_lookup_after_insert(prev, upper, v, k);
        }
        if exists|i: int| 0 <= i < init.len() && upper_text((#[trigger] init[i])@) == k {
            let i = choose|i: int| 0 <= i < init.len() && upper_text((#[trigger] init[i])@) == k;
            assert(keys[i] == init[i]);
        }
        if exists|i: int| 0 <= i < keys.len() && upper_text((#[trigger] keys[i])@) == k {
            let i = choose|i: int| 0 <= i < keys.len() && upper_text((#[trigger] keys[i])@) == k;
            if i < init.len() {
                assert(init[i] == keys[i]);
            }
        }
        assert(keys[keys.len() - 1] == keys.last());
    }
}

/// A snapshot holds just the chosen markets: under a key it holds the stored
/// one exactly when some requested key upper-cases to it, and nothing else.
pub proof fn lemma_selected_markets(src: Seq<(Seq<char>, MarketFeed)>, keys: Seq<String>, k: Seq<char>)
    requires
        crate::strmap::keys_sorted(src),
    ensures
        crate::strmap::keys_sorted(selected_markets(src, keys)),
        lookup(selected_markets(src, keys), k) == if exists|i: int|
            0 <= i < keys.len() && upper_text((#[trigger] keys[i])@) == k {
            lookup(src, k)
        } else {
            None
        },
    decreases keys.len(),
{
    if keys.len() > 0 {
        let init = keys.drop_last();
        let upper = upper_text(keys.last()@);
        lemma_selected_markets(src, init, k);
        lemma_selected_markets(src, init, upper);
        let prev = selected_markets(src, init);
        if let Some(v) = lookup(src, upper) {
            crate::strmap::lemma_lookup_after_insert(prev, upper, v, k);
        }
        if exists|i: int| 0 <= i < init.len() && upper_text((#[trigger] init[i])@) == k {
            let i = choose|i: int| 0 <= i < init.len() && upper_text((#[trigger] init[i])@) == k;
            assert(keys[i] == init[i]);
        }
        if exists|i: int| 0 <= i < keys.len() && upper_text((#[trigger] keys[i])@) == k {
            let i = choose|i: int| 0 <= i < keys.len() && upper_text((#[trigger] keys[i])@) == k;
            if i < init.len() {
                assert(init[i] == keys[i]);
            }
        }
        assert(keys[keys.len() - 1] == keys.last());
    }
}

/// Some key is "news" in any letter case.
pub open spec fn asks_news(keys: Seq<String>) -> bool {
    exists|i: int| 0 <= i < keys.len() && ascii_case_insensitive_eq((#[trigger] keys[i])@, "news"@)
}

/// `new` is `old` after the feeder's update `p` at `block`, including the
/// announcement when one is due.
pub open spec fn after_update(
    old: BridgeState,
    new: BridgeState,
    p: FullUpdatePayload,
    block: u32,
) -> bool {
    let due = broadcast_due(old.last_broadcast_block, block);
    &&& new.prices@ == match p.prices {
        Some(v) => stored_prices(old.prices@, v@, block),
        None => old.prices@,
    }
    &&& new.gas == match p.gas {
        Some(g) => stamped_gas(g, block),
        None => old.gas,
    }
    &&& new.news@ == match p.news {
        Some(v) => kept_news(old.news@, v@),
        None => old.news@,
    }
    &&& new.markets@ == match p.markets {
        Some(v) => stored_markets(old.markets@, v@, block),
        None => old.markets@,
    }
    &&& new.datetime == match p.datetime {
        Some(d) => stamped_datetime(d, block),
        None => old.datetime,
    }
    &&& new.feeder_address == old.feeder_address
    &&& new.owner == old.owner
    &&& new.network_pid == old.network_pid
    &&& new.last_updated_block == block
    &&& new.query_count == old.query_count
    &&& new.update_count == u64_specs::wrapping_add(old.update_count, 1)
    &&& new.broadcast_count == if due {
        u64_specs::wrapping_add(old.broadcast_count, 1)
    } else {
        old.broadcast_count
    }
    &&& new.last_broadcast_block == if due {
        block
    } else {
        old.last_broadcast_block
    }
}

/// The posts that go out with a state change: an announcement of `new` to
/// the hub when one was due, else none.
pub open spec fn posts_after(cmds: Seq<HubPost>, old: BridgeState, new: BridgeState, block: u32) -> bool {
    if broadcast_due(old.last_broadcast_block, block) {
        announces(cmds, old.network_pid, bridge_body(new, block))
    } else {
        cmds.len() == 0
    }
}

impl VaraBridgeProgram {
    /// A fresh oracle owned by `owner` (the account that creates it).
    pub fn new(owner: ActorId, feeder_address: ActorId, network_pid: ActorId) -> (r: Self)
        ensures
            r.service.state.wf(),
            r.service.state.owner == owner,
            r.service.state.feeder_address == feeder_address,
            r.service.state.network_pid == network_pid,
            r.service.state.prices@.len() == 0,
            r.service.state.markets@.len() == 0,
            r.service.state.news@.len() == 0,
            r.service.state.last_updated_block == 0,
            r.service.state.last_broadcast_block == 0,
            r.service.state.query_count == 0,
            r.service.state.update_count == 0,
            r.service.state.broadcast_count == 0,
    {
        let mut state = BridgeState::default();
        state.feeder_address = feeder_address;
        state.owner = owner;
        state.network_pid = network_pid;
        VaraBridgeProgram { service: VaraBridgeService { state } }
    }

    /// The service of the program.
    pub fn vara_bridge(&mut self) -> (r: &mut VaraBridgeService)
        ensures
            *r == old(self).service,
            final(self).service == *final(r),
    {
        &mut self.service
    }
}

impl VaraBridgeService {
    /// The service over `state`.
    pub fn new(state: BridgeState) -> (r: Self)
        ensures
            r.state == state,
    {
        VaraBridgeService { state }
    }

    /// The feeder's update: stores the prices and markets (each stamped with
    /// `block`, under its symbol or market id), replaces gas and date when
    /// given, appends the headlines keeping the newest `MAX_NEWS`, records the
    /// block, counts the update and announces when due. Any caller but the
    /// feeder is refused and nothing changes.
    pub fn update_all(&mut self, caller: ActorId, block: u32, payload: FullUpdatePayload) -> (r:
        Result<Vec<HubPost>, BridgeError>)
        requires
            old(self).state.wf(),
        ensures
            final(self).state.wf(),
            caller != old(self).state.feeder_address ==> r == Err::<Vec<HubPost>, BridgeError>(
                BridgeError::NotFeeder,
            ) && final(self).state == old(self).state,
            caller == old(self).state.feeder_address ==> r is Ok && after_update(
                old(self).state,
                final(self).state,
                payload,
                block,
            ) && posts_after(r->Ok_0@, old(self).state, final(self).state, block),
    {
        if let Err(e) = ensure_feeder(&caller, &self.state.feeder_address) {
            return Err(e);
        }
        let ghost s0 = self.state;
        if let Some(prices) = payload.prices {
            let mut i: usize = 0;
            while i < prices.len()
                invariant
                    i <= prices@.len(),
                    self.state.prices.wf(),
                    self.state.prices@ == stored_prices(s0.prices@, prices@.take(i as int), block),
                    self.state == (BridgeState { prices: self.state.prices, ..s0 }),
                decreases prices@.len() - i,
            {
                let p = &prices[i];
                let stamped = PriceFeed {
                    symbol: p.symbol.clone(),
                    price_usd_micro: p.price_usd_micro,
                    change_24h_bps: p.change_24h_bps,
                    market_cap_usd: p.market_cap_usd,
                    volume_24h_usd: p.volume_24h_usd,
                    updated_at_block: block,
                };
                self.state.prices.insert(p.symbol.clone(), stamped);
                assert(prices@.take(i + 1).drop_last() =~= prices@.take(i as int));
                i = i + 1;
            }
            assert(prices@.take(i as int) =~= prices@);
        }
        let ghost s1 = self.state;
        if let Some(gas) = payload.gas {
            self.state.gas = GasFeed { updated_at_block: block, ..gas };
        }
        let ghost s2 = self.state;
        if let Some(news) = payload.news {
            let mut i: usize = 0;
            while i < news.len()
                invariant
                    i <= news@.len(),
                    self.state.news@ == kept_news(s2.news@, news@.take(i as int)),
                    self.state.news@.len() <= MAX_NEWS,
                    self.state == (BridgeState { news: self.state.news, ..s2 }),
                decreases news@.len() - i,
            {
                if self.state.news.len() >= MAX_NEWS {
                    self.state.news.remove(0);
                }
                self.state.news.push(news[i].clone());
                assert(news@.take(i + 1).drop_last() =~= news@.take(i as int));
                i = i + 1;
            }
            assert(news@.take(i as int) =~= news@);
        }
        let ghost s3 = self.state;
        if let Some(markets) = payload.markets {
            let mut i: usize = 0;
            while i < markets.len()
                invariant
                    i <= markets@.len(),
                    self.state.markets.wf(),
                    self.state.markets@ == stored_markets(s3.markets@, markets@.take(i as int), block),
                    self.state == (BridgeState { markets: self.state.markets, ..s3 }),
                decreases markets@.len() - i,
            {
                let m = &markets[i];
                let stamped = MarketFeed {
                    market_id: m.market_id.clone(),
                    question: m.question.clone(),
                    yes_prob_bps: m.yes_prob_bps,
                    volume_usd: m.volume_usd,
                    closes_at: m.closes_at,
                    updated_at_block: block,
                };
                self.state.markets.insert(m.market_id.clone(), stamped);
                assert(markets@.take(i + 1).drop_last() =~= markets@.take(i as int));
                i = i + 1;
            }
            assert(markets@.take(i as int) =~= markets@);
        }
        if let Some(dt) = payload.datetime {
            self.state.datetime = DatetimeFeed { updated_at_block: block, ..dt };
        }
        self.state.last_updated_block = block;
        self.state.update_count = self.state.update_count.wrapping_add(1);
        let cmds = check_and_broadcast(&mut self.state, block);
        Ok(cmds)
    }

    /// Owner only: makes `new_feeder` the feeder. Any other caller is refused
    /// and nothing changes.
    pub fn set_feeder(&mut self, caller: ActorId, new_feeder: ActorId) -> (r: Result<(), BridgeError>)
        ensures
            caller != old(self).state.owner ==> r == Err::<(), BridgeError>(BridgeError::OwnerOnly)
                && final(self).state == old(self).state,
            caller == old(self).state.owner ==> r is Ok && final(self).state == (BridgeState {
                feeder_address: new_feeder,
                ..old(self).state
            }),
    {
        if !caller.same(&self.state.owner) {
            return Err(BridgeError::OwnerOnly);
        }
        self.state.feeder_address = new_feeder;
        Ok(())
    }

    /// The price stored under `symbol` upper-cased.
    pub fn get_price(&self, symbol: String) -> (r: Option<PriceFeed>)
        ensures
            r == price_of(self.state, symbol@),
    {
        let upper = to_uppercase(symbol.as_str());
        match self.state.prices.get(upper.as_str()) {
            Some(p) => Some(p.clone()),
            None => None,
        }
    }

    pub fn get_gas(&self) -> (r: GasFeed)
        ensures
            r == self.state.gas,
    {
        self.state.gas.clone()
    }

    /// The headlines, oldest first.
    pub fn get_news(&self) -> (r: Vec<NewsSummary>)
        ensures
            r@ == self.state.news@,
    {
        clone_news(&self.state.news)
    }

    /// The markets, in market id order.
    pub fn get_markets(&self) -> (r: Vec<MarketFeed>)
        ensures
            r@ == entry_values(self.state.markets@),
    {
        market_values(&self.state.markets)
    }

    pub fn get_datetime(&self) -> (r: DatetimeFeed)
        ensures
            r == self.state.datetime,
    {
        self.state.datetime.clone()
    }

    /// Everything the oracle holds, at `block`.
    pub fn get_all(&self, block: u32) -> (r: BridgeSnapshot)
        ensures
            snapshot_of(r, self.state, block),
    {
        BridgeSnapshot {
            prices: copy_prices(&self.state.prices),
            gas: self.state.gas.clone(),
            news: clone_news(&self.state.news),
            markets: copy_markets(&self.state.markets),
            datetime: self.state.datetime.clone(),
            block,
        }
    }

    /// A snapshot holding, for each of `keys` upper-cased, the price and the
    /// market stored under it; the headlines when some key is "news" in any
    /// letter case; and always gas and date.
    pub fn get_snapshot(&self, keys: Vec<String>, block: u32) -> (r: BridgeSnapshot)
        requires
            self.state.wf(),
        ensures
            r.prices@ == selected_prices(self.state.prices@, keys@),
            r.markets@ == selected_markets(self.state.markets@, keys@),
            r.news@ == if asks_news(keys@) {
                self.state.news@
            } else {
                Seq::empty()
            },
            r.gas == self.state.gas,
            r.datetime == self.state.datetime,
            r.block == block,
            r.prices.wf(),
            r.markets.wf(),
    {
        let mut snapshot = BridgeSnapshot {
            prices: StrMap::new(),
            gas: self.state.gas.clone(),
            news: Vec::new(),
            markets: StrMap::new(),
            datetime: self.state.datetime.clone(),
            block,
        };
        let mut i: usize = 0;
        while i < keys.len()
            invariant
                i <= keys@.len(),
                snapshot.prices.wf(),
                snapshot.markets.wf(),
                snapshot.prices@ == selected_prices(self.state.prices@, keys@.take(i as int)),
                snapshot.markets@ == selected_markets(self.state.markets@, keys@.take(i as int)),
                snapshot.news@ == if asks_news(keys@.take(i as int)) {
                    self.state.news@
                } else {
                    Seq::empty()
                },
                snapshot.gas == self.state.gas,
                snapshot.datetime == self.state.datetime,
                snapshot.block == block,
            decreases keys@.len() - i,
        {
            let key = &keys[i];
            assert(keys@.take(i + 1).drop_last() =~= keys@.take(i as int));
            let upper = to_uppercase(key.as_str());
            match self.state.prices.get(upper.as_str()) {
                Some(price) => {
                    snapshot.prices.insert(upper.clone(), price.clone());
                },
                None => {},
            }
            match self.state.markets.get(upper.as_str()) {
                Some(market) => {
                    snapshot.markets.insert(upper.clone(), market.clone());
                },
                None => {},
            }
            if eq_ignore_ascii_case(key.as_str(), "news") {
                snapshot.news = clone_news(&self.state.news);
                assert(keys@.take(i + 1)[i as int] == *key);
                assert(asks_news(keys@.take(i + 1)));
            } else {
                assert(asks_news(keys@.take(i + 1)) == asks_news(keys@.take(i as int))) by {
                    if asks_news(keys@.take(i + 1)) {
                        let j = choose|j: int|
                            0 <= j < keys@.take(i + 1).len() && ascii_case_insensitive_eq(
                                (#[trigger] keys@.take(i + 1)[j])@,
                                "news"@,
                            );
                        assert(j != i);
                        assert(keys@.take(i as int)[j] == keys@.take(i + 1)[j]);
                    }
                    if asks_news(keys@.take(i as int)) {
                        let j = choose|j: int|
                            0 <= j < keys@.take(i as int).len() && ascii_case_insensitive_eq(
                                (#[trigger] keys@.take(i as int)[j])@,
                                "news"@,
                            );
                        assert(keys@.take(i as int)[j] == keys@.take(i + 1)[j]);
                    }
                }
            }
            i = i + 1;
        }
        assert(keys@.take(i as int) =~= keys@);
        snapshot
    }

    /// The oracle's counters and the number of symbols tracked.
    pub fn get_stats(&self) -> (r: BridgeStats)
        ensures
            r == (BridgeStats {
                query_count: self.state.query_count,
                update_count: self.state.update_count,
                broadcast_count: self.state.broadcast_count,
                last_updated_block: self.state.last_updated_block,
                symbols_tracked: self.state.prices@.len() as u32,
            }),
    {
        BridgeStats {
            query_count: self.state.query_count,
            update_count: self.state.update_count,
            broadcast_count: self.state.broadcast_count,
            last_updated_block: self.state.last_updated_block,
            symbols_tracked: self.state.prices.len() as u32,
        }
    }

    /// The answer to `request` read as a query of type `kind`: the price of
    /// the upper-cased symbol, gas, news, markets, date, everything, or the
    /// snapshot of the requested keys; any other type is answered with an
    /// error text.
    pub fn answer(&self, kind: &str, request: QueryRequest, block: u32) -> (r: QueryReply)
        requires
            self.state.wf(),
        ensures
            answer_for(r, self.state, kind@, request, block),
    {
        if str_equals(kind, "price") {
            QueryReply::Price(
                match request.symbol {
                    Some(sym) => self.get_price(sym),
                    None => None,
                },
            )
        } else if str_equals(kind, "gas") {
            QueryReply::Gas(self.get_gas())
        } else if str_equals(kind, "news") {
            QueryReply::News(self.get_news())
        } else if str_equals(kind, "markets") {
            QueryReply::Markets(self.get_markets())
        } else if str_equals(kind, "datetime") {
            QueryReply::Datetime(self.get_datetime())
        } else if str_equals(kind, "all") {
            QueryReply::All(self.get_all(block))
        } else if str_equals(kind, "snapshot") {
            let keys = match request.keys {
                Some(k) => k,
                None => Vec::new(),
            };
            QueryReply::All(self.get_snapshot(keys, block))
        } else {
            let mut m = String::new();
            m.append("Unknown query_type: ");
            m.append(request.query_type.as_str());
            QueryReply::Error(m)
        }
    }

    /// Counts the query, answers it by its lower-cased type (price of the
    /// upper-cased symbol, gas, news, markets, date, everything, or the
    /// snapshot of the requested keys; anything else is answered with an
    /// error text) and announces when due.
    pub fn query_and_reply(&mut self, request: QueryRequest, block: u32) -> (r: (
        QueryReply,
        Vec<HubPost>,
    ))
        requires
            old(self).state.wf(),
        ensures
            final(self).state.wf(),
            answers(r.0, old(self).state, request, block),
            final(self).state == (BridgeState {
                query_count: u64_specs::wrapping_add(old(self).state.query_count, 1),
                broadcast_count: final(self).state.broadcast_count,
                last_broadcast_block: final(self).state.last_broadcast_block,
                ..old(self).state
            }),
            broadcast_due(old(self).state.last_broadcast_block, block) ==> final(self).state.broadcast_count
                == u64_specs::wrapping_add(old(self).state.broadcast_count, 1)
                && final(self).state.last_broadcast_block == block,
            !broadcast_due(old(self).state.last_broadcast_block, block) ==> final(self).state.broadcast_count
                == old(self).state.broadcast_count && final(self).state.last_broadcast_block
                == old(self).state.last_broadcast_block,
            posts_after(r.1@, old(self).state, final(self).state, block),
    {
        let q = to_lowercase(request.query_type.as_str());
        let reply = self.answer(q.as_str(), request, block);
        self.state.query_count = self.state.query_count.wrapping_add(1);
        let cmds = check_and_broadcast(&mut self.state, block);
        (reply, cmds)
    }
}

/// What each kind of query is answered, read by its lower-cased type: a
/// price query with the price stored under the upper-cased symbol (none
/// without a symbol); gas, news, markets and date with what is stored (the
/// markets' values in key order); "all" with everything at `block`;
/// "snapshot" with the gas, date and block and either all or none of the
/// headlines; and only a type that is none of these with an error naming it.
pub proof fn lemma_query_kinds(r: QueryReply, s: BridgeState, req: QueryRequest, block: u32)
    requires
        answers(r, s, req, block),
    ensures
        ({
            let q = lower_text(req.query_type@);
            &&& q == "price"@ ==> r == QueryReply::Price(
                match req.symbol {
                    Some(sym) => lookup(s.prices@, upper_text(sym@)),
                    None => None,
                },
            )
            &&& q == "gas"@ ==> r == QueryReply::Gas(s.gas)
            &&& q == "news"@ ==> (r matches QueryReply::News(v) && v@ == s.news@)
            &&& q == "markets"@ ==> (r matches QueryReply::Markets(v) && v@ == s.markets@.map_values(
                |e: (Seq<char>, MarketFeed)| e.1,
            ))
            &&& q == "datetime"@ ==> r == QueryReply::Datetime(s.datetime)
            &&& q == "all"@ ==> (r matches QueryReply::All(snap) && snap.prices@ == s.prices@
                && snap.markets@ == s.markets@ && snap.news@ == s.news@ && snap.gas == s.gas
                && snap.datetime == s.datetime && snap.block == block)
            &&& q == "snapshot"@ ==> (r matches QueryReply::All(snap) && snap.gas == s.gas
                && snap.datetime == s.datetime && snap.block == block && (snap.news@ == s.news@
                || snap.news@.len() == 0))
            &&& (r is Error) <==> (q != "price"@ && q != "gas"@ && q != "news"@ && q != "markets"@
                && q != "datetime"@ && q != "all"@ && q != "snapshot"@)
            &&& r is Error ==> (r matches QueryReply::Error(m) && m@ == "Unknown query_type: "@
                + req.query_type@)
        }),
{
    reveal_strlit("price");
    reveal_strlit("gas");
    reveal_strlit("news");
    reveal_strlit("markets");
    reveal_strlit("datetime");
    reveal_strlit("all");
    reveal_strlit("snapshot");
    assert("gas"@ != "price"@) by {
        assert("gas"@.len() != "price"@.len());
    }
    assert("news"@ != "price"@ && "news"@ != "gas"@) by {
        assert("news"@[0] != "price"@[0] && "news"@.len() != "gas"@.len());
    }
    assert("markets"@ != "price"@ && "markets"@ != "gas"@ && "markets"@ != "news"@) by {
        assert("markets"@.len() != "price"@.len());
    }
    assert("datetime"@ != "price"@ && "datetime"@ != "gas"@ && "datetime"@ != "news"@
        && "datetime"@ != "markets"@) by {
        assert("datetime"@.len() == 8 && "markets"@.len() == 7);
    }
    assert("all"@ != "price"@ && "all"@ != "gas"@ && "all"@ != "news"@ && "all"@ != "markets"@
        && "all"@ != "datetime"@) by {
        assert("all"@[0] != "gas"@[0]);
    }
    assert("snapshot"@ != "price"@ && "snapshot"@ != "gas"@ && "snapshot"@ != "news"@
        && "snapshot"@ != "markets"@ && "snapshot"@ != "datetime"@ && "snapshot"@ != "all"@) by {
        assert("snapshot"@[0] != "datetime"@[0]);
    }
}

/// Law of the oracle: after the feeder stores a price, a price query for
/// that symbol (in any letter case that upper-cases to it) answers it,
/// stamped with the block of the update.
pub proof fn lemma_price_read_after_write(
    old: BridgeState,
    new: BridgeState,
    p: FullUpdatePayload,
    block: u32,
    symbol: Seq<char>,
)
    requires
        old.wf(),
        after_update(old, new, p, block),
        p.prices matches Some(v) && v@.len() > 0 && v@.last().symbol@ == upper_text(symbol),
    ensures
        price_of(new, symbol) == Some(stamped_price(p.prices->Some_0@.last(), block)),
{
    let v = p.prices->Some_0@;
    lemma_stored_prices_sorted(old.prices@, v.drop_last(), block);
    crate::strmap::lemma_lookup_after_insert(
        stored_prices(old.prices@, v.drop_last(), block),
        v.last().symbol@,
        stamped_price(v.last(), block),
        upper_text(symbol),
    );
}

proof fn lemma_stored_prices_frame(s: Seq<(Seq<char>, PriceFeed)>, items: Seq<PriceFeed>, block: u32, key: Seq<char>)
    requires
        crate::strmap::keys_sorted(s),
        forall|i: int| 0 <= i < items.len() ==> (#[trigger] items[i]).symbol@ != key,
    ensures
        lookup(stored_prices(s, items, block), key) == lookup(s, key),
    decreases items.len(),
{
    if items.len() > 0 {
        let init = items.drop_last();
        assert forall|i: int| 0 <= i < init.len() implies (#[trigger] init[i]).symbol@ != key by {
            assert(init[i] == items[i]);
        }
        lemma_stored_prices_frame(s, init, block, key);
        lemma_stored_prices_sorted(s, init, block);
        crate::strmap::lemma_lookup_after_insert(
            stored_prices(s, init, block),
            items.last().symbol@,
            stamped_price(items.last(), block),
            key,
        );
    }
}

/// What an update of the feeder changes: a price under a symbol the update
/// does not name stays as it was; gas and the date are replaced by those
/// given, stamped with the block, else kept; the update is counted and its
/// block recorded; the feeder, the owner, the hub and the query count stay.
pub proof fn lemma_update_effects(
    old: BridgeState,
    new: BridgeState,
    p: FullUpdatePayload,
    block: u32,
    key: Seq<char>,
)
    requires
        old.wf(),
        after_update(old, new, p, block),
        p.prices matches Some(v) ==> forall|i: int| 0 <= i < v@.len() ==> (#[trigger] v@[i]).symbol@ != key,
    ensures
        lookup(new.prices@, key) == lookup(old.prices@, key),
        new.gas == match p.gas {
            Some(g) => GasFeed { updated_at_block: block, ..g },
            None => old.gas,
        },
        new.datetime == match p.datetime {
            Some(d) => DatetimeFeed { updated_at_block: block, ..d },
            None => old.datetime,
        },
        new.update_count == u64_specs::wrapping_add(old.update_count, 1),
        new.last_updated_block == block,
        new.feeder_address == old.feeder_address,
        new.owner == old.owner,
        new.network_pid == old.network_pid,
        new.query_count == old.query_count,
{
    if let Some(v) = p.prices {
        lemma_stored_prices_frame(old.prices@, v@, block, key);
    }
}

/// Storing prices keeps the price entries sorted.
pub proof fn lemma_stored_prices_sorted(s: Seq<(Seq<char>, PriceFeed)>, items: Seq<PriceFeed>, block: u32)
    requires
        crate::strmap::keys_sorted(s),
    ensures
        crate::strmap::keys_sorted(stored_prices(s, items, block)),
    decreases items.len(),
{
    if items.len() > 0 {
        lemma_stored_prices_sorted(s, items.drop_last(), block);
        crate::strmap::lemma_lookup_after_insert(
            stored_prices(s, items.drop_last(), block),
            items.last().symbol@,
            stamped_price(items.last(), block),
            items.last().symbol@,
        );
    }
}

/// Law of the headline list under updates: after an update, the oracle holds
/// the newest `MAX_NEWS` headlines of what it held and what the update
/// brought, oldest first.
pub proof fn lemma_update_keeps_newest_news(
    old: BridgeState,
    new: BridgeState,
    p: FullUpdatePayload,
    block: u32,
)
    requires
        old.wf(),
        after_update(old, new, p, block),
        p.news is Some,
    ensures
        new.news@ == crate::bridge::state::newest(old.news@ + p.news->Some_0@, MAX_NEWS as nat),
        new.news@.len() <= MAX_NEWS,
{
    lemma_news_window(old.news@, p.news->Some_0@);
}

} // verus!
