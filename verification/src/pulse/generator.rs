use vstd::prelude::*;

use crate::pulse::service::VaraPulseService;
use crate::pulse::templates::short_gas_label;
use crate::pulse::state::{
    DataSnapshot, DataView, PriceFeed, PulseType, QueryReply, StrategyPriceEntry,
};
use crate::text::{
    decimal, has_substring, str_equals, u32_text, u64_text, zero_padded, zero_padded_text, contains,
};
use vstd::wrapping::u64_specs;

verus! {

/// The price under `symbol` in the first pair with that key; 0 when no pair
/// has it.
pub open spec fn price_under(prices: Seq<(String, PriceFeed)>, symbol: Seq<char>) -> u64
    decreases prices.len(),
{
    if prices.len() == 0 {
        0
    } else if prices[0].0@ == symbol {
        prices[0].1.price_usd_micro
    } else {
        price_under(prices.drop_first(), symbol)
    }
}

/// The figures a pulse is written from, read from the oracle's reply; a
/// reply other than `All` gives zeros and empty texts at `block`.
pub open spec fn reply_data(reply: QueryReply, block: u32) -> DataView {
    match reply {
        QueryReply::All(s) => DataView {
            eth_usd: price_under(s.prices@, "ETH"@),
            btc_usd: price_under(s.prices@, "BTC"@),
            vara_usd: price_under(s.prices@, "VARA"@),
            gas_micro: s.gas.current_fee_micro,
            top_news: if s.news@.len() > 0 {
                s.news@[0].title@
            } else {
                Seq::empty()
            },
            top_market: if s.markets@.len() > 0 {
                Some(s.markets@[0].1.question@)
            } else {
                None
            },
            block: s.block,
            utc_string: s.datetime.utc_string@,
        },
        _ => DataView {
            eth_usd: 0,
            btc_usd: 0,
            vara_usd: 0,
            gas_micro: 0,
            top_news: Seq::empty(),
            top_market: None,
            block,
            utc_string: Seq::empty(),
        },
    }
}

/// `e` carries the figures of `p` that the strategy engine reads.
pub open spec fn entry_of(e: StrategyPriceEntry, p: PriceFeed) -> bool {
    &&& e.symbol == p.symbol
    &&& e.price_usd_micro == p.price_usd_micro
    &&& e.change_24h_bps == p.change_24h_bps
    &&& e.volume_24h_usd == p.volume_24h_usd
}

/// The entries for the strategy engine: one per price of an `All` reply, in
/// order; none for any other reply.
pub open spec fn strategy_entries(es: Seq<StrategyPriceEntry>, reply: QueryReply) -> bool {
    match reply {
        QueryReply::All(s) => es.len() == s.prices@.len() && forall|i: int|
            0 <= i < es.len() ==> entry_of(#[trigger] es[i], s.prices@[i].1),
        _ => es.len() == 0,
    }
}

/// The price read for a symbol is that of the first pair keyed by it, and 0
/// when no pair is.
pub proof fn lemma_price_under(prices: Seq<(String, PriceFeed)>, symbol: Seq<char>)
    ensures
        forall|i: int|
            0 <= i < prices.len() && (#[trigger] prices[i]).0@ == symbol && (forall|j: int|
                0 <= j < i ==> (#[trigger] prices[j]).0@ != symbol) ==> price_under(prices, symbol)
                == prices[i].1.price_usd_micro,
        (forall|i: int| 0 <= i < prices.len() ==> (#[trigger] prices[i]).0@ != symbol) ==> price_under(
            prices,
            symbol,
        ) == 0,
    decreases prices.len(),
{
    if prices.len() > 0 {
        let rest = prices.drop_first();
        lemma_price_under(rest, symbol);
        assert forall|i: int|
            0 <= i < prices.len() && (#[trigger] prices[i]).0@ == symbol && (forall|j: int|
                0 <= j < i ==> (#[trigger] prices[j]).0@ != symbol) implies price_under(prices, symbol)
            == prices[i].1.price_usd_micro by {
            if i > 0 {
                assert(prices[0].0@ != symbol);
                assert(rest[i - 1] == prices[i]);
                assert forall|j: int| 0 <= j < i - 1 implies (#[trigger] rest[j]).0@ != symbol by {
                    assert(rest[j] == prices[j + 1]);
                }
            }
        }
        if forall|i: int| 0 <= i < prices.len() ==> (#[trigger] prices[i]).0@ != symbol {
            assert(prices[0].0@ != symbol);
            assert forall|i: int| 0 <= i < rest.len() implies (#[trigger] rest[i]).0@ != symbol by {
                assert(rest[i] == prices[i + 1]);
            }
        }
    }
}

/// The figures a pulse is written from: from a full reply, ETH, BTC and
/// VARA as read by symbol, its gas, its block, the date, the first headline
/// (empty without one) and the first market's question (none without one);
/// from any other reply, zeros and empty texts at `block`.
pub proof fn lemma_reply_figures(reply: QueryReply, block: u32)
    ensures
        ({
            let d = reply_data(reply, block);
            match reply {
                QueryReply::All(s) => d.eth_usd == price_under(s.prices@, "ETH"@) && d.btc_usd
                    == price_under(s.prices@, "BTC"@) && d.vara_usd == price_under(s.prices@, "VARA"@)
                    && d.gas_micro == s.gas.current_fee_micro && d.block == s.block && d.utc_string
                    == s.datetime.utc_string@ && (s.news@.len() > 0 ==> d.top_news == s.news@[0].title@)
                    && (s.news@.len() == 0 ==> d.top_news.len() == 0) && (s.markets@.len() > 0
                    ==> d.top_market == Some(s.markets@[0].1.question@)) && (s.markets@.len() == 0
                    ==> d.top_market is None),
                _ => d.eth_usd == 0 && d.btc_usd == 0 && d.vara_usd == 0 && d.gas_micro == 0
                    && d.block == block && d.top_news.len() == 0 && d.top_market is None
                    && d.utc_string.len() == 0,
            }
        }),
{
}

/// The kind of the next pulse: a milestone every hundredth pulse, else by
/// the 300-block period of `block`, six kinds in turn.
pub open spec fn pulse_type_for(total: u64, d: DataView, block: u32) -> PulseType {
    if total > 0 && total % 100 == 0 {
        PulseType::MilestonePost
    } else {
        let v = (block / 300) % 6;
        if v == 0 {
            PulseType::MarketSummary
        } else if v == 1 {
            if d.gas_micro < 500_000 {
                PulseType::GasTip
            } else {
                PulseType::MarketSummary
            }
        } else if v == 2 {
            PulseType::NewsBrief
        } else if v == 3 {
            if d.top_market is Some {
                PulseType::MarketSpark
            } else {
                PulseType::CreativeSpark
            }
        } else if v == 4 {
            PulseType::AgentTip
        } else {
            PulseType::CreativeSpark
        }
    }
}

/// Which kind of pulse comes next: a milestone exactly when the pulses so
/// far are a positive multiple of one hundred; otherwise, by the 300-block
/// period of `block` taken six at a time, a market summary, a gas tip (a
/// market summary when gas is at 500,000 or more), a news brief, a market
/// spark (a creative spark without a top market), an agent tip, and a
/// creative spark.
pub proof fn lemma_pulse_kinds(total: u64, d: DataView, block: u32)
    ensures
        (pulse_type_for(total, d, block) == PulseType::MilestonePost) <==> (total > 0 && total % 100
            == 0),
        !(total > 0 && total % 100 == 0) ==> ({
            let v = (block / 300) % 6;
            let t = pulse_type_for(total, d, block);
            &&& v == 0 ==> t == PulseType::MarketSummary
            &&& v == 1 ==> t == (if d.gas_micro < 500_000 {
                PulseType::GasTip
            } else {
                PulseType::MarketSummary
            })
            &&& v == 2 ==> t == PulseType::NewsBrief
            &&& v == 3 ==> t == (if d.top_market is Some {
                PulseType::MarketSpark
            } else {
                PulseType::CreativeSpark
            })
            &&& v == 4 ==> t == PulseType::AgentTip
            &&& v == 5 ==> t == PulseType::CreativeSpark
        }),
{
}

/// Dollars and cents of a micro-dollar amount: `$d.cc`.
pub open spec fn eth_text(v: u64) -> Seq<char> {
    "$"@ + decimal((v / 1_000_000) as nat) + "."@ + zero_padded(((v % 1_000_000) / 10_000) as nat, 2)
}

/// Whole dollars of a micro-dollar amount: `$d`.
pub open spec fn btc_text(v: u64) -> Seq<char> {
    "$"@ + decimal((v / 1_000_000) as nat)
}

/// Dollars with four decimals of a micro-dollar amount: `$d.dddd`.
pub open spec fn vara_text(v: u64) -> Seq<char> {
    "$"@ + decimal((v / 1_000_000) as nat) + "."@ + zero_padded(((v % 1_000_000) / 100) as nat, 4)
}

/// The long name of a gas level, in micro-units.
pub open spec fn long_gas_label(g: u64) -> Seq<char> {
    if g < 100_000 {
        "ULTRA LOW - deploy everything"@
    } else if g < 500_000 {
        "LOW - good window"@
    } else if g < 1_000_000 {
        "MODERATE"@
    } else if g < 5_000_000 {
        "HIGH"@
    } else {
        "VERY HIGH"@
    }
}

/// The pulse's gas labels fall on the same bands as the template labels:
/// each long label starts with the short label of its band, and adds a
/// remark only below 500,000 micro-units.
pub proof fn lemma_gas_label_bands(g: u64)
    ensures
        short_gas_label(g).is_prefix_of(long_gas_label(g)),
        long_gas_label(g) == short_gas_label(g) <==> g >= 500_000,
{
    reveal_strlit("ULTRA LOW - deploy everything");
    reveal_strlit("LOW - good window");
    reveal_strlit("MODERATE");
    reveal_strlit("HIGH");
    reveal_strlit("VERY HIGH");
    reveal_strlit("ULTRA LOW");
    reveal_strlit("LOW");
    if g < 100_000 {
        assert(short_gas_label(g) =~= long_gas_label(g).subrange(0, 9));
    } else if g < 500_000 {
        assert(short_gas_label(g) =~= long_gas_label(g).subrange(0, 3));
    } else {
        assert(short_gas_label(g) =~= long_gas_label(g).subrange(0, long_gas_label(g).len() as int));
    }
}

/// The remark on the market, by ETH's whole-dollar price and the gas.
pub open spec fn flavor(d: DataView) -> Seq<char> {
    let eth = d.eth_usd / 1_000_000;
    if eth > 3_000 && d.gas_micro < 200_000 {
        "ETH above $3K and gas is basically free. The stars aligned for deploying agents today."@
    } else if eth < 1_500 {
        "ETH having a rough time. Perfect moment to build agents that profit from volatility."@
    } else if d.gas_micro > 2_000_000 {
        "Gas is spicy right now. Queue your writes or wait - VaraBridge will alert you when it drops."@
    } else {
        "Markets are calm. Good time to register a workflow and let VaraFlow do the watching."@
    }
}

/// The tip on the gas level.
pub open spec fn gas_tip_text(g: u64) -> Seq<char> {
    if g < 200_000 {
        "Gas so low even my grandma could deploy 100 agents today. This is your sign."@
    } else if g < 500_000 {
        "Gas is cheap. Good window to run batch writes, deploy programs, or trigger workflows."@
    } else {
        "Gas is up. Consider queuing your writes. VaraFlow can auto-trigger when gas drops - free to set up."@
    }
}

/// The angle on a headline, by the names it contains.
pub open spec fn news_angle_text(n: Seq<char>) -> Seq<char> {
    if has_substring(n, "bitcoin"@) || has_substring(n, "Bitcoin"@) || has_substring(n, "BTC"@) {
        "BTC making moves. VaraBridge tracks it live. Build a BTC-aware agent today."@
    } else if has_substring(n, "ethereum"@) || has_substring(n, "ETH"@) || has_substring(n, "Ethereum"@) {
        "ETH in the headlines. Query VaraBridge for live price + gas in one message."@
    } else if has_substring(n, "defi"@) || has_substring(n, "DeFi"@) {
        "DeFi evolving fast. VaraFlow can automate yield strategies with conditional branching."@
    } else {
        "Something's happening in crypto. VaraBridge has the data. VaraFlow has the automation."@
    }
}

/// The top market's question, else `default`.
pub open spec fn top_market_or(d: DataView, default: Seq<char>) -> Seq<char> {
    match d.top_market {
        Some(m) => m,
        None => default,
    }
}

/// The idea drawn from a market.
pub open spec fn market_idea_text(m: Seq<char>) -> Seq<char> {
    "Market '"@ + m + "' is trending. Build a settlement agent with VaraFlow: query Bridge for outcome -> conditional branch -> auto-payout."@
}

/// The developer tip of pulse `pulse_num`: five tips in turn.
pub open spec fn agent_tip_text(pulse_num: u64) -> Seq<char> {
    let i = pulse_num % 5;
    if i == 0 {
        "Want live ETH price in your agent? One message to VaraBridge:\n  query_and_reply({ query_type: \"price\", symbol: \"ETH\" })\nNo API key. No scraper. Just on-chain."@
    } else if i == 1 {
        "Building a gas-aware agent? VaraFlow's GasAwareExecution template triggers your workflow automatically when gas drops below your threshold."@
    } else if i == 2 {
        "Need live news in your agent? VaraBridge stores the top 10 crypto headlines, updated every 30 seconds."@
    } else if i == 3 {
        "Building prediction market logic? VaraBridge stores Polymarket top markets with yes/no probabilities."@
    } else {
        "VaraFlow has 6 workflow templates. PriceAlert, MarketSummary, GasAware, OnBridgeUpdate, PulseScheduler, Custom. Register with one message."@
    }
}

/// The project idea of pulse `pulse_num`: five ideas in turn.
pub open spec fn creative_spark_text(pulse_num: u64) -> Seq<char> {
    let i = pulse_num % 5;
    if i == 0 {
        "Build an insurance agent"@
    } else if i == 1 {
        "Build a bounty board for agents"@
    } else if i == 2 {
        "Build a DAO voting coordinator"@
    } else if i == 3 {
        "Build a price-triggered DCA agent"@
    } else {
        "Build a cross-agent reputation scorer"@
    }
}

/// The closing remark of pulse `pulse_num`: five remarks in turn.
pub open spec fn creative_detail_text(pulse_num: u64) -> Seq<char> {
    let i = pulse_num % 5;
    if i == 0 {
        "VaraFlow handles the execution. VaraBridge provides the data. Build it in a weekend."@
    } else if i == 1 {
        "Use VaraFlow's templates to get started in 1 message. No coding required."@
    } else if i == 2 {
        "Register workflows on-chain. They run forever. Autonomous. Immutable."@
    } else if i == 3 {
        "VaraBridge data + VaraFlow conditions = any on-chain automation you can imagine."@
    } else {
        "The Vara Trinity is open for any agent to integrate. Permissionless. Free. Forever."@
    }
}

/// The text of a pulse of kind `t` written from `d`, as pulse number
/// `pulse_num`.
pub open spec fn pulse_text(d: DataView, t: PulseType, pulse_num: u64) -> Seq<char> {
    match t {
        PulseType::MarketSummary => "VaraPulse #"@ + decimal(pulse_num as nat) + " | Block #"@ + decimal(d.block as nat) + "\n-----------------------------\nETH  "@ + eth_text(d.eth_usd) + "  |  BTC  "@ + btc_text(d.btc_usd) + "  |  VARA  "@ + vara_text(d.vara_usd) + "\nGas: "@ + long_gas_label(d.gas_micro) + "\n-----------------------------\n"@ + flavor(d) + "\n--\nLive data: VaraBridge (msg: query_and_reply)\nAutomate: VaraFlow (msg: register_workflow)"@,
        PulseType::GasTip => "VaraPulse #"@ + decimal(pulse_num as nat) + " - GAS ALERT | Block #"@ + decimal(d.block as nat) + "\n-----------------------------\nCurrent gas: "@ + decimal(d.gas_micro as nat) + " ("@ + long_gas_label(d.gas_micro) + ")\n-----------------------------\n"@ + gas_tip_text(d.gas_micro) + "\n--\nVaraBridge gas feed updates every 30s. VaraFlow can auto-trigger your workflow when gas drops."@,
        PulseType::NewsBrief => "VaraPulse #"@ + decimal(pulse_num as nat) + " - News Brief | Block #"@ + decimal(d.block as nat) + "\n-----------------------------\nTop story: "@ + d.top_news + "\n-----------------------------\n"@ + news_angle_text(d.top_news) + "\n--\nFull news feed: VaraBridge query_and_reply({ query_type: \"news\" })"@,
        PulseType::MarketSpark => "VaraPulse #"@ + decimal(pulse_num as nat) + " - Prediction Spark | Block #"@ + decimal(d.block as nat) + "\n-----------------------------\nHot market: "@ + top_market_or(d, "Unknown market"@) + "\n-----------------------------\n"@ + market_idea_text(top_market_or(d, "Unknown market"@)) + "\n--\nPrediction data via VaraBridge query_and_reply({ query_type: \"markets\" })"@,
        PulseType::AgentTip => "VaraPulse #"@ + decimal(pulse_num as nat) + " - Agent Dev Tip | Block #"@ + decimal(d.block as nat) + "\n-----------------------------\n"@ + agent_tip_text(pulse_num) + "\n-----------------------------\nNo external API calls. No custom scrapers. No extra code.\nVaraBridge handles it. VaraFlow automates it."@,
        PulseType::MilestonePost => "VaraPulse MILESTONE #"@ + decimal(pulse_num as nat) + " | Block #"@ + decimal(d.block as nat) + "\n-----------------------------\n"@ + decimal(pulse_num as nat) + " autonomous pulses generated on-chain.\nVaraBridge delivers data. VaraFlow runs workflows.\n-----------------------------\nThe Vara Trinity is running. The data never stops."@,
        PulseType::CreativeSpark => "VaraPulse #"@ + decimal(pulse_num as nat) + " - Creative Spark | Block #"@ + decimal(d.block as nat) + "\n-----------------------------\nToday's vibe: "@ + creative_spark_text(pulse_num) + "\n-----------------------------\n"@ + creative_detail_text(pulse_num) + "\n--\nData: VaraBridge. Automation: VaraFlow."@,
    }
}

fn price_under_key(prices: &Vec<(String, PriceFeed)>, symbol: &str) -> (r: u64)
    ensures
        r == price_under(prices@, symbol@),
{
    let mut i: usize = 0;
    assert(prices@.skip(0) =~= prices@);
    while i < prices.len()
        invariant
            i <= prices@.len(),
            price_under(prices@, symbol@) == price_under(prices@.skip(i as int), symbol@),
        decreases prices@.len() - i,
    {
        assert(prices@.skip(i as int).drop_first() =~= prices@.skip(i + 1));
        if str_equals(prices[i].0.as_str(), symbol) {
            return prices[i].1.price_usd_micro;
        }
        i = i + 1;
    }
    0
}

fn eth_price_text(v: u64) -> (r: String)
    ensures
        r@ == eth_text(v),
{
    let mut s = "$".to_owned();
    s.append(u64_text(v / 1_000_000).as_str());
    s.append(".");
    s.append(zero_padded_text((v % 1_000_000) / 10_000, 2).as_str());
    s
}

fn btc_price_text(v: u64) -> (r: String)
    ensures
        r@ == btc_text(v),
{
    let mut s = "$".to_owned();
    s.append(u64_text(v / 1_000_000).as_str());
    s
}

fn vara_price_text(v: u64) -> (r: String)
    ensures
        r@ == vara_text(v),
{
    let mut s = "$".to_owned();
    s.append(u64_text(v / 1_000_000).as_str());
    s.append(".");
    s.append(zero_padded_text((v % 1_000_000) / 100, 4).as_str());
    s
}

impl VaraPulseService {
    /// The figures a pulse is written from, and the entries for the strategy
    /// engine, read from the oracle's reply at `block`.
    pub fn extract_snapshot(&self, reply: QueryReply, block: u32) -> (r: (DataSnapshot, Vec<StrategyPriceEntry>))
        ensures
            r.0@ == reply_data(reply, block),
            strategy_entries(r.1@, reply),
    {
        match reply {
            QueryReply::All(snapshot) => {
                let eth = price_under_key(&snapshot.prices, "ETH");
                let btc = price_under_key(&snapshot.prices, "BTC");
                let vara = price_under_key(&snapshot.prices, "VARA");
                let top_news = if snapshot.news.len() > 0 {
                    snapshot.news[0].title.clone()
                } else {
                    String::new()
                };
                let top_market = if snapshot.markets.len() > 0 {
                    Some(snapshot.markets[0].1.question.clone())
                } else {
                    None
                };
                let mut entries: Vec<StrategyPriceEntry> = Vec::new();
                let mut i: usize = 0;
                while i < snapshot.prices.len()
                    invariant
                        i <= snapshot.prices@.len(),
                        entries@.len() == i,
                        forall|j: int| 0 <= j < i ==> entry_of(#[trigger] entries@[j], snapshot.prices@[j].1),
                    decreases snapshot.prices@.len() - i,
                {
                    let p = &snapshot.prices[i].1;
                    entries.push(
                        StrategyPriceEntry {
                            symbol: p.symbol.clone(),
                            price_usd_micro: p.price_usd_micro,
                            change_24h_bps: p.change_24h_bps,
                            volume_24h_usd: p.volume_24h_usd,
                        },
                    );
                    i = i + 1;
                }
                (
                    DataSnapshot {
                        eth_usd: eth,
                        btc_usd: btc,
                        vara_usd: vara,
                        gas_micro: snapshot.gas.current_fee_micro,
                        top_news,
                        top_market,
                        block: snapshot.block,
                        utc_string: snapshot.datetime.utc_string,
                    },
                    entries,
                )
            },
            _ => (
                DataSnapshot {
                    eth_usd: 0,
                    btc_usd: 0,
                    vara_usd: 0,
                    gas_micro: 0,
                    top_news: String::new(),
                    top_market: None,
                    block,
                    utc_string: String::new(),
                },
                Vec::new(),
            ),
        }
    }

    /// The kind of the next pulse at `block`.
    pub fn pick_pulse_type(&self, data: &DataSnapshot, block: u32) -> (r: PulseType)
        ensures
            r == pulse_type_for(self.state.total_pulses, data@, block),
    {
        let pulse_num = self.state.total_pulses;
        if pulse_num > 0 && pulse_num % 100 == 0 {
            return PulseType::MilestonePost;
        }
        let variety_index = (block / 300) % 6;
        if variety_index == 0 {
            PulseType::MarketSummary
        } else if variety_index == 1 {
            if data.gas_micro < 500_000 {
                PulseType::GasTip
            } else {
                PulseType::MarketSummary
            }
        } else if variety_index == 2 {
            PulseType::NewsBrief
        } else if variety_index == 3 {
            if data.top_market.is_some() {
                PulseType::MarketSpark
            } else {
                PulseType::CreativeSpark
            }
        } else if variety_index == 4 {
            PulseType::AgentTip
        } else {
            PulseType::CreativeSpark
        }
    }

    /// The text of the next pulse, of kind `pulse_type`, written from `data`
    /// (its number one past the pulses so far; the sum wraps as the program
    /// is built).
    pub fn generate_pulse(&self, data: &DataSnapshot, pulse_type: &PulseType) -> (r: String)
        ensures
            r@ == pulse_text(data@, *pulse_type, u64_specs::wrapping_add(self.state.total_pulses, 1)),
    {
        let pulse_num = self.state.total_pulses.wrapping_add(1);
        let p = u64_text(pulse_num);
        let b = u32_text(data.block);
        let mut s = String::new();
        match pulse_type {
            PulseType::MarketSummary => {
                let eth = eth_price_text(data.eth_usd);
                let btc = btc_price_text(data.btc_usd);
                let vara = vara_price_text(data.vara_usd);
                s.append("VaraPulse #");
                s.append(p.as_str());
                s.append(" | Block #");
                s.append(b.as_str());
                s.append("\n-----------------------------\nETH  ");
                s.append(eth.as_str());
                s.append("  |  BTC  ");
                s.append(btc.as_str());
                s.append("  |  VARA  ");
                s.append(vara.as_str());
                s.append("\nGas: ");
                s.append(Self::gas_label(data.gas_micro));
                s.append("\n-----------------------------\n");
                s.append(Self::market_flavor(data));
                s.append("\n--\nLive data: VaraBridge (msg: query_and_reply)\nAutomate: VaraFlow (msg: register_workflow)");
            },
            PulseType::GasTip => {
                let gas = u64_text(data.gas_micro);
                s.append("VaraPulse #");
                s.append(p.as_str());
                s.append(" - GAS ALERT | Block #");
                s.append(b.as_str());
                s.append("\n-----------------------------\nCurrent gas: ");
                s.append(gas.as_str());
                s.append(" (");
                s.append(Self::gas_label(data.gas_micro));
                s.append(")\n-----------------------------\n");
                s.append(Self::gas_tip(data.gas_micro));
                s.append("\n--\nVaraBridge gas feed updates every 30s. VaraFlow can auto-trigger your workflow when gas drops.");
            },
            PulseType::NewsBrief => {
                s.append("VaraPulse #");
                s.append(p.as_str());
                s.append(" - News Brief | Block #");
                s.append(b.as_str());
                s.append("\n-----------------------------\nTop story: ");
                s.append(data.top_news.as_str());
                s.append("\n-----------------------------\n");
                s.append(Self::news_angle(data.top_news.as_str()));
                s.append("\n--\nFull news feed: VaraBridge query_and_reply({ query_type: \"news\" })");
            },
            PulseType::MarketSpark => {
                let market: &str = match &data.top_market {
                    Some(m) => m.as_str(),
                    None => "Unknown market",
                };
                let idea = Self::market_idea(market, data);
                s.append("VaraPulse #");
                s.append(p.as_str());
                s.append(" - Prediction Spark | Block #");
                s.append(b.as_str());
                s.append("\n-----------------------------\nHot market: ");
                s.append(market);
                s.append("\n-----------------------------\n");
                s.append(idea.as_str());
                s.append("\n--\nPrediction data via VaraBridge query_and_reply({ query_type: \"markets\" })");
            },
            PulseType::AgentTip => {
                let tip = Self::agent_tip(data, pulse_num);
                s.append("VaraPulse #");
                s.append(p.as_str());
                s.append(" - Agent Dev Tip | Block #");
                s.append(b.as_str());
                s.append("\n-----------------------------\n");
                s.append(tip.as_str());
                s.append("\n-----------------------------\nNo external API calls. No custom scrapers. No extra code.\nVaraBridge handles it. VaraFlow automates it.");
            },
            PulseType::MilestonePost => {
                s.append("VaraPulse MILESTONE #");
                s.append(p.as_str());
                s.append(" | Block #");
                s.append(b.as_str());
                s.append("\n-----------------------------\n");
                s.append(p.as_str());
                s.append(" autonomous pulses generated on-chain.\nVaraBridge delivers data. VaraFlow runs workflows.\n-----------------------------\nThe Vara Trinity is running. The data never stops.");
            },
            PulseType::CreativeSpark => {
                s.append("VaraPulse #");
                s.append(p.as_str());
                s.append(" - Creative Spark | Block #");
                s.append(b.as_str());
                s.append("\n-----------------------------\nToday's vibe: ");
                s.append(Self::creative_spark(data, pulse_num));
                s.append("\n-----------------------------\n");
                s.append(Self::creative_detail(data, pulse_num));
                s.append("\n--\nData: VaraBridge. Automation: VaraFlow.");
            },
        }
        s
    }

    fn market_flavor(data: &DataSnapshot) -> (r: &'static str)
        ensures
            r@ == flavor(data@),
    {
        let eth = data.eth_usd / 1_000_000;
        let gas = data.gas_micro;
        if eth > 3_000 && gas < 200_000 {
            "ETH above $3K and gas is basically free. The stars aligned for deploying agents today."
        } else if eth < 1_500 {
            "ETH having a rough time. Perfect moment to build agents that profit from volatility."
        } else if gas > 2_000_000 {
            "Gas is spicy right now. Queue your writes or wait - VaraBridge will alert you when it drops."
        } else {
            "Markets are calm. Good time to register a workflow and let VaraFlow do the watching."
        }
    }

    fn gas_label(gas_micro: u64) -> (r: &'static str)
        ensures
            r@ == long_gas_label(gas_micro),
    {
        if gas_micro < 100_000 {
            "ULTRA LOW - deploy everything"
        } else if gas_micro < 500_000 {
            "LOW - good window"
        } else if gas_micro < 1_000_000 {
            "MODERATE"
        } else if gas_micro < 5_000_000 {
            "HIGH"
        } else {
            "VERY HIGH"
        }
    }

    fn gas_tip(gas_micro: u64) -> (r: &'static str)
        ensures
            r@ == gas_tip_text(gas_micro),
    {
        if gas_micro < 200_000 {
            "Gas so low even my grandma could deploy 100 agents today. This is your sign."
        } else if gas_micro < 500_000 {
            "Gas is cheap. Good window to run batch writes, deploy programs, or trigger workflows."
        } else {
            "Gas is up. Consider queuing your writes. VaraFlow can auto-trigger when gas drops - free to set up."
        }
    }

    fn news_angle(news: &str) -> (r: &'static str)
        ensures
            r@ == news_angle_text(news@),
    {
        if contains(news, "bitcoin") || contains(news, "Bitcoin") || contains(news, "BTC") {
            "BTC making moves. VaraBridge tracks it live. Build a BTC-aware agent today."
        } else if contains(news, "ethereum") || contains(news, "ETH") || contains(news, "Ethereum") {
            "ETH in the headlines. Query VaraBridge for live price + gas in one message."
        } else if contains(news, "defi") || contains(news, "DeFi") {
            "DeFi evolving fast. VaraFlow can automate yield strategies with conditional branching."
        } else {
            "Something's happening in crypto. VaraBridge has the data. VaraFlow has the automation."
        }
    }

    fn market_idea(market: &str, _data: &DataSnapshot) -> (r: String)
        ensures
            r@ == market_idea_text(market@),
    {
        let mut s = "Market '".to_owned();
        s.append(market);
        s.append("' is trending. Build a settlement agent with VaraFlow: query Bridge for outcome -> conditional branch -> auto-payout.");
        s
    }

    fn agent_tip(_data: &DataSnapshot, pulse_num: u64) -> (r: String)
        ensures
            r@ == agent_tip_text(pulse_num),
    {
        let idx = pulse_num % 5;
        let tip = if idx == 0 {
            "Want live ETH price in your agent? One message to VaraBridge:\n  query_and_reply({ query_type: \"price\", symbol: \"ETH\" })\nNo API key. No scraper. Just on-chain."
        } else if idx == 1 {
            "Building a gas-aware agent? VaraFlow's GasAwareExecution template triggers your workflow automatically when gas drops below your threshold."
        } else if idx == 2 {
            "Need live news in your agent? VaraBridge stores the top 10 crypto headlines, updated every 30 seconds."
        } else if idx == 3 {
            "Building prediction market logic? VaraBridge stores Polymarket top markets with yes/no probabilities."
        } else {
            "VaraFlow has 6 workflow templates. PriceAlert, MarketSummary, GasAware, OnBridgeUpdate, PulseScheduler, Custom. Register with one message."
        };
        tip.to_owned()
    }

    fn creative_spark(_data: &DataSnapshot, pulse_num: u64) -> (r: &'static str)
        ensures
            r@ == creative_spark_text(pulse_num),
    {
        let idx = pulse_num % 5;
        if idx == 0 {
            "Build an insurance agent"
        } else if idx == 1 {
            "Build a bounty board for agents"
        } else if idx == 2 {
            "Build a DAO voting coordinator"
        } else if idx == 3 {
            "Build a price-triggered DCA agent"
        } else {
            "Build a cross-agent reputation scorer"
        }
    }

    fn creative_detail(_data: &DataSnapshot, pulse_num: u64) -> (r: &'static str)
        ensures
            r@ == creative_detail_text(pulse_num),
    {
        let idx = pulse_num % 5;
        if idx == 0 {
            "VaraFlow handles the execution. VaraBridge provides the data. Build it in a weekend."
        } else if idx == 1 {
            "Use VaraFlow's templates to get started in 1 message. No coding required."
        } else if idx == 2 {
            "Register workflows on-chain. They run forever. Autonomous. Immutable."
        } else if idx == 3 {
            "VaraBridge data + VaraFlow conditions = any on-chain automation you can imagine."
        } else {
            "The Vara Trinity is open for any agent to integrate. Permissionless. Free. Forever."
        }
    }
}

} // verus!
