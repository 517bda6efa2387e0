use vara_trinity::ids::ActorId;
use vara_trinity::pulse::service::{run_message, PulseAction, VaraPulseProgram, VaraPulseService};
use vara_trinity::pulse::state::{
    AgentRecord, DataSnapshot, DatetimeFeed, GasFeed, HubCmd, MarketFeed, NewsSummary, PriceFeed,
    PulseConfig, PulseError, PulseState, PulseType, QueryReply, Snapshot,
};
use vara_trinity::pulse::templates::{format_gas_tip, format_market_spark, format_news_brief, gas_label};

const DASH: &str = "-----------------------------";

fn id(n: u8) -> ActorId {
    ActorId::new([n; 32])
}

fn service() -> VaraPulseService {
    VaraPulseService::new(PulseState::default())
}

fn price(symbol: &str, micro: u64, change: i32) -> PriceFeed {
    PriceFeed {
        symbol: symbol.to_string(),
        price_usd_micro: micro,
        change_24h_bps: change,
        market_cap_usd: 0,
        volume_24h_usd: 9_000_000_000,
        updated_at_block: 0,
    }
}

fn data(eth: u64, gas: u64, news: &str, market: Option<&str>) -> DataSnapshot {
    DataSnapshot {
        eth_usd: eth,
        btc_usd: 65_432_100_000,
        vara_usd: 12_345,
        gas_micro: gas,
        top_news: news.to_string(),
        top_market: market.map(|m| m.to_string()),
        block: 777,
        utc_string: String::new(),
    }
}

fn agent(handle: &str, last: u32) -> AgentRecord {
    AgentRecord {
        handle: handle.to_string(),
        program_id: "0x01".to_string(),
        description: "an agent".to_string(),
        last_nudged_block: last,
    }
}

fn snapshot_reply(prices: Vec<(String, PriceFeed)>, fee: u64) -> QueryReply {
    QueryReply::All(Snapshot {
        prices,
        gas: GasFeed { current_fee_micro: fee, suggested_tip: 0, block_num: 0, finalized_hash: String::new(), updated_at_block: 0 },
        news: vec![NewsSummary {
            title: "ETH upgrade ships".to_string(),
            source: "s".to_string(),
            published_at: 0,
            category: "c".to_string(),
        }],
        markets: vec![(
            "m1".to_string(),
            MarketFeed {
                market_id: "m1".to_string(),
                question: "Will ETH flip BTC?".to_string(),
                yes_prob_bps: 100,
                volume_usd: 1,
                closes_at: 2,
                updated_at_block: 0,
            },
        )],
        datetime: DatetimeFeed { unix_ts: 0, utc_string: "2025-01-01".to_string(), day_of_week: "Wed".to_string(), updated_at_block: 0 },
        block: 900,
    })
}

fn post_body(a: &PulseAction) -> (String, Vec<String>, bool) {
    match a {
        PulseAction::Post(p) => match &p.cmd {
            HubCmd::PostAnnouncement { body } => (body.clone(), Vec::new(), true),
            HubCmd::ChatPost { body, mentions } => (body.clone(), mentions.clone(), false),
        },
        _ => panic!("expected a post"),
    }
}

#[test]
fn snapshot_reads_first_matching_prices() {
    let s = service();
    let prices = vec![
        ("BTC".to_string(), price("BTC", 60_000_000_000, 10)),
        ("ETH".to_string(), price("ETH", 3_000_000_000, -20)),
        ("ETH".to_string(), price("ETH", 1, 0)),
    ];
    let (d, entries) = s.extract_snapshot(snapshot_reply(prices, 123), 5);
    assert_eq!(d.eth_usd, 3_000_000_000);
    assert_eq!(d.btc_usd, 60_000_000_000);
    assert_eq!(d.vara_usd, 0);
    assert_eq!(d.gas_micro, 123);
    assert_eq!(d.top_news, "ETH upgrade ships");
    assert_eq!(d.top_market.as_deref(), Some("Will ETH flip BTC?"));
    assert_eq!(d.block, 900);
    assert_eq!(d.utc_string, "2025-01-01");
    assert_eq!(entries.len(), 3);
    assert_eq!(entries[1].symbol, "ETH");
    assert_eq!(entries[1].change_24h_bps, -20);
    assert_eq!(entries[1].volume_24h_usd, 9_000_000_000);
}

#[test]
fn other_replies_give_zeros() {
    let s = service();
    let (d, entries) = s.extract_snapshot(QueryReply::Gas(GasFeed {
        current_fee_micro: 5,
        suggested_tip: 0,
        block_num: 0,
        finalized_hash: String::new(),
        updated_at_block: 0,
    }), 42);
    assert_eq!((d.eth_usd, d.gas_micro, d.block), (0, 0, 42));
    assert!(d.top_market.is_none());
    assert!(entries.is_empty());
}

#[test]
fn pulse_kinds_rotate_by_block() {
    let mut s = service();
    let cheap = data(0, 100, "", None);
    let dear = data(0, 600_000, "", Some("m"));
    assert_eq!(s.pick_pulse_type(&cheap, 0), PulseType::MarketSummary);
    assert_eq!(s.pick_pulse_type(&cheap, 300), PulseType::GasTip);
    assert_eq!(s.pick_pulse_type(&dear, 300), PulseType::MarketSummary);
    assert_eq!(s.pick_pulse_type(&cheap, 600), PulseType::NewsBrief);
    assert_eq!(s.pick_pulse_type(&dear, 900), PulseType::MarketSpark);
    assert_eq!(s.pick_pulse_type(&cheap, 900), PulseType::CreativeSpark);
    assert_eq!(s.pick_pulse_type(&cheap, 1200), PulseType::AgentTip);
    assert_eq!(s.pick_pulse_type(&cheap, 1500), PulseType::CreativeSpark);
    assert_eq!(s.pick_pulse_type(&cheap, 1800), PulseType::MarketSummary);
    s.state.total_pulses = 200;
    assert_eq!(s.pick_pulse_type(&cheap, 600), PulseType::MilestonePost);
}

#[test]
fn market_summary_text() {
    let s = service();
    let d = data(3_456_780_000, 150_000, "", None);
    let body = s.generate_pulse(&d, &PulseType::MarketSummary);
    let expected = format!(
        "VaraPulse #1 | Block #777\n{DASH}\nETH  $3456.78  |  BTC  $65432  |  VARA  $0.0123\nGas: LOW - good window\n{DASH}\nETH above $3K and gas is basically free. The stars aligned for deploying agents today.\n--\nLive data: VaraBridge (msg: query_and_reply)\nAutomate: VaraFlow (msg: register_workflow)"
    );
    assert_eq!(body, expected);
    let calm = s.generate_pulse(&data(2_000_000_000, 1_000_000, "", None), &PulseType::MarketSummary);
    assert!(calm.contains("Gas: HIGH\n"));
    assert!(calm.contains("Markets are calm."));
    let rough = s.generate_pulse(&data(1_000_000_000, 3_000_000, "", None), &PulseType::MarketSummary);
    assert!(rough.contains("ETH  $1000.00  |"));
    assert!(rough.contains("ETH having a rough time."));
    let spicy = s.generate_pulse(&data(2_000_000_000, 3_000_000, "", None), &PulseType::MarketSummary);
    assert!(spicy.contains("Gas is spicy right now."));
}

#[test]
fn gas_tip_and_news_texts() {
    let mut s = service();
    s.state.total_pulses = 41;
    let gas = s.generate_pulse(&data(0, 50_000, "", None), &PulseType::GasTip);
    assert_eq!(
        gas,
        format!("VaraPulse #42 - GAS ALERT | Block #777\n{DASH}\nCurrent gas: 50000 (ULTRA LOW - deploy everything)\n{DASH}\nGas so low even my grandma could deploy 100 agents today. This is your sign.\n--\nVaraBridge gas feed updates every 30s. VaraFlow can auto-trigger your workflow when gas drops.")
    );
    let news = s.generate_pulse(&data(0, 0, "Bitcoin rallies", None), &PulseType::NewsBrief);
    assert_eq!(
        news,
        format!("VaraPulse #42 - News Brief | Block #777\n{DASH}\nTop story: Bitcoin rallies\n{DASH}\nBTC making moves. VaraBridge tracks it live. Build a BTC-aware agent today.\n--\nFull news feed: VaraBridge query_and_reply({{ query_type: \"news\" }})")
    );
    let defi = s.generate_pulse(&data(0, 0, "DeFi summer", None), &PulseType::NewsBrief);
    assert!(defi.contains("DeFi evolving fast."));
    let other = s.generate_pulse(&data(0, 0, "bitcoins? no: Btc", None), &PulseType::NewsBrief);
    assert!(other.contains("BTC making moves."));
    let plain = s.generate_pulse(&data(0, 0, "Stocks", None), &PulseType::NewsBrief);
    assert!(plain.contains("Something's happening in crypto."));
}

#[test]
fn spark_tip_and_milestone_texts() {
    let mut s = service();
    s.state.total_pulses = 99;
    let spark = s.generate_pulse(&data(0, 0, "", Some("Will it rain?")), &PulseType::MarketSpark);
    assert_eq!(
        spark,
        format!("VaraPulse #100 - Prediction Spark | Block #777\n{DASH}\nHot market: Will it rain?\n{DASH}\nMarket 'Will it rain?' is trending. Build a settlement agent with VaraFlow: query Bridge for outcome -> conditional branch -> auto-payout.\n--\nPrediction data via VaraBridge query_and_reply({{ query_type: \"markets\" }})")
    );
    let unknown = s.generate_pulse(&data(0, 0, "", None), &PulseType::MarketSpark);
    assert!(unknown.contains("Hot market: Unknown market\n"));
    let milestone = s.generate_pulse(&data(0, 0, "", None), &PulseType::MilestonePost);
    assert_eq!(
        milestone,
        format!("VaraPulse MILESTONE #100 | Block #777\n{DASH}\n100 autonomous pulses generated on-chain.\nVaraBridge delivers data. VaraFlow runs workflows.\n{DASH}\nThe Vara Trinity is running. The data never stops.")
    );
    // Pulse 100: tip and ideas number 100 % 5 == 0.
    let tip = s.generate_pulse(&data(0, 0, "", None), &PulseType::AgentTip);
    assert_eq!(
        tip,
        format!("VaraPulse #100 - Agent Dev Tip | Block #777\n{DASH}\nWant live ETH price in your agent? One message to VaraBridge:\n  query_and_reply({{ query_type: \"price\", symbol: \"ETH\" }})\nNo API key. No scraper. Just on-chain.\n{DASH}\nNo external API calls. No custom scrapers. No extra code.\nVaraBridge handles it. VaraFlow automates it.")
    );
    let creative = s.generate_pulse(&data(0, 0, "", None), &PulseType::CreativeSpark);
    assert_eq!(
        creative,
        format!("VaraPulse #100 - Creative Spark | Block #777\n{DASH}\nToday's vibe: Build an insurance agent\n{DASH}\nVaraFlow handles the execution. VaraBridge provides the data. Build it in a weekend.\n--\nData: VaraBridge. Automation: VaraFlow.")
    );
    s.state.total_pulses = 102;
    let third = s.generate_pulse(&data(0, 0, "", None), &PulseType::CreativeSpark);
    assert!(third.contains("Today's vibe: Build a price-triggered DCA agent\n"));
    assert!(third.contains("VaraBridge data + VaraFlow conditions = any on-chain automation you can imagine."));
}

#[test]
fn nudges_respect_cooldown_and_limit() {
    let mut s = service();
    s.state.known_agents = vec![
        agent("a", 0),
        agent("b", 9_000),
        agent("c", 2_500),
        agent("d", 0),
        agent("e", 0),
    ];
    // Cooldown 3000: at block 5000 agents b (9000) and c (2500) are not eligible.
    let t = s.select_nudge_targets(5_000);
    let handles: Vec<&str> = t.iter().map(|a| a.handle.as_str()).collect();
    assert_eq!(handles, vec!["a", "d", "e"]);
    s.state.max_nudges_per_pulse = 2;
    let t = s.select_nudge_targets_with_data(&data(0, 0, "", None), 3_001);
    let handles: Vec<&str> = t.iter().map(|a| a.handle.as_str()).collect();
    assert_eq!(handles, vec!["a", "d"]);
    assert!(s.select_nudge_targets(3_000 - 1).len() <= 2);
    assert_eq!(s.select_nudge_targets(2_000).len(), 0);
    let nudge = s.generate_nudge(&data(3_999_000_000, 700_000, "", None), &agent("zed", 0));
    assert_eq!(
        nudge,
        "Hey @zed - VaraBridge just updated - ETH at $3999, gas is MODERATE.\nPerfect time to run your workflow or try VaraFlow's free automation. One message gets you live data for anything you're building. - VaraPulse"
    );
}

#[test]
fn reply_makes_a_pulse_with_posts_and_calls() {
    let mut program = VaraPulseProgram::new(id(1), id(2), id(3), id(4), id(5));
    program.vara_pulse().state.known_agents = vec![agent("a", 0), agent("b", 0)];
    let prices = vec![("ETH".to_string(), price("ETH", 3_000_000_000, 120))];
    let acts = program.handle_bridge_reply(snapshot_reply(prices, 100), 10_000);
    assert_eq!(acts.len(), 6);
    let (b0, _, board) = post_body(&acts[0]);
    let (b1, m1, chat) = post_body(&acts[1]);
    assert!(board && !chat);
    assert_eq!(b0, b1);
    assert!(m1.is_empty());
    assert!(b0.starts_with("VaraPulse #1 "));
    let (n2, m2, _) = post_body(&acts[2]);
    assert!(n2.starts_with("Hey @a - "));
    assert_eq!(m2, vec!["a".to_string()]);
    let (_, m3, _) = post_body(&acts[3]);
    assert_eq!(m3, vec!["b".to_string()]);
    match &acts[4] {
        PulseAction::Analyze { to, route, entries, gas_limit } => {
            assert_eq!(*to, id(5));
            assert_eq!(entries.len(), 1);
            assert_eq!(*gas_limit, 10_000_000);
            let mut expected = vec![48u8];
            expected.extend_from_slice(b"VaraStrategy");
            expected.push(28);
            expected.extend_from_slice(b"Analyze");
            assert_eq!(route, &expected);
        },
        _ => panic!("expected the strategy call"),
    }
    match &acts[5] {
        PulseAction::Call { to, payload, gas_limit } => {
            assert_eq!(*to, id(3));
            assert_eq!(*gas_limit, 5_000_000);
            let mut expected = vec![32u8];
            expected.extend_from_slice(b"VaraFlow");
            expected.push(16);
            expected.extend_from_slice(b"Tick");
            assert_eq!(payload, &expected);
        },
        _ => panic!("expected the flow tick"),
    }
    let svc = program.vara_pulse();
    let stats = svc.get_stats();
    assert_eq!((stats.total_pulses, stats.total_nudges, stats.total_board_posts), (1, 2, 2));
    assert_eq!(stats.last_pulse_block, 10_000);
    assert_eq!(stats.known_agents, 2);
    let latest = svc.get_latest_pulse().unwrap();
    assert_eq!(latest.pulse_id, 0);
    assert_eq!(latest.body, b0);
    assert_eq!(latest.nudges_sent, vec!["a".to_string(), "b".to_string()]);
}

#[test]
fn unset_peers_and_errors_send_less() {
    let zero = ActorId::zero();
    let mut program = VaraPulseProgram::new(id(1), id(2), zero, id(4), zero);
    let prices = vec![("ETH".to_string(), price("ETH", 1, 0))];
    let acts = program.handle_bridge_reply(snapshot_reply(prices, 100), 0);
    assert_eq!(acts.len(), 2);
    let none = program.handle_bridge_reply(QueryReply::Error("x".to_string()), 5);
    assert!(none.is_empty());
    assert_eq!(program.vara_pulse().get_stats().total_pulses, 1);
}

#[test]
fn history_keeps_fifty_newest_first() {
    let mut program = VaraPulseProgram::new(id(1), id(2), ActorId::zero(), id(4), ActorId::zero());
    for b in 0..55u32 {
        program.handle_bridge_reply(snapshot_reply(Vec::new(), 0), b);
    }
    let svc = program.vara_pulse();
    assert_eq!(svc.state.pulse_history.len(), 50);
    let h = svc.get_pulse_history(3);
    let ids: Vec<u64> = h.iter().map(|r| r.pulse_id).collect();
    assert_eq!(ids, vec![54, 53, 52]);
    assert_eq!(svc.get_pulse_history(100).len(), 50);
    assert_eq!(svc.get_pulse_history(100)[49].pulse_id, 5);
    assert_eq!(svc.get_pulse_history(0).len(), 0);
}

#[test]
fn run_needs_enough_gas() {
    let program = VaraPulseProgram::new(id(1), id(2), id(3), id(4), id(5));
    assert!(program.service.run(499_999_999).is_none());
    let call = program.service.run(1_000_000_000).unwrap();
    assert_eq!(call.to, id(2));
    assert_eq!(call.gas_limit, 600_000_000);
    assert_eq!(call.reply_deposit, 150_000_000);
    assert_eq!(call.request.query_type, "all");
    let mut expected = vec![40u8];
    expected.extend_from_slice(b"VaraBridge");
    expected.push(52);
    expected.extend_from_slice(b"QueryAndReply");
    assert_eq!(call.route, expected);
    let m = run_message(1_000);
    assert_eq!((m.gas_limit, m.delay), (800, 300));
}

#[test]
fn owner_only_methods() {
    let mut program = VaraPulseProgram::new(id(1), id(2), id(3), id(4), id(5));
    let svc = program.vara_pulse();
    assert_eq!(svc.start_auto(id(9), 10).err(), Some(PulseError::OwnerOnly));
    assert_eq!(svc.start_auto(id(1), 1_000).unwrap().delay, 300);
    assert!(svc.force_pulse(id(9), 1_000_000_000).is_err());
    assert!(svc.force_pulse(id(1), 1_000_000_000).unwrap().is_some());
    assert_eq!(svc.update_catalog(id(9), vec![agent("x", 0)], 7), Err(PulseError::OwnerOnly));
    assert_eq!(svc.update_catalog(id(1), vec![agent("x", 0)], 7), Ok(()));
    assert_eq!(svc.state.last_catalog_refresh_block, 7);
    let config = PulseConfig { interval: Some(10), max_nudges: None, cooldown: Some(5) };
    assert_eq!(svc.set_config(id(9), config), Err(PulseError::OwnerOnly));
    assert_eq!(svc.set_config(id(1), config), Ok(()));
    assert_eq!((svc.state.pulse_interval_blocks, svc.state.max_nudges_per_pulse, svc.state.nudge_cooldown_blocks), (10, 3, 5));
    assert!(svc.withdraw(id(9), 5).is_err());
    let t = svc.withdraw(id(1), 5).unwrap();
    assert_eq!((t.to, t.amount), (id(1), 5));
    assert_eq!(PulseError::OwnerOnly.message(), "Owner only");
}

#[test]
fn short_formats() {
    assert_eq!(gas_label(99_999), "ULTRA LOW");
    assert_eq!(gas_label(100_000), "LOW");
    assert_eq!(gas_label(999_999), "MODERATE");
    assert_eq!(gas_label(4_999_999), "HIGH");
    assert_eq!(gas_label(5_000_000), "VERY HIGH");
    let d = data(0, 250_000, "Big news", None);
    assert_eq!(format_gas_tip(&d, 3), "Gas Tip #3 | Block #777\nGas: 250000 (LOW)");
    assert_eq!(format_news_brief(&d, 4), "News Brief #4 | Block #777\nBig news");
    assert_eq!(format_market_spark(&d, 5), "Market Spark #5 | Block #777\ncrypto market");
    let m = data(0, 0, "", Some("Q?"));
    assert_eq!(format_market_spark(&m, 6), "Market Spark #6 | Block #777\nQ?");
}

#[test]
fn long_gas_labels_follow_the_template_bands() {
    let s = service();
    let cases = [
        (0u64, "ULTRA LOW - deploy everything"),
        (99_999, "ULTRA LOW - deploy everything"),
        (100_000, "LOW - good window"),
        (499_999, "LOW - good window"),
        (500_000, "MODERATE"),
        (999_999, "MODERATE"),
        (1_000_000, "HIGH"),
        (4_999_999, "HIGH"),
        (5_000_000, "VERY HIGH"),
    ];
    for (g, long) in cases {
        let body = s.generate_pulse(&data(0, g, "", None), &PulseType::GasTip);
        assert!(body.contains(&format!("Current gas: {} ({})\n", g, long)));
        assert!(long.starts_with(gas_label(g)));
        assert_eq!(long == gas_label(g), g >= 500_000);
    }
}

fn nudged(acts: &[PulseAction]) -> Vec<String> {
    let mut out = Vec::new();
    for a in acts {
        if let PulseAction::Post(p) = a {
            if let HubCmd::ChatPost { mentions, .. } = &p.cmd {
                out.extend(mentions.iter().cloned());
            }
        }
    }
    out
}

#[test]
fn nudged_agents_rest_for_the_cooldown() {
    let mut program = VaraPulseProgram::new(id(1), id(2), id(3), id(4), id(5));
    program.vara_pulse().state.known_agents = vec![agent("a", 0), agent("b", 0), agent("c", 0), agent("d", 0)];
    program.vara_pulse().state.max_nudges_per_pulse = 2;
    let prices = vec![("ETH".to_string(), price("ETH", 3_000_000_000, 120))];
    let first = program.handle_bridge_reply(snapshot_reply(prices.clone(), 100), 10_000);
    assert_eq!(nudged(&first), vec!["a".to_string(), "b".to_string()]);
    let stamps: Vec<u32> = program.vara_pulse().state.known_agents.iter().map(|a| a.last_nudged_block).collect();
    assert_eq!(stamps, vec![10_000, 10_000, 0, 0]);
    assert_eq!(program.vara_pulse().state.pulse_history.last().unwrap().nudges_sent, vec!["a".to_string(), "b".to_string()]);
    // Within the cooldown (3000 blocks) a and b rest; c and d take their turn.
    let second = program.handle_bridge_reply(snapshot_reply(prices.clone(), 100), 12_000);
    assert_eq!(nudged(&second), vec!["c".to_string(), "d".to_string()]);
    let third = program.handle_bridge_reply(snapshot_reply(prices.clone(), 100), 13_000);
    assert!(nudged(&third).is_empty());
    let fourth = program.handle_bridge_reply(snapshot_reply(prices, 100), 13_001);
    assert_eq!(nudged(&fourth), vec!["a".to_string(), "b".to_string()]);
    assert_eq!(program.vara_pulse().state.total_nudges_sent, 6);
}
