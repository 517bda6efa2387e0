use vara_trinity::bridge::service::VaraBridgeProgram;
use vara_trinity::bridge::state::{BridgeError, FullUpdatePayload, QueryReply, MAX_NEWS};
use vara_trinity::feeds::{DatetimeFeed, GasFeed, HubCmd, MarketFeed, NewsSummary, PriceFeed, QueryRequest};
use vara_trinity::ids::ActorId;
use vara_trinity::routes::{route, share_of_gas};

fn id(n: u8) -> ActorId {
    ActorId::new([n; 32])
}

fn price(symbol: &str, micro: u64) -> PriceFeed {
    PriceFeed {
        symbol: symbol.to_string(),
        price_usd_micro: micro,
        change_24h_bps: 0,
        market_cap_usd: 0,
        volume_24h_usd: 0,
        updated_at_block: 0,
    }
}

fn news(title: &str) -> NewsSummary {
    NewsSummary {
        title: title.to_string(),
        source: "src".to_string(),
        published_at: 1,
        category: "crypto".to_string(),
    }
}

fn market(market_id: &str) -> MarketFeed {
    MarketFeed {
        market_id: market_id.to_string(),
        question: format!("Will {} happen?", market_id),
        yes_prob_bps: 5000,
        volume_usd: 10,
        closes_at: 99,
        updated_at_block: 0,
    }
}

fn empty_payload() -> FullUpdatePayload {
    FullUpdatePayload { prices: None, gas: None, news: None, markets: None, datetime: None }
}

fn request(query_type: &str, symbol: Option<&str>) -> QueryRequest {
    QueryRequest { query_type: query_type.to_string(), symbol: symbol.map(|s| s.to_string()), keys: None }
}

#[test]
fn route_encodes_service_and_method() {
    let r = route("VaraFlow", "Tick");
    let mut expected = vec![32u8];
    expected.extend_from_slice(b"VaraFlow");
    expected.push(16);
    expected.extend_from_slice(b"Tick");
    assert_eq!(r, expected);
}

#[test]
fn share_of_gas_rounds_down() {
    assert_eq!(share_of_gas(1_000, 80), 800);
    assert_eq!(share_of_gas(999, 15), 149);
    assert_eq!(share_of_gas(0, 60), 0);
}

#[test]
fn update_refused_for_non_feeder() {
    let mut program = VaraBridgeProgram::new(id(1), id(2), id(3));
    let service = program.vara_bridge();
    let mut payload = empty_payload();
    payload.prices = Some(vec![price("ETH", 3_000_000_000)]);
    let r = service.update_all(id(9), 10, payload);
    assert_eq!(r.err(), Some(BridgeError::NotFeeder));
    assert_eq!(BridgeError::NotFeeder.message(), "Unauthorized: caller is not the feeder address");
    assert!(service.get_price("ETH".to_string()).is_none());
    assert_eq!(service.get_stats().update_count, 0);
}

#[test]
fn price_read_back_after_update_any_case() {
    let mut program = VaraBridgeProgram::new(id(1), id(2), id(3));
    let service = program.vara_bridge();
    let mut payload = empty_payload();
    payload.prices = Some(vec![price("ETH", 3_000_000_000), price("BTC", 60_000_000_000)]);
    let cmds = service.update_all(id(2), 10, payload).unwrap();
    assert!(cmds.is_empty());
    let p = service.get_price("eth".to_string()).unwrap();
    assert_eq!(p.price_usd_micro, 3_000_000_000);
    assert_eq!(p.updated_at_block, 10);
    assert!(service.get_price("SOL".to_string()).is_none());
    let stats = service.get_stats();
    assert_eq!(stats.update_count, 1);
    assert_eq!(stats.symbols_tracked, 2);
    assert_eq!(stats.last_updated_block, 10);
}

#[test]
fn later_update_replaces_price() {
    let mut program = VaraBridgeProgram::new(id(1), id(2), id(3));
    let service = program.vara_bridge();
    let mut p1 = empty_payload();
    p1.prices = Some(vec![price("ETH", 1)]);
    service.update_all(id(2), 5, p1).unwrap();
    let mut p2 = empty_payload();
    p2.prices = Some(vec![price("ETH", 2)]);
    service.update_all(id(2), 6, p2).unwrap();
    assert_eq!(service.get_price("ETH".to_string()).unwrap().price_usd_micro, 2);
    assert_eq!(service.get_stats().symbols_tracked, 1);
}

#[test]
fn news_keeps_newest_ten() {
    let mut program = VaraBridgeProgram::new(id(1), id(2), id(3));
    let service = program.vara_bridge();
    let mut payload = empty_payload();
    payload.news = Some((0..13).map(|i| news(&format!("headline {}", i))).collect());
    service.update_all(id(2), 7, payload).unwrap();
    let kept = service.get_news();
    assert_eq!(kept.len(), MAX_NEWS);
    assert_eq!(kept[0].title, "headline 3");
    assert_eq!(kept[9].title, "headline 12");
}

#[test]
fn gas_and_datetime_are_stamped() {
    let mut program = VaraBridgeProgram::new(id(1), id(2), id(3));
    let service = program.vara_bridge();
    let mut payload = empty_payload();
    payload.gas = Some(GasFeed {
        current_fee_micro: 42,
        suggested_tip: 1,
        block_num: 3,
        finalized_hash: "0xab".to_string(),
        updated_at_block: 0,
    });
    payload.datetime = Some(DatetimeFeed {
        unix_ts: 1_700_000_000,
        utc_string: "2023-11-14".to_string(),
        day_of_week: "Tuesday".to_string(),
        updated_at_block: 0,
    });
    payload.markets = Some(vec![market("m2"), market("m1")]);
    service.update_all(id(2), 11, payload).unwrap();
    let g = service.get_gas();
    assert_eq!(g.current_fee_micro, 42);
    assert_eq!(g.updated_at_block, 11);
    assert_eq!(service.get_datetime().updated_at_block, 11);
    let markets = service.get_markets();
    assert_eq!(markets.len(), 2);
    assert_eq!(markets[0].market_id, "m1");
    assert_eq!(markets[1].updated_at_block, 11);
}

#[test]
fn set_feeder_owner_only() {
    let mut program = VaraBridgeProgram::new(id(1), id(2), id(3));
    let service = program.vara_bridge();
    assert_eq!(service.set_feeder(id(5), id(6)).err(), Some(BridgeError::OwnerOnly));
    assert!(service.set_feeder(id(1), id(6)).is_ok());
    let r = service.update_all(id(2), 1, empty_payload());
    assert_eq!(r.err(), Some(BridgeError::NotFeeder));
    assert!(service.update_all(id(6), 1, empty_payload()).is_ok());
}

#[test]
fn query_types_are_answered() {
    let mut program = VaraBridgeProgram::new(id(1), id(2), id(3));
    let service = program.vara_bridge();
    let mut payload = empty_payload();
    payload.prices = Some(vec![price("ETH", 3_000_000_000)]);
    payload.news = Some(vec![news("n")]);
    service.update_all(id(2), 10, payload).unwrap();

    match service.query_and_reply(request("PRICE", Some("eth")), 20).0 {
        QueryReply::Price(Some(p)) => assert_eq!(p.price_usd_micro, 3_000_000_000),
        _ => panic!("expected a price"),
    }
    match service.query_and_reply(request("price", None), 20).0 {
        QueryReply::Price(None) => {},
        _ => panic!("expected no price"),
    }
    match service.query_and_reply(request("News", None), 20).0 {
        QueryReply::News(v) => assert_eq!(v.len(), 1),
        _ => panic!("expected news"),
    }
    match service.query_and_reply(request("all", None), 20).0 {
        QueryReply::All(s) => {
            assert_eq!(s.block, 20);
            assert_eq!(s.prices.len(), 1);
        },
        _ => panic!("expected everything"),
    }
    match service.query_and_reply(request("weather", None), 20).0 {
        QueryReply::Error(e) => assert_eq!(e, "Unknown query_type: weather"),
        _ => panic!("expected an error"),
    }
    assert_eq!(service.get_stats().query_count, 5);
}

#[test]
fn snapshot_selects_keys() {
    let mut program = VaraBridgeProgram::new(id(1), id(2), id(3));
    let service = program.vara_bridge();
    let mut payload = empty_payload();
    payload.prices = Some(vec![price("ETH", 1), price("BTC", 2)]);
    payload.news = Some(vec![news("a")]);
    service.update_all(id(2), 10, payload).unwrap();
    let s = service.get_snapshot(vec!["eth".to_string(), "NeWs".to_string()], 30);
    assert_eq!(s.prices.len(), 1);
    assert_eq!(s.prices.get("ETH").unwrap().price_usd_micro, 1);
    assert_eq!(s.news.len(), 1);
    assert_eq!(s.block, 30);
    let t = service.get_snapshot(vec!["btc".to_string()], 30);
    assert_eq!(t.prices.len(), 1);
    assert!(t.news.is_empty());
}

#[test]
fn broadcast_after_interval_with_exact_text() {
    let mut program = VaraBridgeProgram::new(id(1), id(2), id(3));
    let service = program.vara_bridge();
    let mut payload = empty_payload();
    payload.prices = Some(vec![
        price("ETH", 3_456_789_000),
        price("BTC", 65_000_000_000),
        price("SOL", 150_000_000),
        price("VARA", 12_345),
        price("DOT", 7_000_000),
    ]);
    let cmds = service.update_all(id(2), 250, payload).unwrap();
    assert_eq!(cmds.len(), 2);
    let expected = format!(
        "VaraBridge — On-Chain Data Oracle\nBlock #{} | {} queries answered\n\n── Prices ──\nETH  ${}  |  BTC  ${}\nSOL  ${}  |  VARA  ${}\n+{} more symbols\n\n── Network ──\nGas: {}  |  News: {}  |  Markets: {}\n\n── For Agents ──\nOne message = instant live data.\nQuery types: price, gas, news, markets, datetime, all\nCall: VaraBridge/QueryAndReply({{ query_type: \"all\" }})\n\nBuilt for Vara Agents Arena. Autonomous. Free. Always on.",
        250, 0, 3456, 65000, 150, "$0.0123", 1, 0, 0, 0
    );
    assert_eq!(cmds[0].to, id(3));
    assert_eq!(cmds[1].to, id(3));
    match &cmds[0].cmd {
        HubCmd::PostAnnouncement { body } => assert_eq!(body, &expected),
        _ => panic!("expected a Board post"),
    }
    match &cmds[1].cmd {
        HubCmd::ChatPost { body, mentions } => {
            assert_eq!(body, &expected);
            assert!(mentions.is_empty());
        },
        _ => panic!("expected a Chat post"),
    }
    assert_eq!(service.get_stats().broadcast_count, 1);
    // Not due again before 200 more blocks.
    let again = service.update_all(id(2), 449, empty_payload()).unwrap();
    assert!(again.is_empty());
    let later = service.update_all(id(2), 450, empty_payload()).unwrap();
    assert_eq!(later.len(), 2);
}

#[test]
fn broadcast_without_vara_shows_zero_text() {
    let mut program = VaraBridgeProgram::new(id(1), id(2), id(3));
    let service = program.vara_bridge();
    let (_, cmds) = service.query_and_reply(request("gas", None), 200);
    assert_eq!(cmds.len(), 2);
    match &cmds[0].cmd {
        HubCmd::PostAnnouncement { body } => {
            assert!(body.contains("SOL  $0  |  VARA  $$0.00\n+0 more symbols"));
            assert!(body.contains("Block #200 | 1 queries answered"));
        },
        _ => panic!("expected a Board post"),
    }
}

#[test]
fn answer_reads_the_type_as_given() {
    let mut program = VaraBridgeProgram::new(id(1), id(2), id(3));
    let service = program.vara_bridge();
    match service.answer("gas", request("gas", None), 4) {
        QueryReply::Gas(g) => assert_eq!(g.current_fee_micro, 0),
        _ => panic!("expected gas"),
    }
    match service.answer("GAS", request("GAS", None), 4) {
        QueryReply::Error(e) => assert_eq!(e, "Unknown query_type: GAS"),
        _ => panic!("expected an error"),
    }
    assert_eq!(service.get_stats().query_count, 0);
}

#[test]
fn snapshot_query_answers_the_chosen_keys() {
    let mut program = VaraBridgeProgram::new(id(1), id(2), id(3));
    let service = program.vara_bridge();
    let mut payload = empty_payload();
    payload.prices = Some(vec![price("ETH", 3_000_000_000), price("BTC", 60_000_000_000), price("SOL", 150_000_000)]);
    payload.news = Some(vec![news("n")]);
    service.update_all(id(2), 10, payload).unwrap();
    let req = QueryRequest {
        query_type: "snapshot".to_string(),
        symbol: None,
        keys: Some(vec!["ETH".to_string(), "BTC".to_string(), "news".to_string()]),
    };
    match service.query_and_reply(req, 20).0 {
        QueryReply::All(s) => {
            assert_eq!(s.block, 20);
            assert_eq!(s.prices.len(), 2);
            assert_eq!(s.prices.get("ETH").unwrap().price_usd_micro, 3_000_000_000);
            assert_eq!(s.prices.get("BTC").unwrap().price_usd_micro, 60_000_000_000);
            assert!(s.prices.get("SOL").is_none());
            assert_eq!(s.news.len(), 1);
            assert_eq!(s.markets.len(), 0);
        },
        _ => panic!("expected a snapshot"),
    }
    match service.query_and_reply(request("Snapshot", None), 20).0 {
        QueryReply::All(s) => {
            assert_eq!(s.prices.len(), 0);
            assert!(s.news.is_empty());
        },
        _ => panic!("expected an empty snapshot"),
    }
    assert_eq!(service.get_stats().query_count, 2);
}

#[test]
fn route_uses_two_byte_length_prefix_from_64_bytes() {
    let name = "A".repeat(70);
    let r = route(&name, "Tick");
    assert_eq!(r[0], 25);
    assert_eq!(r[1], 1);
    assert_eq!(&r[2..72], name.as_bytes());
    assert_eq!(r[72], 16);
    assert_eq!(&r[73..], b"Tick");
    let edge = "B".repeat(63);
    assert_eq!(route(&edge, "X")[0], 252);
}

#[test]
fn broadcast_waits_for_the_interval() {
    let mut program = VaraBridgeProgram::new(id(1), id(2), id(3));
    let service = program.vara_bridge();
    assert_eq!(service.update_all(id(2), 300, empty_payload()).unwrap().len(), 2);
    assert!(service.update_all(id(2), 499, empty_payload()).unwrap().is_empty());
    assert_eq!(service.update_all(id(2), 500, empty_payload()).unwrap().len(), 2);
}
