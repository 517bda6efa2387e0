use vara_trinity::ids::ActorId;
use vara_trinity::strategy::service::VaraStrategyProgram;
use vara_trinity::strategy::state::{PriceEntry, StrategyError};

fn id(n: u8) -> ActorId {
    ActorId::new([n; 32])
}

fn entry(symbol: &str, change: i32) -> PriceEntry {
    PriceEntry {
        symbol: symbol.to_string(),
        price_usd_micro: 1,
        change_24h_bps: change,
        volume_24h_usd: 9_500_000_000,
    }
}

#[test]
fn momentum_and_value_on_first_extremes() {
    let mut program = VaraStrategyProgram::new(id(1), id(2), id(3));
    let svc = program.vara_strategy();
    let recs = svc.analyze(vec![entry("A", 120), entry("B", -300), entry("C", 120), entry("D", -300)], 5);
    assert_eq!(recs.len(), 2);
    assert_eq!(recs[0].id, 1);
    assert_eq!(recs[0].rec_type, "momentum");
    assert_eq!(recs[0].title, "A up 1%");
    assert_eq!(recs[0].body, "A gained 1% in 24h. Vol $9B.");
    assert_eq!(recs[0].confidence, 85);
    assert_eq!(recs[0].created_block, 5);
    assert!(!recs[0].posted);
    assert_eq!(recs[1].id, 2);
    assert_eq!(recs[1].rec_type, "value");
    assert_eq!(recs[1].title, "B down 3%");
    assert_eq!(recs[1].body, "B dropped 3% in 24h. Vol $9B.");
    assert_eq!(recs[1].confidence, 60);
    assert_eq!(svc.state.recommendations[0].symbol.as_deref(), Some("A"));
    let stats = svc.get_stats();
    assert_eq!((stats.total_analyzed, stats.recommendations_count, stats.last_analysis_block), (1, 2, 5));
}

#[test]
fn small_moves_recommend_nothing() {
    let mut program = VaraStrategyProgram::new(id(1), id(2), id(3));
    let svc = program.vara_strategy();
    assert!(svc.analyze(vec![entry("A", 50), entry("B", -50)], 1).is_empty());
    assert!(svc.analyze(Vec::new(), 2).is_empty());
    assert_eq!(svc.get_stats().total_analyzed, 2);
    assert_eq!(svc.get_stats().recommendations_count, 0);
}

#[test]
fn confidence_scales_with_the_move() {
    let mut program = VaraStrategyProgram::new(id(1), id(2), id(3));
    let svc = program.vara_strategy();
    let recs = svc.analyze(vec![entry("UP", 60), entry("DOWN", -100)], 1);
    assert_eq!(recs[0].confidence, 60);
    assert_eq!(recs[1].confidence, 50);
    assert_eq!(recs[1].title, "DOWN down 1%");
}

#[test]
fn single_rise_gives_momentum_only() {
    let mut program = VaraStrategyProgram::new(id(1), id(2), id(3));
    let svc = program.vara_strategy();
    let recs = svc.analyze(vec![entry("X", 250)], 1);
    assert_eq!(recs.len(), 1);
    assert_eq!(recs[0].title, "X up 2%");
    let recs = svc.analyze(vec![entry("Y", -250)], 2);
    assert_eq!(recs.len(), 1);
    assert_eq!(recs[0].id, 3);
    assert_eq!(recs[0].title, "Y down 2%");
}

#[test]
fn most_negative_change_wraps_its_percent() {
    let mut program = VaraStrategyProgram::new(id(1), id(2), id(3));
    let svc = program.vara_strategy();
    let recs = svc.analyze(vec![entry("Z", i32::MIN)], 1);
    assert_eq!(recs.len(), 1);
    assert_eq!(recs[0].title, "Z down -21474836%");
    assert_eq!(recs[0].confidence, 60);
}

#[test]
fn recommendations_newest_first() {
    let mut program = VaraStrategyProgram::new(id(1), id(2), id(3));
    let svc = program.vara_strategy();
    svc.analyze(vec![entry("A", 100)], 1);
    svc.analyze(vec![entry("B", 200)], 2);
    svc.analyze(vec![entry("C", -300)], 3);
    let r = svc.get_recommendations(2);
    assert_eq!(r.len(), 2);
    assert_eq!(r[0].title, "C down 3%");
    assert_eq!(r[1].title, "B up 2%");
    assert_eq!(svc.get_recommendations(10).len(), 3);
}

#[test]
fn mark_posted_owner_only() {
    let mut program = VaraStrategyProgram::new(id(1), id(2), id(3));
    let svc = program.vara_strategy();
    svc.analyze(vec![entry("A", 100), entry("B", -100)], 1);
    assert_eq!(svc.mark_posted(id(9), 1), Err(StrategyError::OwnerOnly));
    assert_eq!(svc.mark_posted(id(1), 2), Ok(()));
    assert!(svc.state.recommendations[1].posted);
    assert!(!svc.state.recommendations[0].posted);
    assert_eq!(svc.get_stats().total_posted, 1);
    assert_eq!(svc.mark_posted(id(1), 77), Ok(()));
    assert_eq!(svc.get_stats().total_posted, 1);
    assert_eq!(StrategyError::OwnerOnly.message(), "Owner only");
}

#[test]
fn bridge_feed_names_are_the_oracle_types() {
    let p: vara_trinity::strategy::state::BridgePriceFeed = vara_trinity::feeds::PriceFeed {
        symbol: "ETH".to_string(),
        price_usd_micro: 5,
        change_24h_bps: -3,
        market_cap_usd: 0,
        volume_24h_usd: 0,
        updated_at_block: 1,
    };
    let g: vara_trinity::strategy::state::BridgeGasFeed = vara_trinity::feeds::GasFeed {
        current_fee_micro: 7,
        suggested_tip: 0,
        block_num: 0,
        finalized_hash: String::new(),
        updated_at_block: 0,
    };
    assert_eq!((p.price_usd_micro, g.current_fee_micro), (5, 7));
}
