use vara_trinity::feeds::{DatetimeFeed, GasFeed, HubCmd, PriceFeed, QueryRequest};
use vara_trinity::flow::bridge_client::{get_cached_gas, get_cached_price, update_cache, CachedBridgeData};
use vara_trinity::flow::executor::{evaluate_condition, handle_bridge_reply, render_template, FlowAction};
use vara_trinity::flow::service::{tick_message, VaraFlowProgram, TICK_INTERVAL};
use vara_trinity::flow::state::{
    Condition, ExecutionStatus, FlowError, QueryReply, Snapshot, Step, StepBox, StepType, Trigger,
    TriggerInput, WorkflowInput, WorkflowPatch,
};
use vara_trinity::flow::templates::{build_template, TemplateParams, TemplateType};
use vara_trinity::ids::{ActorId, MessageId};
use vara_trinity::strmap::StrMap;

fn id(n: u8) -> ActorId {
    ActorId::new([n; 32])
}

fn step(step_type: StepType, on_success: Option<Step>) -> Step {
    Step {
        step_type,
        gas_limit: 7,
        timeout_blocks: 10,
        on_success: on_success.map(StepBox::new),
        on_failure: None,
        on_timeout: None,
    }
}

fn board(text: &str) -> Step {
    step(StepType::PostBoard { body_template: text.to_string() }, None)
}

fn input(name: &str, trigger: Trigger, steps: Vec<Step>) -> WorkflowInput {
    WorkflowInput { name: name.to_string(), description: "d".to_string(), trigger, steps }
}

fn no_params() -> TemplateParams {
    TemplateParams { interval: None, symbol: None, threshold_micro: None, body_template: None }
}

fn empty_patch() -> WorkflowPatch {
    WorkflowPatch { name: None, description: None, trigger: None, steps: None, active: None }
}

fn price(symbol: &str, micro: u64) -> PriceFeed {
    PriceFeed {
        symbol: symbol.to_string(),
        price_usd_micro: micro,
        change_24h_bps: 0,
        market_cap_usd: 0,
        volume_24h_usd: 0,
        updated_at_block: 0,
    }
}

fn gas(fee: u64) -> GasFeed {
    GasFeed { current_fee_micro: fee, suggested_tip: 0, block_num: 0, finalized_hash: String::new(), updated_at_block: 0 }
}

fn all_reply(eth: u64, fee: u64) -> QueryReply {
    let mut prices = StrMap::new();
    prices.insert("ETH".to_string(), price("ETH", eth));
    QueryReply::All(Snapshot {
        prices,
        gas: gas(fee),
        news: Vec::new(),
        markets: StrMap::new(),
        datetime: DatetimeFeed { unix_ts: 0, utc_string: String::new(), day_of_week: String::new(), updated_at_block: 0 },
        block: 0,
    })
}

fn board_body(a: &FlowAction) -> String {
    match a {
        FlowAction::Hub { cmd: HubCmd::PostAnnouncement { body }, .. } => body.clone(),
        _ => panic!("expected a Board post"),
    }
}

#[test]
fn register_get_and_list() {
    let mut program = VaraFlowProgram::new(id(1), id(2), id(3), id(4));
    let svc = program.vara_flow();
    let a = svc.register_workflow(id(7), 100, input("a", Trigger::BlockInterval { every_n_blocks: 10 }, vec![board("x")]));
    let b = svc.register_workflow(id(8), 100, input("b", Trigger::OnBridgeUpdate, vec![board("y")]));
    assert_eq!((a, b), (0, 1));
    let w = svc.get_workflow(0).unwrap();
    assert_eq!(w.name, "a");
    assert_eq!(w.owner, id(7));
    assert!(w.active);
    assert_eq!(w.created_block, 100);
    assert_eq!(w.next_run_block, 110);
    assert_eq!(svc.get_workflow(1).unwrap().next_run_block, 101);
    assert!(svc.get_workflow(2).is_none());
    assert_eq!(svc.list_workflows(None, false).len(), 2);
    let mine = svc.list_workflows(Some(id(8)), false);
    assert_eq!(mine.len(), 1);
    assert_eq!(mine[0].id, 1);
    let stats = svc.get_stats();
    assert_eq!((stats.workflow_count, stats.active_workflows, stats.execution_count), (2, 2, 0));
}

#[test]
fn owner_checks_on_changes() {
    let mut program = VaraFlowProgram::new(id(1), id(2), id(3), id(4));
    let svc = program.vara_flow();
    svc.register_workflow(id(7), 0, input("a", Trigger::OnBridgeUpdate, vec![board("x")]));
    assert_eq!(svc.update_workflow(id(9), 0, empty_patch()), Err(FlowError::OnlyOwnerCanUpdate));
    assert_eq!(svc.delete_workflow(id(9), 0), Err(FlowError::OnlyOwnerCanDelete));
    assert_eq!(svc.pause_workflow(id(9), 0), Err(FlowError::OnlyOwnerCanPause));
    assert_eq!(svc.resume_workflow(id(9), 0, 5), Err(FlowError::OnlyOwnerCanResume));
    assert_eq!(svc.pause_workflow(id(7), 5), Err(FlowError::WorkflowNotFound));
    assert_eq!(FlowError::OnlyOwnerCanPause.message(), "Only workflow owner can pause");

    let mut patch = empty_patch();
    patch.name = Some("renamed".to_string());
    assert_eq!(svc.update_workflow(id(7), 0, patch), Ok(()));
    assert_eq!(svc.get_workflow(0).unwrap().name, "renamed");

    assert_eq!(svc.pause_workflow(id(7), 0), Ok(()));
    assert!(!svc.get_workflow(0).unwrap().active);
    assert_eq!(svc.get_stats().active_workflows, 0);
    assert_eq!(svc.list_workflows(None, true).len(), 0);
    assert_eq!(svc.resume_workflow(id(7), 0, 40), Ok(()));
    let w = svc.get_workflow(0).unwrap();
    assert!(w.active);
    assert_eq!(w.next_run_block, 41);

    assert_eq!(svc.delete_workflow(id(7), 0), Ok(()));
    assert!(svc.get_workflow(0).is_none());
    assert_eq!(svc.get_stats().workflow_count, 1);
}

#[test]
fn manual_trigger_checks_the_caller_and_renders_input() {
    let mut program = VaraFlowProgram::new(id(1), id(2), id(3), id(4));
    let svc = program.vara_flow();
    svc.register_workflow(
        id(7),
        0,
        input("m", Trigger::ManualCall { authorized: Some(id(5)) }, vec![board("Hello {{who}} at {{where}}")]),
    );
    assert_eq!(svc.trigger_workflow(id(6), 0, None, 10).err(), Some(FlowError::NotAuthorized));
    assert_eq!(svc.trigger_workflow(id(5), 3, None, 10).err(), Some(FlowError::WorkflowNotFound));
    let mut data = StrMap::new();
    data.insert("who".to_string(), "agents".to_string());
    data.insert("where".to_string(), "Vara".to_string());
    let acts = svc.trigger_workflow(id(5), 0, Some(TriggerInput { data }), 10).unwrap();
    assert_eq!(acts.len(), 1);
    assert_eq!(board_body(&acts[0]), "Hello agents at Vara");
    match &acts[0] {
        FlowAction::Hub { to, gas_limit, .. } => {
            assert_eq!(*to, id(4));
            assert_eq!(*gas_limit, 7);
        },
        _ => panic!("expected a hub post"),
    }
    assert_eq!(svc.get_execution_status(0), Some(ExecutionStatus::Completed));
    assert_eq!(svc.get_execution_status(1), None);
    let w = svc.get_workflow(0).unwrap();
    assert_eq!((w.run_count, w.last_run_block, w.next_run_block), (1, 10, 11));
}

#[test]
fn tick_runs_due_interval_workflows_only() {
    let mut program = VaraFlowProgram::new(id(1), id(2), id(3), id(4));
    let svc = program.vara_flow();
    svc.register_workflow(id(7), 0, input("every10", Trigger::BlockInterval { every_n_blocks: 10 }, vec![board("a")]));
    svc.register_workflow(id(7), 0, input("manual", Trigger::ManualCall { authorized: None }, vec![board("b")]));
    svc.register_workflow(id(7), 0, input("every50", Trigger::BlockInterval { every_n_blocks: 50 }, vec![board("c")]));
    let acts = svc.tick(20).unwrap();
    assert_eq!(acts.len(), 1);
    assert_eq!(board_body(&acts[0]), "a");
    let w = svc.get_workflow(0).unwrap();
    assert_eq!((w.last_run_block, w.next_run_block, w.run_count), (20, 30, 1));
    assert_eq!(svc.get_stats().execution_count, 1);
    // Not due again before block 30.
    assert!(svc.tick(25).unwrap().is_empty());
    let acts = svc.tick(60).unwrap();
    assert_eq!(acts.len(), 2);
    assert_eq!(board_body(&acts[0]), "a");
    assert_eq!(board_body(&acts[1]), "c");
    assert_eq!(svc.get_execution_status(2), Some(ExecutionStatus::Completed));
}

#[test]
fn tick_announces_at_offset_blocks() {
    let mut program = VaraFlowProgram::new(id(1), id(2), id(3), id(4));
    let svc = program.vara_flow();
    let acts = svc.tick(300).unwrap();
    assert_eq!(acts.len(), 2);
    let expected = "VaraFlow LIVE | Block #300\nWorkflows: 0 total | 0 executions | 0 broadcasts\n--\nRegister your workflow in 1 message.\nTemplates: PriceAlert, MarketSummary, GasAware, PulseScheduler, Custom.\nVaraBridge data integrated. VaraPulse scheduled.\nMessage VaraFlow: use_template(template) or register_workflow(steps)";
    assert_eq!(board_body(&acts[0]), expected);
    match &acts[1] {
        FlowAction::Hub { cmd: HubCmd::ChatPost { body, mentions }, gas_limit, .. } => {
            assert_eq!(body, expected);
            assert!(mentions.is_empty());
            assert_eq!(*gas_limit, 2_000_000_000);
        },
        _ => panic!("expected a Chat post"),
    }
    assert!(svc.tick(200).unwrap().is_empty());
}

#[test]
fn failed_run_fails_the_tick_and_changes_nothing() {
    let mut program = VaraFlowProgram::new(id(1), id(2), id(3), id(4));
    let svc = program.vara_flow();
    svc.register_workflow(id(7), 0, input("ok", Trigger::BlockInterval { every_n_blocks: 1 }, vec![board("a")]));
    svc.register_workflow(id(7), 0, input("empty", Trigger::BlockInterval { every_n_blocks: 1 }, vec![]));
    assert_eq!(svc.tick(5).err(), Some(FlowError::NoSteps));
    assert_eq!(svc.get_stats().execution_count, 0);
    assert_eq!(svc.get_workflow(0).unwrap().run_count, 0);

    let modulo = step(
        StepType::ConditionalBranch {
            condition: Condition::BlockModulo { n: 0 },
            if_true: StepBox::new(board("t")),
            if_false: None,
        },
        None,
    );
    let mut patch = empty_patch();
    patch.steps = Some(vec![modulo]);
    svc.update_workflow(id(7), 1, patch).unwrap();
    assert_eq!(svc.tick(5).err(), Some(FlowError::ZeroModulus));
    assert_eq!(svc.get_execution_status(0), None);
}

#[test]
fn conditional_branch_on_block_modulo() {
    let mut program = VaraFlowProgram::new(id(1), id(2), id(3), id(4));
    let svc = program.vara_flow();
    let branch = step(
        StepType::ConditionalBranch {
            condition: Condition::BlockModulo { n: 4 },
            if_true: StepBox::new(board("even")),
            if_false: Some(StepBox::new(board("odd"))),
        },
        None,
    );
    svc.register_workflow(id(7), 0, input("m", Trigger::ManualCall { authorized: None }, vec![branch]));
    let a = svc.trigger_workflow(id(9), 0, None, 8).unwrap();
    assert_eq!(board_body(&a[0]), "even");
    let b = svc.trigger_workflow(id(9), 0, None, 9).unwrap();
    assert_eq!(board_body(&b[0]), "odd");
}

#[test]
fn query_step_waits_for_the_reply() {
    let mut program = VaraFlowProgram::new(id(1), id(2), id(3), id(4));
    let svc = program.vara_flow();
    let after = step(
        StepType::ConditionalBranch {
            condition: Condition::PriceAbove { symbol: "eth".to_string(), threshold_micro: 3_000_000_000 },
            if_true: StepBox::new(board("high")),
            if_false: None,
        },
        None,
    );
    let query = step(
        StepType::QueryBridge { query: QueryRequest { query_type: "all".to_string(), symbol: None, keys: None } },
        Some(after),
    );
    svc.register_workflow(id(7), 0, input("q", Trigger::ManualCall { authorized: None }, vec![query]));
    let acts = svc.trigger_workflow(id(9), 0, None, 10).unwrap();
    assert_eq!(acts.len(), 1);
    let pending = match acts.into_iter().next().unwrap() {
        FlowAction::QueryBridge { to, query, gas_limit, pending } => {
            assert_eq!(to, id(2));
            assert_eq!(query.query_type, "all");
            assert_eq!(gas_limit, 7);
            assert_eq!(pending.exec_id, 0);
            assert_eq!(pending.timeout_block, 20);
            pending
        },
        _ => panic!("expected a query"),
    };
    assert_eq!(svc.get_execution_status(0), Some(ExecutionStatus::Running));
    let msg = MessageId::new([42; 32]);
    svc.state.add_pending(msg, pending);
    // A reply nobody waits for changes nothing.
    let none = handle_bridge_reply(&mut svc.state, MessageId::new([1; 32]), all_reply(1, 1), 11).unwrap();
    assert!(none.is_empty());
    let acts = handle_bridge_reply(&mut svc.state, msg, all_reply(3_500_000_000, 9), 12).unwrap();
    assert_eq!(acts.len(), 1);
    assert_eq!(board_body(&acts[0]), "high");
    assert_eq!(svc.get_execution_status(0), Some(ExecutionStatus::Completed));
    assert!(svc.state.pending_replies.is_empty());
    assert_eq!(get_cached_price(&svc.state.cached_bridge_data, "Eth", 12), Some(3_500_000_000));
    assert_eq!(get_cached_gas(&svc.state.cached_bridge_data), 9);
}

#[test]
fn cache_expires_after_ttl() {
    let mut cache: Option<CachedBridgeData> = None;
    assert_eq!(get_cached_price(&cache, "ETH", 0), None);
    assert_eq!(get_cached_gas(&cache), u64::MAX);
    update_cache(&mut cache, &all_reply(5, 6), 1000);
    assert_eq!(get_cached_price(&cache, "eth", 1100), Some(5));
    assert_eq!(get_cached_price(&cache, "eth", 1101), None);
    assert_eq!(get_cached_price(&cache, "btc", 1000), None);
    update_cache(&mut cache, &QueryReply::Error("x".to_string()), 2000);
    assert_eq!(cache.as_ref().unwrap().updated_at_block, 1000);
}

#[test]
fn conditions_read_the_cache() {
    let mut cache: Option<CachedBridgeData> = None;
    update_cache(&mut cache, &all_reply(2_000_000, 300), 50);
    let above = Condition::PriceAbove { symbol: "ETH".to_string(), threshold_micro: 2_000_000 };
    let below = Condition::PriceBelow { symbol: "ETH".to_string(), threshold_micro: 1_000_000 };
    assert_eq!(evaluate_condition(&above, &cache, 60), Ok(true));
    assert_eq!(evaluate_condition(&below, &cache, 60), Ok(false));
    assert_eq!(evaluate_condition(&Condition::GasBelow { threshold_micro: 300 }, &cache, 60), Ok(true));
    assert_eq!(evaluate_condition(&Condition::Always, &None, 60), Ok(true));
    assert_eq!(evaluate_condition(&Condition::BlockModulo { n: 0 }, &None, 60), Err(FlowError::ZeroModulus));
}

#[test]
fn price_threshold_trigger_fires_from_cache() {
    let mut program = VaraFlowProgram::new(id(1), id(2), id(3), id(4));
    let svc = program.vara_flow();
    svc.register_workflow(
        id(7),
        0,
        input(
            "pt",
            Trigger::PriceThreshold { symbol: "eth".to_string(), above_usd: Some(10), below_usd: None },
            vec![board("p")],
        ),
    );
    assert!(svc.tick(5).unwrap().is_empty());
    update_cache(&mut svc.state.cached_bridge_data, &all_reply(11, 0), 5);
    let acts = svc.tick(6).unwrap();
    assert_eq!(acts.len(), 1);
    assert_eq!(board_body(&acts[0]), "p");
}

#[test]
fn render_replaces_every_key() {
    let mut data = StrMap::new();
    data.insert("A".to_string(), "1".to_string());
    data.insert("B".to_string(), "two".to_string());
    assert_eq!(render_template("{{A}}+{{A}}={{B}} {{C}}", &data, 7), "1+1=two {{C}}");
    assert_eq!(render_template("Block {{BLOCK}}, again {{BLOCK}}", &data, 1234), "Block 1234, again 1234");
    assert_eq!(render_template("plain", &StrMap::new(), 9), "plain");
    assert_eq!(render_template("Block {{BLOCK}}", &StrMap::new(), 1234), "Block 1234");
}

#[test]
fn price_alert_template_texts() {
    let mut params = no_params();
    params.symbol = Some("BTC".to_string());
    params.threshold_micro = Some(70_000_500_000);
    let w = build_template(TemplateType::PriceAlert, params);
    assert_eq!(w.name, "BTC Price Alert");
    assert_eq!(w.description, "Posts to Board when BTC crosses $70000");
    match w.trigger {
        Trigger::BlockInterval { every_n_blocks } => assert_eq!(every_n_blocks, 50),
        _ => panic!("expected an interval"),
    }
    let first = &w.steps[0];
    assert_eq!(first.gas_limit, 5_000_000_000);
    let branch = &first.on_success.as_ref().unwrap().0;
    match &branch.step_type {
        StepType::ConditionalBranch { condition, if_true, if_false } => {
            match condition {
                Condition::PriceAbove { symbol, threshold_micro } => {
                    assert_eq!(symbol, "BTC");
                    assert_eq!(*threshold_micro, 70_000_500_000);
                },
                _ => panic!("expected a price condition"),
            }
            match &if_true.0.step_type {
                StepType::PostBoard { body_template } => {
                    assert_eq!(body_template, "BTC Alert | Block {{BLOCK}}\nBTC above $70000!\nData via VaraBridge")
                },
                _ => panic!("expected a post"),
            }
            assert!(matches!(if_false.as_ref().unwrap().0.step_type, StepType::Done));
        },
        _ => panic!("expected a branch"),
    }
}

#[test]
fn template_defaults() {
    let eth = build_template(TemplateType::PriceAlert, no_params());
    assert_eq!(eth.name, "ETH Price Alert");
    assert_eq!(eth.description, "Posts to Board when ETH crosses $3000");
    let gas = build_template(TemplateType::GasAwareExecution, no_params());
    match &gas.steps[0].step_type {
        StepType::PostBoard { body_template } => assert_eq!(
            body_template,
            "Gas Alert | Block {{BLOCK}}\nGas below 500000 -- good time to deploy!\nVaraFlow automation active"
        ),
        _ => panic!("expected a post"),
    }
    match gas.trigger {
        Trigger::GasBelow { threshold_micro } => assert_eq!(threshold_micro, 500_000),
        _ => panic!("expected a gas trigger"),
    }
    let summary = build_template(TemplateType::MarketSummaryBoard, no_params());
    assert_eq!(summary.name, "Market Summary Board");
    let pulse = build_template(TemplateType::PulseScheduler, no_params());
    match pulse.trigger {
        Trigger::BlockInterval { every_n_blocks } => assert_eq!(every_n_blocks, 300),
        _ => panic!("expected an interval"),
    }
    let custom = build_template(TemplateType::Custom, no_params());
    assert!(matches!(custom.steps[0].step_type, StepType::Done));
    assert_eq!(custom.steps[0].gas_limit, 1_000_000_000);
    let update = build_template(TemplateType::OnBridgeUpdate, no_params());
    assert_eq!(update.name, "On Bridge Update Handler");
}

#[test]
fn use_template_registers_it() {
    let mut program = VaraFlowProgram::new(id(1), id(2), id(3), id(4));
    let svc = program.vara_flow();
    let mut params = no_params();
    params.interval = Some(77);
    let wid = svc.use_template(id(7), 3, TemplateType::Custom, params);
    assert_eq!(wid, 0);
    let w = svc.get_workflow(0).unwrap();
    assert_eq!(w.name, "Custom Workflow");
    assert_eq!(w.next_run_block, 80);
    assert_eq!(w.owner, id(7));
}

#[test]
fn tick_message_and_owner_only_settings() {
    let m = tick_message(1_000);
    assert_eq!(m.gas_limit, 800);
    assert_eq!(m.delay, TICK_INTERVAL);
    let mut expected = vec![32u8];
    expected.extend_from_slice(b"VaraFlow");
    expected.push(16);
    expected.extend_from_slice(b"Tick");
    assert_eq!(m.payload, expected);
    let mut program = VaraFlowProgram::new(id(1), id(2), id(3), id(4));
    let svc = program.vara_flow();
    assert_eq!(svc.start_tick(id(9), 100).err(), Some(FlowError::OwnerOnly));
    assert_eq!(svc.start_tick(id(1), 100).unwrap().gas_limit, 80);
    assert_eq!(svc.set_bridge(id(9), id(5)), Err(FlowError::OwnerOnly));
    assert_eq!(svc.set_pulse(id(1), id(6)), Ok(()));
    assert_eq!(svc.state.pulse_pid, id(6));
    assert_eq!(svc.state.bridge_pid, id(2));
}

#[test]
fn paused_workflow_is_not_ticked() {
    let mut program = VaraFlowProgram::new(id(1), id(2), id(3), id(4));
    let svc = program.vara_flow();
    svc.register_workflow(id(7), 0, input("p", Trigger::BlockInterval { every_n_blocks: 1 }, vec![board("x")]));
    svc.pause_workflow(id(7), 0).unwrap();
    assert!(svc.tick(10).unwrap().is_empty());
    svc.resume_workflow(id(7), 0, 10).unwrap();
    assert!(svc.tick(10).unwrap().is_empty());
    assert_eq!(svc.tick(11).unwrap().len(), 1);
}

#[test]
fn price_alert_posts_when_the_price_crosses() {
    let mut program = VaraFlowProgram::new(id(1), id(2), id(3), id(4));
    let svc = program.vara_flow();
    let mut params = no_params();
    params.symbol = Some("ETH".to_string());
    params.threshold_micro = Some(3_000_000_000);
    assert_eq!(svc.use_template(id(7), 0, TemplateType::PriceAlert, params), 0);
    let acts = svc.tick(50).unwrap();
    assert_eq!(acts.len(), 1);
    let pending = match acts.into_iter().next().unwrap() {
        FlowAction::QueryBridge { to, query, pending, .. } => {
            assert_eq!(to, id(2));
            assert_eq!(query.query_type, "price");
            assert_eq!(query.symbol.as_deref(), Some("ETH"));
            pending
        },
        _ => panic!("expected a price query"),
    };
    assert!(svc.state.cached_bridge_data.is_none());
    let msg = MessageId::new([5; 32]);
    svc.state.add_pending(msg, pending);
    let acts = handle_bridge_reply(&mut svc.state, msg, QueryReply::Price(Some(price("ETH", 3_100_000_000))), 51).unwrap();
    assert_eq!(acts.len(), 1);
    match &acts[0] {
        FlowAction::Hub { to, cmd: HubCmd::PostAnnouncement { body }, .. } => {
            assert_eq!(*to, id(4));
            assert_eq!(body, "ETH Alert | Block 51\nETH above $3000!\nData via VaraBridge");
        },
        _ => panic!("expected a Board post"),
    }
    assert_eq!(svc.get_execution_status(0), Some(ExecutionStatus::Completed));
    assert_eq!(get_cached_price(&svc.state.cached_bridge_data, "eth", 51), Some(3_100_000_000));
    // The reply is taken once: a second one finds nothing to continue.
    let again = handle_bridge_reply(&mut svc.state, msg, QueryReply::Price(Some(price("ETH", 1))), 52).unwrap();
    assert!(again.is_empty());
    assert_eq!(get_cached_price(&svc.state.cached_bridge_data, "eth", 52), Some(3_100_000_000));
}

#[test]
fn price_alert_stays_quiet_below_the_threshold() {
    let mut program = VaraFlowProgram::new(id(1), id(2), id(3), id(4));
    let svc = program.vara_flow();
    let mut params = no_params();
    params.threshold_micro = Some(3_000_000_000);
    svc.use_template(id(7), 0, TemplateType::PriceAlert, params);
    let pending = match svc.tick(50).unwrap().into_iter().next().unwrap() {
        FlowAction::QueryBridge { pending, .. } => pending,
        _ => panic!("expected a price query"),
    };
    let msg = MessageId::new([6; 32]);
    svc.state.add_pending(msg, pending);
    let acts = handle_bridge_reply(&mut svc.state, msg, QueryReply::Price(Some(price("ETH", 2_900_000_000))), 51).unwrap();
    assert!(acts.is_empty());
    assert_eq!(svc.get_execution_status(0), Some(ExecutionStatus::Completed));
    // A price reply does not bring gas into a fresh cache.
    assert_eq!(get_cached_gas(&svc.state.cached_bridge_data), u64::MAX);
}

#[test]
fn listings_nest() {
    let mut program = VaraFlowProgram::new(id(1), id(2), id(3), id(4));
    let svc = program.vara_flow();
    svc.register_workflow(id(7), 0, input("a", Trigger::OnBridgeUpdate, vec![board("x")]));
    svc.register_workflow(id(8), 0, input("b", Trigger::OnBridgeUpdate, vec![board("y")]));
    svc.register_workflow(id(7), 0, input("c", Trigger::OnBridgeUpdate, vec![board("z")]));
    svc.pause_workflow(id(7), 2).unwrap();
    let all: Vec<u64> = svc.list_workflows(None, false).iter().map(|s| s.id).collect();
    let active: Vec<u64> = svc.list_workflows(None, true).iter().map(|s| s.id).collect();
    let mine: Vec<u64> = svc.list_workflows(Some(id(7)), false).iter().map(|s| s.id).collect();
    let mine_active: Vec<u64> = svc.list_workflows(Some(id(7)), true).iter().map(|s| s.id).collect();
    assert_eq!(all, vec![0, 1, 2]);
    assert_eq!(active, vec![0, 1]);
    assert_eq!(mine, vec![0, 2]);
    assert_eq!(mine_active, vec![0]);
}

#[test]
fn tick_counts_its_broadcasts() {
    let mut program = VaraFlowProgram::new(id(1), id(2), id(3), id(4));
    let svc = program.vara_flow();
    let first = svc.tick(300).unwrap();
    assert!(board_body(&first[0]).contains(" 0 broadcasts\n"));
    assert_eq!(svc.get_stats().broadcast_count, 1);
    assert!(svc.tick(350).unwrap().is_empty());
    assert_eq!(svc.get_stats().broadcast_count, 1);
    let second = svc.tick(500).unwrap();
    assert!(board_body(&second[0]).contains(" 1 broadcasts\n"));
    assert_eq!(svc.get_stats().broadcast_count, 2);
}

#[test]
fn unanswered_query_times_out_at_the_tick() {
    let mut program = VaraFlowProgram::new(id(1), id(2), id(3), id(4));
    let svc = program.vara_flow();
    let query = step(
        StepType::QueryBridge { query: QueryRequest { query_type: "all".to_string(), symbol: None, keys: None } },
        Some(board("late")),
    );
    svc.register_workflow(id(7), 0, input("q", Trigger::ManualCall { authorized: None }, vec![query]));
    let acts = svc.trigger_workflow(id(9), 0, None, 10).unwrap();
    let pending = match acts.into_iter().next().unwrap() {
        FlowAction::QueryBridge { pending, .. } => pending,
        _ => panic!("expected a query"),
    };
    assert_eq!(pending.timeout_block, 20);
    let msg = MessageId::new([8; 32]);
    svc.state.add_pending(msg, pending);
    // Still in time at block 20.
    svc.tick(20).unwrap();
    assert_eq!(svc.state.pending_replies.len(), 1);
    assert_eq!(svc.get_execution_status(0), Some(ExecutionStatus::Running));
    // Past the deadline: the step is skipped and the run timed out.
    svc.tick(21).unwrap();
    assert!(svc.state.pending_replies.is_empty());
    assert_eq!(svc.get_execution_status(0), Some(ExecutionStatus::TimedOut));
    // A late reply finds nothing to continue.
    let late = handle_bridge_reply(&mut svc.state, msg, all_reply(1, 1), 22).unwrap();
    assert!(late.is_empty());
    assert_eq!(svc.get_execution_status(0), Some(ExecutionStatus::TimedOut));
}
