use vstd::prelude::*;

use crate::flow::state::{
    Condition, QueryRequest, Step, StepBox, StepType, Trigger, Workflow, WorkflowInput,
};
use crate::flow::bridge_client::{cached_price, CacheView};
use crate::flow::executor::{chain, chain_next, render, Planned};
use crate::text::{decimal, u64_text};

verus! {

/// The choices a caller may give a template; absent ones take the
/// template's defaults.
pub struct TemplateParams {
    pub interval: Option<u32>,
    pub symbol: Option<String>,
    pub threshold_micro: Option<u64>,
    pub body_template: Option<String>,
}

/// The ready-made workflows.
#[derive(Debug, Clone, Copy, PartialEq, Eq, Structural)]
pub enum TemplateType {
    PriceAlert,
    MarketSummaryBoard,
    GasAwareExecution,
    PulseScheduler,
    OnBridgeUpdate,
    Custom,
}

/// The interval given, else `default`.
pub open spec fn interval_or(p: TemplateParams, default: u32) -> u32 {
    match p.interval {
        Some(n) => n,
        None => default,
    }
}

/// The threshold given, else `default`.
pub open spec fn threshold_or(p: TemplateParams, default: u64) -> u64 {
    match p.threshold_micro {
        Some(t) => t,
        None => default,
    }
}

/// The symbol given, else `ETH`.
pub open spec fn symbol_or_eth(p: TemplateParams) -> Seq<char> {
    match p.symbol {
        Some(s) => s@,
        None => "ETH"@,
    }
}

/// The step that follows `s` on success (`s` itself when none does).
pub open spec fn success_of(s: Step) -> Step {
    match s.on_success {
        Some(b) => *b.0,
        None => s,
    }
}

/// The final step every template ends with: `Done`, with the default gas and
/// timeout and nothing after it.
pub open spec fn is_done_step(s: Step) -> bool {
    &&& s.step_type is Done
    &&& s.gas_limit == 1_000_000_000
    &&& s.timeout_blocks == 100
    &&& s.on_success is None
    &&& s.on_failure is None
    &&& s.on_timeout is None
}

/// A step with `gas`, the default timeout, and no other successor than the
/// final step on success.
pub open spec fn then_done(s: Step, gas: u128) -> bool {
    &&& s.gas_limit == gas
    &&& s.timeout_blocks == 100
    &&& (s.on_success matches Some(b) && is_done_step(*b.0))
    &&& s.on_failure is None
    &&& s.on_timeout is None
}

/// A step that asks the oracle a query of type `query_type`, for `symbol`
/// when one is given, without keys.
pub open spec fn asks_bridge(s: Step, query_type: Seq<char>, symbol: Option<Seq<char>>) -> bool {
    &&& s.step_type is QueryBridge
    &&& s.step_type->query.query_type@ == query_type
    &&& s.step_type->query.keys is None
    &&& match symbol {
        Some(x) => (s.step_type->query.symbol matches Some(y) && y@ == x),
        None => s.step_type->query.symbol is None,
    }
}

/// A step that posts `body` to the Board and then ends.
pub open spec fn posts_then_done(s: Step, body: Seq<char>) -> bool {
    &&& (s.step_type matches StepType::PostBoard { body_template } && body_template@ == body)
    &&& then_done(s, 2_000_000_000)
}

/// A step that asks the oracle for everything (5 000 000 000 gas) and then
/// goes on with `next`.
pub open spec fn asks_all_then(s: Step) -> bool {
    &&& asks_bridge(s, "all"@, None)
    &&& s.gas_limit == 5_000_000_000
    &&& s.timeout_blocks == 100
    &&& s.on_success is Some
    &&& s.on_failure is None
    &&& s.on_timeout is None
}

/// The price alert for `symbol` above `threshold` micro-dollars, checked
/// every `interval` blocks.
pub open spec fn price_alert(input: WorkflowInput, symbol: Seq<char>, threshold: u64, interval: u32) -> bool {
    let dollars = decimal((threshold / 1_000_000) as nat);
    &&& input.name@ == symbol + " Price Alert"@
    &&& input.description@ == "Posts to Board when "@ + symbol + " crosses $"@ + dollars
    &&& input.trigger == Trigger::BlockInterval { every_n_blocks: interval }
    &&& input.steps@.len() == 1
    &&& asks_bridge(input.steps@[0], "price"@, Some(symbol))
    &&& input.steps@[0].gas_limit == 5_000_000_000
    &&& input.steps@[0].timeout_blocks == 100
    &&& input.steps@[0].on_failure is None
    &&& input.steps@[0].on_timeout is None
    &&& input.steps@[0].on_success is Some
    &&& ({
        let s1 = success_of(input.steps@[0]);
        &&& s1.gas_limit == 2_000_000_000
        &&& s1.timeout_blocks == 100
        &&& s1.on_success is None
        &&& s1.on_failure is None
        &&& s1.on_timeout is None
        &&& s1.step_type is ConditionalBranch
        &&& (s1.step_type->condition matches Condition::PriceAbove { symbol: cs, threshold_micro }
            && cs@ == symbol && threshold_micro == threshold)
        &&& posts_then_done(
            *s1.step_type->if_true.0,
            symbol + " Alert | Block {{BLOCK}}\n"@ + symbol + " above $"@ + dollars
                + "!\nData via VaraBridge"@,
        )
        &&& (s1.step_type->if_false matches Some(b) && is_done_step(*b.0))
    })
}

/// The market summary posted every `interval` blocks.
pub open spec fn market_summary(input: WorkflowInput, interval: u32) -> bool {
    &&& input.name@ == "Market Summary Board"@
    &&& input.description@ == "Posts market summary to Board every N blocks"@
    &&& input.trigger == Trigger::BlockInterval { every_n_blocks: interval }
    &&& input.steps@.len() == 1
    &&& asks_all_then(input.steps@[0])
    &&& posts_then_done(
        success_of(input.steps@[0]),
        "Market Summary | Block {{BLOCK}}\nETH: {{ETH_PRICE}} | BTC: {{BTC_PRICE}}\nGas: {{GAS}}\nNews: {{NEWS_0}}\nData: VaraBridge"@,
    )
}

/// The post made whenever gas is at most `threshold`.
pub open spec fn gas_aware(input: WorkflowInput, threshold: u64) -> bool {
    &&& input.name@ == "Gas-Aware Execution"@
    &&& input.description@ == "Executes when gas drops below threshold"@
    &&& input.trigger == Trigger::GasBelow { threshold_micro: threshold }
    &&& input.steps@.len() == 1
    &&& posts_then_done(
        input.steps@[0],
        "Gas Alert | Block {{BLOCK}}\nGas below "@ + decimal(threshold as nat)
            + " -- good time to deploy!\nVaraFlow automation active"@,
    )
}

/// The pulse agent woken every `interval` blocks with fresh oracle data.
pub open spec fn pulse_scheduler(input: WorkflowInput, interval: u32) -> bool {
    &&& input.name@ == "VaraPulse Scheduler"@
    &&& input.description@ == "Wakes VaraPulse every N blocks with fresh Bridge data"@
    &&& input.trigger == Trigger::BlockInterval { every_n_blocks: interval }
    &&& input.steps@.len() == 1
    &&& asks_all_then(input.steps@[0])
    &&& (success_of(input.steps@[0])).step_type is WakePulse
    &&& then_done(success_of(input.steps@[0]), 5_000_000_000)
}

/// The post made whenever the oracle's data changes.
pub open spec fn on_bridge_update(input: WorkflowInput) -> bool {
    &&& input.name@ == "On Bridge Update Handler"@
    &&& input.description@ == "Fires whenever VaraBridge data updates"@
    &&& input.trigger == Trigger::OnBridgeUpdate
    &&& input.steps@.len() == 1
    &&& posts_then_done(
        input.steps@[0],
        "Bridge Updated | Block {{BLOCK}}\nNew data available via VaraBridge"@,
    )
}

/// The empty workflow run every `interval` blocks.
pub open spec fn custom(input: WorkflowInput, interval: u32) -> bool {
    &&& input.name@ == "Custom Workflow"@
    &&& input.description@ == "User-defined custom workflow"@
    &&& input.trigger == Trigger::BlockInterval { every_n_blocks: interval }
    &&& input.steps@.len() == 1
    &&& is_done_step(input.steps@[0])
}

/// `input` is the workflow that `template` makes with `params`.
pub open spec fn built(template: TemplateType, params: TemplateParams, input: WorkflowInput) -> bool {
    match template {
        TemplateType::PriceAlert => price_alert(
            input,
            symbol_or_eth(params),
            threshold_or(params, 3_000_000_000),
            interval_or(params, 50),
        ),
        TemplateType::MarketSummaryBoard => market_summary(input, interval_or(params, 200)),
        TemplateType::GasAwareExecution => gas_aware(input, threshold_or(params, 500_000)),
        TemplateType::PulseScheduler => pulse_scheduler(input, interval_or(params, 300)),
        TemplateType::OnBridgeUpdate => on_bridge_update(input),
        TemplateType::Custom => custom(input, interval_or(params, 100)),
    }
}

/// How each template is scheduled, with its defaults: a price alert every
/// 50 blocks, a market summary every 200, the pulse scheduler every 300 and
/// a custom workflow every 100 (each unless an interval is given); the
/// gas-aware workflow when gas is at most 500,000 micro-units (unless a
/// threshold is given); the update handler on each oracle update. Each
/// template is one step.
pub proof fn lemma_template_schedules(template: TemplateType, params: TemplateParams, input: WorkflowInput)
    requires
        built(template, params, input),
    ensures
        input.steps@.len() == 1,
        input.trigger == match template {
            TemplateType::PriceAlert => Trigger::BlockInterval {
                every_n_blocks: match params.interval {
                    Some(n) => n,
                    None => 50,
                },
            },
            TemplateType::MarketSummaryBoard => Trigger::BlockInterval {
                every_n_blocks: match params.interval {
                    Some(n) => n,
                    None => 200,
                },
            },
            TemplateType::GasAwareExecution => Trigger::GasBelow {
                threshold_micro: match params.threshold_micro {
                    Some(t) => t,
                    None => 500_000,
                },
            },
            TemplateType::PulseScheduler => Trigger::BlockInterval {
                every_n_blocks: match params.interval {
                    Some(n) => n,
                    None => 300,
                },
            },
            TemplateType::OnBridgeUpdate => Trigger::OnBridgeUpdate,
            TemplateType::Custom => Trigger::BlockInterval {
                every_n_blocks: match params.interval {
                    Some(n) => n,
                    None => 100,
                },
            },
        },
{
}

/// A price alert posts exactly when the price crosses its threshold: it
/// first asks the oracle for the price of its symbol (ETH unless one is
/// given); once the oracle has answered, its check posts the alert to the
/// Board and ends when a fresh price for the symbol is at or above the
/// threshold (3,000 dollars unless one is given), and otherwise ends without
/// a post.
pub proof fn lemma_price_alert_posts(
    params: TemplateParams,
    input: WorkflowInput,
    cache: Option<CacheView>,
    data: Seq<(Seq<char>, String)>,
    exec_id: u64,
    block: u32,
)
    requires
        built(TemplateType::PriceAlert, params, input),
    ensures
        ({
            let sym = match params.symbol {
                Some(x) => x@,
                None => "ETH"@,
            };
            let t = match params.threshold_micro {
                Some(x) => x,
                None => 3_000_000_000u64,
            };
            let dollars = decimal((t / 1_000_000) as nat);
            let check = success_of(input.steps@[0]);
            &&& asks_bridge(input.steps@[0], "price"@, Some(sym))
            &&& chain(cache, data, exec_id, check, block) == if (cached_price(cache, sym, block) matches Some(
                p,
            ) && p >= t) {
                Some(
                    (
                        seq![
                            Planned::Post {
                                body: render(
                                    sym + " Alert | Block {{BLOCK}}\n"@ + sym + " above $"@ + dollars
                                        + "!\nData via VaraBridge"@,
                                    data,
                                    block,
                                ),
                                gas_limit: 2_000_000_000,
                            },
                        ],
                        true,
                    ),
                )
            } else {
                Some((Seq::<Planned>::empty(), true))
            }
        }),
{
    let check = success_of(input.steps@[0]);
    let post = *check.step_type->if_true.0;
    let done = *post.on_success->Some_0.0;
    assert(chain(cache, data, exec_id, done, block) == Some((Seq::<Planned>::empty(), true)));
    assert(chain_next(cache, data, exec_id, post.on_success, block) == Some(
        (Seq::<Planned>::empty(), true),
    ));
    let pl = chain(cache, data, exec_id, post, block);
    assert(pl matches Some((ps, d)) && ps =~= seq![
        Planned::Post { body: render(post.step_type->PostBoard_body_template@, data, block), gas_limit: 2_000_000_000 },
    ] && d);
    assert(chain_next(cache, data, exec_id, check.step_type->if_false, block) == Some(
        (Seq::<Planned>::empty(), true),
    ));
}

/// The registration data of a workflow.
pub open spec fn input_of(w: Workflow) -> WorkflowInput {
    WorkflowInput { name: w.name, description: w.description, trigger: w.trigger, steps: w.steps }
}

fn done_step() -> (r: Step)
    ensures
        is_done_step(r),
{
    Step::default()
}

fn done_box() -> (r: Option<StepBox>)
    ensures
        r matches Some(b) && is_done_step(*b.0),
{
    Some(StepBox::new(done_step()))
}

fn query_all() -> (r: QueryRequest)
    ensures
        r.query_type@ == "all"@,
        r.symbol is None,
        r.keys is None,
{
    QueryRequest { query_type: "all".to_owned(), symbol: None, keys: None }
}

fn post_step(body: String) -> (r: Step)
    ensures
        posts_then_done(r, body@),
{
    Step {
        step_type: StepType::PostBoard { body_template: body },
        gas_limit: 2_000_000_000,
        timeout_blocks: 100,
        on_success: done_box(),
        on_failure: None,
        on_timeout: None,
    }
}

/// The workflow that `template` makes with `params`.
pub fn build_template(template: TemplateType, params: TemplateParams) -> (r: WorkflowInput)
    ensures
        built(template, params, r),
{
    match template {
        TemplateType::PriceAlert => build_price_alert_template(params),
        TemplateType::MarketSummaryBoard => build_market_summary_template(params),
        TemplateType::GasAwareExecution => build_gas_aware_template(params),
        TemplateType::PulseScheduler => build_pulse_scheduler_template(params),
        TemplateType::OnBridgeUpdate => build_on_bridge_update_template(params),
        TemplateType::Custom => build_custom_template(params),
    }
}

/// A price alert: every interval (50 blocks by default) ask the oracle the
/// price of the symbol (ETH by default) and post to the Board when it is at
/// least the threshold (3 000 dollars by default).
pub fn build_price_alert_template(params: TemplateParams) -> (r: WorkflowInput)
    ensures
        price_alert(
            r,
            symbol_or_eth(params),
            threshold_or(params, 3_000_000_000),
            interval_or(params, 50),
        ),
{
    let symbol = match params.symbol {
        Some(s) => s,
        None => "ETH".to_owned(),
    };
    let threshold = match params.threshold_micro {
        Some(t) => t,
        None => 3_000_000_000,
    };
    let interval = match params.interval {
        Some(n) => n,
        None => 50,
    };
    let dollars = u64_text(threshold / 1_000_000);
    let mut name = symbol.clone();
    name.append(" Price Alert");
    let mut description = "Posts to Board when ".to_owned();
    description.append(symbol.as_str());
    description.append(" crosses $");
    description.append(dollars.as_str());
    let mut body = symbol.clone();
    body.append(" Alert | Block {{BLOCK}}\n");
    body.append(symbol.as_str());
    body.append(" above $");
    body.append(dollars.as_str());
    body.append("!\nData via VaraBridge");
    let branch = Step {
        step_type: StepType::ConditionalBranch {
            condition: Condition::PriceAbove { symbol: symbol.clone(), threshold_micro: threshold },
            if_true: StepBox::new(post_step(body)),
            if_false: done_box(),
        },
        gas_limit: 2_000_000_000,
        timeout_blocks: 100,
        on_success: None,
        on_failure: None,
        on_timeout: None,
    };
    let first = Step {
        step_type: StepType::QueryBridge {
            query: QueryRequest { query_type: "price".to_owned(), symbol: Some(symbol), keys: None },
        },
        gas_limit: 5_000_000_000,
        timeout_blocks: 100,
        on_success: Some(StepBox::new(branch)),
        on_failure: None,
        on_timeout: None,
    };
    let mut steps: Vec<Step> = Vec::new();
    steps.push(first);
    WorkflowInput {
        name,
        description,
        trigger: Trigger::BlockInterval { every_n_blocks: interval },
        steps,
    }
}

/// A market summary posted to the Board every interval (200 blocks by
/// default), after asking the oracle for everything.
pub fn build_market_summary_template(params: TemplateParams) -> (r: WorkflowInput)
    ensures
        market_summary(r, interval_or(params, 200)),
{
    let interval = match params.interval {
        Some(n) => n,
        None => 200,
    };
    let first = Step {
        step_type: StepType::QueryBridge { query: query_all() },
        gas_limit: 5_000_000_000,
        timeout_blocks: 100,
        on_success: Some(
            StepBox::new(
                post_step(
                    "Market Summary | Block {{BLOCK}}\nETH: {{ETH_PRICE}} | BTC: {{BTC_PRICE}}\nGas: {{GAS}}\nNews: {{NEWS_0}}\nData: VaraBridge".to_owned(),
                ),
            ),
        ),
        on_failure: None,
        on_timeout: None,
    };
    let mut steps: Vec<Step> = Vec::new();
    steps.push(first);
    WorkflowInput {
        name: "Market Summary Board".to_owned(),
        description: "Posts market summary to Board every N blocks".to_owned(),
        trigger: Trigger::BlockInterval { every_n_blocks: interval },
        steps,
    }
}

/// A post to the Board whenever gas is at most the threshold (500 000 by
/// default).
pub fn build_gas_aware_template(params: TemplateParams) -> (r: WorkflowInput)
    ensures
        gas_aware(r, threshold_or(params, 500_000)),
{
    let threshold = match params.threshold_micro {
        Some(t) => t,
        None => 500_000,
    };
    let mut body = "Gas Alert | Block {{BLOCK}}\nGas below ".to_owned();
    body.append(u64_text(threshold).as_str());
    body.append(" -- good time to deploy!\nVaraFlow automation active");
    let mut steps: Vec<Step> = Vec::new();
    steps.push(post_step(body));
    WorkflowInput {
        name: "Gas-Aware Execution".to_owned(),
        description: "Executes when gas drops below threshold".to_owned(),
        trigger: Trigger::GasBelow { threshold_micro: threshold },
        steps,
    }
}

/// Every interval (300 blocks by default): ask the oracle for everything,
/// then wake the pulse agent.
pub fn build_pulse_scheduler_template(params: TemplateParams) -> (r: WorkflowInput)
    ensures
        pulse_scheduler(r, interval_or(params, 300)),
{
    let interval = match params.interval {
        Some(n) => n,
        None => 300,
    };
    let wake = Step {
        step_type: StepType::WakePulse,
        gas_limit: 5_000_000_000,
        timeout_blocks: 100,
        on_success: done_box(),
        on_failure: None,
        on_timeout: None,
    };
    let first = Step {
        step_type: StepType::QueryBridge { query: query_all() },
        gas_limit: 5_000_000_000,
        timeout_blocks: 100,
        on_success: Some(StepBox::new(wake)),
        on_failure: None,
        on_timeout: None,
    };
    let mut steps: Vec<Step> = Vec::new();
    steps.push(first);
    WorkflowInput {
        name: "VaraPulse Scheduler".to_owned(),
        description: "Wakes VaraPulse every N blocks with fresh Bridge data".to_owned(),
        trigger: Trigger::BlockInterval { every_n_blocks: interval },
        steps,
    }
}

/// A post to the Board whenever the oracle's data changes.
pub fn build_on_bridge_update_template(params: TemplateParams) -> (r: WorkflowInput)
    ensures
        on_bridge_update(r),
{
    let mut steps: Vec<Step> = Vec::new();
    steps.push(
        post_step("Bridge Updated | Block {{BLOCK}}\nNew data available via VaraBridge".to_owned()),
    );
    WorkflowInput {
        name: "On Bridge Update Handler".to_owned(),
        description: "Fires whenever VaraBridge data updates".to_owned(),
        trigger: Trigger::OnBridgeUpdate,
        steps,
    }
}

/// A workflow that does nothing, run every interval (100 blocks by default).
pub fn build_custom_template(params: TemplateParams) -> (r: WorkflowInput)
    ensures
        custom(r, interval_or(params, 100)),
{
    let interval = match params.interval {
        Some(n) => n,
        None => 100,
    };
    let mut steps: Vec<Step> = Vec::new();
    steps.push(done_step());
    WorkflowInput {
        name: "Custom Workflow".to_owned(),
        description: "User-defined custom workflow".to_owned(),
        trigger: Trigger::BlockInterval { every_n_blocks: interval },
        steps,
    }
}

} // verus!
