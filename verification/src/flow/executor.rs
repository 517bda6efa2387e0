use vstd::prelude::*;

use crate::flow::bridge_client::{
    cache_view, cached_gas, cached_price, copy_cache, get_cached_gas, get_cached_price,
    reply_cache, update_cache, CacheView, CachedBridgeData,
};
use crate::flow::state::{
    copy_bytes, copy_opt_step, copy_query, copy_texts_list, opt_step_eqv, query_eqv, wf_pos,
    Condition, EncodedCall, ExecutionContext, ExecutionStatus, FlowError, FlowState, HubCmd,
    PendingStep, PulseCmd, QueryReply, QueryRequest, Step, StepBox, StepType, TriggerInput, Workflow,
};
use crate::flow::workflow::{interval_of, next_run};
use crate::ids::{ActorId, MessageId};
use crate::strmap::StrMap;
use crate::text::{decimal, replace, replace_all, text_of, u32_text};
use vstd::wrapping::{u32_specs, u64_specs};

verus! {

/// A message the orchestrator sends while it runs a workflow.
pub enum FlowAction {
    /// A call to another program.
    CallProgram { pid: ActorId, call: EncodedCall, gas_limit: u128 },
    /// A post to the network hub.
    Hub { to: ActorId, cmd: HubCmd, gas_limit: u128 },
    /// The command `PulseCmd::Run`, which wakes the pulse agent.
    WakePulse { to: ActorId, gas_limit: u128 },
    /// A query to the oracle; once sent, `pending` waits for the reply under
    /// the id of the message (see `FlowState::add_pending`).
    QueryBridge { to: ActorId, query: QueryRequest, gas_limit: u128, pending: PendingStep },
}

/// What a step sends, as the specification describes it.
pub enum Planned {
    Call { pid: ActorId, method: String, args: Seq<u8>, gas_limit: u128 },
    Post { body: Seq<char>, gas_limit: u128 },
    Chat { body: Seq<char>, mentions: Seq<String>, gas_limit: u128 },
    Wake { gas_limit: u128 },
    Query {
        query: QueryRequest,
        gas_limit: u128,
        exec_id: u64,
        next_step: Option<StepBox>,
        timeout_block: u32,
    },
}

/// `a` is the message `p` describes, sent by the orchestrator in state `s`.
pub open spec fn fulfils(a: FlowAction, p: Planned, s: FlowState) -> bool {
    match (a, p) {
        (
            FlowAction::CallProgram { pid, call, gas_limit },
            Planned::Call { pid: p2, method, args, gas_limit: g },
        ) => pid == p2 && call.method == method && call.args@ == args && gas_limit == g,
        (FlowAction::Hub { to, cmd, gas_limit }, Planned::Post { body, gas_limit: g }) => to
            == s.network_pid && gas_limit == g && (cmd matches HubCmd::PostAnnouncement { body: b }
            && b@ == body),
        (FlowAction::Hub { to, cmd, gas_limit }, Planned::Chat { body, mentions, gas_limit: g }) => to
            == s.network_pid && gas_limit == g && (cmd matches HubCmd::ChatPost {
            body: b,
            mentions: m,
        } && b@ == body && m@ == mentions),
        (FlowAction::WakePulse { to, gas_limit }, Planned::Wake { gas_limit: g }) => to
            == s.pulse_pid && gas_limit == g,
        (
            FlowAction::QueryBridge { to, query, gas_limit, pending },
            Planned::Query { query: q, gas_limit: g, exec_id, next_step, timeout_block },
        ) => to == s.bridge_pid && query_eqv(query, q) && gas_limit == g && pending.exec_id
            == exec_id && opt_step_eqv(pending.next_step, next_step) && pending.timeout_block
            == timeout_block,
        _ => false,
    }
}

/// The messages are those the plans describe, one for one.
pub open spec fn fulfils_all(acts: Seq<FlowAction>, plans: Seq<Planned>, s: FlowState) -> bool {
    &&& acts.len() == plans.len()
    &&& forall|i: int| 0 <= i < acts.len() ==> fulfils(#[trigger] acts[i], plans[i], s)
}

/// The placeholder for `key` in a template: `{{key}}`.
pub open spec fn placeholder(key: Seq<char>) -> Seq<char> {
    "{{"@ + key + "}}"@
}

/// The template with each `{{key}}` of `data`, in key order, replaced by its value.
pub open spec fn render_data(template: Seq<char>, data: Seq<(Seq<char>, String)>) -> Seq<char>
    decreases data.len(),
{
    if data.len() == 0 {
        template
    } else {
        replace_all(render_data(template, data.drop_last()), placeholder(data.last().0), data.last().1@)
    }
}

/// The template rendered at `block`: each `{{key}}` of `data` replaced by its
/// value, then each `{{BLOCK}}` by the block height in decimal.
pub open spec fn render(template: Seq<char>, data: Seq<(Seq<char>, String)>, block: u32) -> Seq<char> {
    replace_all(render_data(template, data), "{{BLOCK}}"@, decimal(block as nat))
}

/// The value of a condition; `None` when it cannot be evaluated (a
/// `BlockModulo` with `n == 0`, on which the program fails).
pub open spec fn condition_value(c: Condition, cache: Option<CacheView>, block: u32) -> Option<bool> {
    match c {
        Condition::PriceAbove { symbol, threshold_micro } => Some(
            match cached_price(cache, symbol@, block) {
                Some(p) => p >= threshold_micro,
                None => false,
            },
        ),
        Condition::PriceBelow { symbol, threshold_micro } => Some(
            match cached_price(cache, symbol@, block) {
                Some(p) => p <= threshold_micro,
                None => false,
            },
        ),
        Condition::GasBelow { threshold_micro } => Some(cached_gas(cache) <= threshold_micro),
        Condition::BlockModulo { n } => if n == 0 {
            None
        } else {
            Some(block % n == 0)
        },
        Condition::Always => Some(true),
    }
}

pub open spec fn prepend(p: Planned, rest: Option<(Seq<Planned>, bool)>) -> Option<(Seq<Planned>, bool)> {
    match rest {
        Some((ps, done)) => Some((seq![p] + ps, done)),
        None => None,
    }
}

/// What running `step` of execution `exec_id` sends, and whether the
/// execution completes with it (it does not when it waits for the oracle).
/// `None` when the run fails.
pub open spec fn chain(
    cache: Option<CacheView>,
    data: Seq<(Seq<char>, String)>,
    exec_id: u64,
    step: Step,
    block: u32,
) -> Option<(Seq<Planned>, bool)>
    decreases step,
{
    match step.step_type {
        StepType::QueryBridge { query } => Some(
            (
                seq![
                    Planned::Query {
                        query,
                        gas_limit: step.gas_limit,
                        exec_id,
                        next_step: step.on_success,
                        timeout_block: u32_specs::wrapping_add(block, step.timeout_blocks),
                    },
                ],
                false,
            ),
        ),
        StepType::CallProgram { pid, method, args } => prepend(
            Planned::Call { pid, method, args: args@, gas_limit: step.gas_limit },
            chain_next(cache, data, exec_id, step.on_success, block),
        ),
        StepType::PostBoard { body_template } => prepend(
            Planned::Post { body: render(body_template@, data, block), gas_limit: step.gas_limit },
            chain_next(cache, data, exec_id, step.on_success, block),
        ),
        StepType::PostChat { body_template, mentions } => prepend(
            Planned::Chat {
                body: render(body_template@, data, block),
                mentions: mentions@,
                gas_limit: step.gas_limit,
            },
            chain_next(cache, data, exec_id, step.on_success, block),
        ),
        StepType::ConditionalBranch { condition, if_true, if_false } => match condition_value(
            condition,
            cache,
            block,
        ) {
            None => None,
            Some(true) => chain(cache, data, exec_id, *if_true.0, block),
            Some(false) => chain_next(cache, data, exec_id, if_false, block),
        },
        StepType::WakePulse => prepend(
            Planned::Wake { gas_limit: step.gas_limit },
            chain_next(cache, data, exec_id, step.on_success, block),
        ),
        StepType::Done => Some((Seq::empty(), true)),
    }
}

/// Running an optional next step: none completes the execution.
pub open spec fn chain_next(
    cache: Option<CacheView>,
    data: Seq<(Seq<char>, String)>,
    exec_id: u64,
    next: Option<StepBox>,
    block: u32,
) -> Option<(Seq<Planned>, bool)>
    decreases next,
{
    match next {
        Some(b) => chain(cache, data, exec_id, *b.0, block),
        None => Some((Seq::empty(), true)),
    }
}

/// What each kind of step sends first: a query step only its query to the
/// oracle, leaving the run waiting; a call, post, chat or wake step its one
/// message (the call with the step's method and arguments, the post and chat
/// with the rendered template, the chat mentioning exactly the step's
/// mentions), followed by the rest of the run, and with no next step nothing
/// more, the run complete; a done step nothing, the run complete; a branch
/// the run of its first step when its condition holds, nothing (the run
/// complete) when it fails and there is no other step, and a failed run
/// when its condition cannot be evaluated.
pub proof fn lemma_step_messages(
    cache: Option<CacheView>,
    data: Seq<(Seq<char>, String)>,
    exec_id: u64,
    step: Step,
    block: u32,
)
    ensures
        match step.step_type {
            StepType::QueryBridge { query } => chain(cache, data, exec_id, step, block) == Some(
                (
                    seq![
                        Planned::Query {
                            query,
                            gas_limit: step.gas_limit,
                            exec_id,
                            next_step: step.on_success,
                            timeout_block: u32_specs::wrapping_add(block, step.timeout_blocks),
                        },
                    ],
                    false,
                ),
            ),
            StepType::CallProgram { pid, method, args } => first_message(
                chain(cache, data, exec_id, step, block),
                Planned::Call { pid, method, args: args@, gas_limit: step.gas_limit },
                step.on_success,
            ),
            StepType::PostBoard { body_template } => first_message(
                chain(cache, data, exec_id, step, block),
                Planned::Post { body: render(body_template@, data, block), gas_limit: step.gas_limit },
                step.on_success,
            ),
            StepType::PostChat { body_template, mentions } => first_message(
                chain(cache, data, exec_id, step, block),
                Planned::Chat {
                    body: render(body_template@, data, block),
                    mentions: mentions@,
                    gas_limit: step.gas_limit,
                },
                step.on_success,
            ),
            StepType::WakePulse => first_message(
                chain(cache, data, exec_id, step, block),
                Planned::Wake { gas_limit: step.gas_limit },
                step.on_success,
            ),
            StepType::Done => chain(cache, data, exec_id, step, block) == Some(
                (Seq::<Planned>::empty(), true),
            ),
            StepType::ConditionalBranch { condition, if_true, if_false } => match condition_value(
                condition,
                cache,
                block,
            ) {
                None => chain(cache, data, exec_id, step, block) is None,
                Some(true) => chain(cache, data, exec_id, step, block) == chain(
                    cache,
                    data,
                    exec_id,
                    *if_true.0,
                    block,
                ),
                Some(false) => if_false is None ==> chain(cache, data, exec_id, step, block) == Some(
                    (Seq::<Planned>::empty(), true),
                ),
            },
        },
{
    if step.on_success is None {
        assert(chain_next(cache, data, exec_id, step.on_success, block) == Some(
            (Seq::<Planned>::empty(), true),
        ));
        assert forall|p: Planned| #[trigger] seq![p] + Seq::<Planned>::empty() =~= seq![p] by {}
    }
    if let StepType::ConditionalBranch { if_false, .. } = step.step_type {
        if if_false is None {
            assert(chain_next(cache, data, exec_id, if_false, block) == Some(
                (Seq::<Planned>::empty(), true),
            ));
        }
    }
}

/// What each condition tests at `block`: a price above (below) holds when a
/// fresh price is cached for the symbol at or above (at or below) the
/// threshold; gas below when the cached gas is at most the threshold; a
/// block modulo `n` when `n` divides the block, and it cannot be evaluated
/// for `n == 0`; always always.
pub proof fn lemma_condition_values(c: Condition, cache: Option<CacheView>, block: u32)
    ensures
        match c {
            Condition::PriceAbove { symbol, threshold_micro } => condition_value(c, cache, block)
                == Some(cached_price(cache, symbol@, block) matches Some(p) && p >= threshold_micro),
            Condition::PriceBelow { symbol, threshold_micro } => condition_value(c, cache, block)
                == Some(cached_price(cache, symbol@, block) matches Some(p) && p <= threshold_micro),
            Condition::GasBelow { threshold_micro } => condition_value(c, cache, block) == Some(
                cached_gas(cache) <= threshold_micro,
            ),
            Condition::BlockModulo { n } => if n == 0 {
                condition_value(c, cache, block) is None
            } else {
                condition_value(c, cache, block) == Some(block % n == 0)
            },
            Condition::Always => condition_value(c, cache, block) == Some(true),
        },
{
}

/// A run that sends `first` and then goes on with `next`: when it succeeds
/// its first message is `first`, and with no next step that is all it sends
/// and the run is complete.
pub open spec fn first_message(run: Option<(Seq<Planned>, bool)>, first: Planned, next: Option<StepBox>) -> bool {
    &&& run matches Some((ps, _)) ==> ps.len() >= 1 && ps[0] == first
    &&& next is None ==> run == Some((seq![first], true))
}

/// The executions with execution `exec_id` (if it exists) completed.
pub open spec fn completed(es: Seq<ExecutionContext>, exec_id: u64) -> Seq<ExecutionContext> {
    if exec_id < es.len() {
        es.update(exec_id as int, ExecutionContext { status: ExecutionStatus::Completed, ..es[exec_id as int] })
    } else {
        es
    }
}

/// The data of execution `exec_id`, none when it does not exist.
pub open spec fn data_of(es: Seq<ExecutionContext>, exec_id: u64) -> Seq<(Seq<char>, String)> {
    if exec_id < es.len() {
        es[exec_id as int].data@
    } else {
        Seq::empty()
    }
}

/// The template rendered at `block`: each `{{key}}` of `data`, in key order,
/// replaced by its value, then each `{{BLOCK}}` by the block height.
pub fn render_template(template: &str, data: &StrMap<String>, block: u32) -> (r: String)
    ensures
        r@ == render(template@, data@, block),
{
    let mut result = text_of(template);
    let mut i: usize = 0;
    while i < data.entries.len()
        invariant
            i <= data@.len(),
            data@.len() == data.entries@.len(),
            result@ == render_data(template@, data@.take(i as int)),
        decreases data@.len() - i,
    {
        proof {
            reveal_strlit("{{");
            reveal_strlit("}}");
        }
        let mut ph = String::new();
        ph.append("{{");
        ph.append(data.entries[i].0.as_str());
        ph.append("}}");
        assert(ph@ == placeholder(data@[i as int].0));
        result = replace(result.as_str(), ph.as_str(), data.entries[i].1.as_str());
        assert(data@.take(i + 1).drop_last() =~= data@.take(i as int));
        i = i + 1;
    }
    assert(data@.take(i as int) =~= data@);
    proof {
        reveal_strlit("{{BLOCK}}");
    }
    replace(result.as_str(), "{{BLOCK}}", u32_text(block).as_str())
}

/// The value of a condition against the cache at `block`.
pub fn evaluate_condition(condition: &Condition, cache: &Option<CachedBridgeData>, block: u32) -> (r: Result<bool, FlowError>)
    ensures
        match condition_value(*condition, cache_view(*cache), block) {
            Some(b) => r == Ok::<bool, FlowError>(b),
            None => r == Err::<bool, FlowError>(FlowError::ZeroModulus),
        },
{
    match condition {
        Condition::PriceAbove { symbol, threshold_micro } => Ok(
            match get_cached_price(cache, symbol.as_str(), block) {
                Some(p) => p >= *threshold_micro,
                None => false,
            },
        ),
        Condition::PriceBelow { symbol, threshold_micro } => Ok(
            match get_cached_price(cache, symbol.as_str(), block) {
                Some(p) => p <= *threshold_micro,
                None => false,
            },
        ),
        Condition::GasBelow { threshold_micro } => Ok(get_cached_gas(cache) <= *threshold_micro),
        Condition::BlockModulo { n } => {
            if *n == 0 {
                Err(FlowError::ZeroModulus)
            } else {
                Ok(block % *n == 0)
            }
        },
        Condition::Always => Ok(true),
    }
}

fn with_first(a: FlowAction, rest: Result<(Vec<FlowAction>, bool), FlowError>) -> (r: Result<(Vec<FlowAction>, bool), FlowError>)
    ensures
        match rest {
            Ok((acts, done)) => r matches Ok((racts, rdone)) && rdone == done && racts@ == seq![a]
                + acts@,
            Err(e) => r == Err::<(Vec<FlowAction>, bool), FlowError>(e),
        },
{
    match rest {
        Ok((mut acts, done)) => {
            let mut v: Vec<FlowAction> = Vec::new();
            v.push(a);
            v.append(&mut acts);
            Ok((v, done))
        },
        Err(e) => Err(e),
    }
}

proof fn lemma_fulfils_prepend(a: FlowAction, p: Planned, acts: Seq<FlowAction>, plans: Seq<Planned>, s: FlowState)
    requires
        fulfils(a, p, s),
        fulfils_all(acts, plans, s),
    ensures
        fulfils_all(seq![a] + acts, seq![p] + plans, s),
{
    assert forall|i: int| 0 <= i < (seq![a] + acts).len() implies fulfils(
        #[trigger] (seq![a] + acts)[i],
        (seq![p] + plans)[i],
        s,
    ) by {
        if i > 0 {
            assert((seq![a] + acts)[i] == acts[i - 1]);
            assert((seq![p] + plans)[i] == plans[i - 1]);
        }
    }
}

/// Runs `step` of execution `exec_id` without changing any state: the
/// messages it sends and whether the execution completes.
pub fn run_step(
    state: &FlowState,
    cache: &Option<CachedBridgeData>,
    data: &StrMap<String>,
    exec_id: u64,
    step: &Step,
    block: u32,
) -> (r: Result<(Vec<FlowAction>, bool), FlowError>)
    ensures
        match chain(cache_view(*cache), data@, exec_id, *step, block) {
            None => r == Err::<(Vec<FlowAction>, bool), FlowError>(FlowError::ZeroModulus),
            Some((plans, done)) => r matches Ok((acts, d)) && d == done && fulfils_all(
                acts@,
                plans,
                *state,
            ),
        },
    decreases step,
{
    match &step.step_type {
        StepType::QueryBridge { query } => {
            let pending = PendingStep {
                exec_id,
                next_step: copy_opt_step(&step.on_success),
                timeout_block: block.wrapping_add(step.timeout_blocks),
            };
            let mut v: Vec<FlowAction> = Vec::new();
            v.push(
                FlowAction::QueryBridge {
                    to: state.bridge_pid,
                    query: copy_query(query),
                    gas_limit: step.gas_limit,
                    pending,
                },
            );
            Ok((v, false))
        },
        StepType::CallProgram { pid, method, args } => {
            let a = FlowAction::CallProgram {
                pid: *pid,
                call: EncodedCall { method: method.clone(), args: copy_bytes(args) },
                gas_limit: step.gas_limit,
            };
            let rest = run_next(state, cache, data, exec_id, &step.on_success, block);
            proof {
                if rest is Ok {
                    let acts = rest->Ok_0.0;
                    let (plans, _) = chain_next(cache_view(*cache), data@, exec_id, step.on_success, block)->Some_0;
                    lemma_fulfils_prepend(
                        a,
                        Planned::Call { pid: *pid, method: *method, args: args@, gas_limit: step.gas_limit },
                        acts@,
                        plans,
                        *state,
                    );
                }
            }
            with_first(a, rest)
        },
        StepType::PostBoard { body_template } => {
            let body = render_template(body_template.as_str(), data, block);
            let a = FlowAction::Hub {
                to: state.network_pid,
                cmd: HubCmd::PostAnnouncement { body },
                gas_limit: step.gas_limit,
            };
            let rest = run_next(state, cache, data, exec_id, &step.on_success, block);
            proof {
                if rest is Ok {
                    let acts = rest->Ok_0.0;
                    let (plans, _) = chain_next(cache_view(*cache), data@, exec_id, step.on_success, block)->Some_0;
                    lemma_fulfils_prepend(
                        a,
                        Planned::Post { body: render(body_template@, data@, block), gas_limit: step.gas_limit },
                        acts@,
                        plans,
                        *state,
                    );
                }
            }
            with_first(a, rest)
        },
        StepType::PostChat { body_template, mentions } => {
            let body = render_template(body_template.as_str(), data, block);
            let a = FlowAction::Hub {
                to: state.network_pid,
                cmd: HubCmd::ChatPost { body, mentions: copy_texts_list(mentions) },
                gas_limit: step.gas_limit,
            };
            let rest = run_next(state, cache, data, exec_id, &step.on_success, block);
            proof {
                if rest is Ok {
                    let acts = rest->Ok_0.0;
                    let (plans, _) = chain_next(cache_view(*cache), data@, exec_id, step.on_success, block)->Some_0;
                    lemma_fulfils_prepend(
                        a,
                        Planned::Chat {
                            body: render(body_template@, data@, block),
                            mentions: mentions@,
                            gas_limit: step.gas_limit,
                        },
                        acts@,
                        plans,
                        *state,
                    );
                }
            }
            with_first(a, rest)
        },
        StepType::ConditionalBranch { condition, if_true, if_false } => {
            match evaluate_condition(condition, cache, block) {
                Err(e) => Err(e),
                Ok(true) => run_step(state, cache, data, exec_id, &*if_true.0, block),
                Ok(false) => run_next(state, cache, data, exec_id, if_false, block),
            }
        },
        StepType::WakePulse => {
            let a = FlowAction::WakePulse { to: state.pulse_pid, gas_limit: step.gas_limit };
            let rest = run_next(state, cache, data, exec_id, &step.on_success, block);
            proof {
                if rest is Ok {
                    let acts = rest->Ok_0.0;
                    let (plans, _) = chain_next(cache_view(*cache), data@, exec_id, step.on_success, block)->Some_0;
                    lemma_fulfils_prepend(
                        a,
                        Planned::Wake { gas_limit: step.gas_limit },
                        acts@,
                        plans,
                        *state,
                    );
                }
            }
            with_first(a, rest)
        },
        StepType::Done => Ok((Vec::new(), true)),
    }
}

/// Runs an optional next step; none completes the execution.
pub fn run_next(
    state: &FlowState,
    cache: &Option<CachedBridgeData>,
    data: &StrMap<String>,
    exec_id: u64,
    next: &Option<StepBox>,
    block: u32,
) -> (r: Result<(Vec<FlowAction>, bool), FlowError>)
    ensures
        match chain_next(cache_view(*cache), data@, exec_id, *next, block) {
            None => r == Err::<(Vec<FlowAction>, bool), FlowError>(FlowError::ZeroModulus),
            Some((plans, done)) => r matches Ok((acts, d)) && d == done && fulfils_all(
                acts@,
                plans,
                *state,
            ),
        },
    decreases next,
{
    match next {
        Some(b) => run_step(state, cache, data, exec_id, &*b.0, block),
        None => Ok((Vec::new(), true)),
    }
}

/// Marks execution `exec_id` completed, when it exists.
pub fn complete_execution(state: &mut FlowState, exec_id: u64)
    requires
        old(state).wf(),
    ensures
        final(state).wf(),
        *final(state) == (FlowState { executions: final(state).executions, ..*old(state) }),
        final(state).executions@ == completed(old(state).executions@, exec_id),
{
    if exec_id < state.executions.len() as u64 {
        let k = exec_id as usize;
        let ghost es = state.executions@;
        let mut ctx = state.executions.remove(k);
        ctx.status = ExecutionStatus::Completed;
        state.executions.insert(k, ctx);
        assert(state.executions@ =~= completed(es, exec_id));
    }
}

/// Runs `step` of execution `exec_id` with that execution's data: returns
/// what it sends and marks the execution completed when the run reaches its
/// end (not when it waits for the oracle). A failed run changes nothing.
pub fn execute_step(state: &mut FlowState, exec_id: u64, step: &Step, block: u32) -> (r: Result<Vec<FlowAction>, FlowError>)
    requires
        old(state).wf(),
    ensures
        final(state).wf(),
        match chain(
            cache_view(old(state).cached_bridge_data),
            data_of(old(state).executions@, exec_id),
            exec_id,
            *step,
            block,
        ) {
            None => r == Err::<Vec<FlowAction>, FlowError>(FlowError::ZeroModulus) && *final(state)
                == *old(state),
            Some((plans, done)) => r matches Ok(acts) && fulfils_all(acts@, plans, *old(state))
                && *final(state) == (FlowState {
                executions: final(state).executions,
                ..*old(state)
            }) && final(state).executions@ == if done {
                completed(old(state).executions@, exec_id)
            } else {
                old(state).executions@
            },
        },
{
    let empty: StrMap<String> = StrMap::new();
    let res = if exec_id < state.executions.len() as u64 {
        run_step(
            state,
            &state.cached_bridge_data,
            &state.executions[exec_id as usize].data,
            exec_id,
            step,
            block,
        )
    } else {
        assert(empty@ =~= data_of(state.executions@, exec_id));
        run_step(state, &state.cached_bridge_data, &empty, exec_id, step, block)
    };
    match res {
        Err(e) => Err(e),
        Ok((acts, done)) => {
            if done {
                complete_execution(state, exec_id);
            }
            Ok(acts)
        },
    }
}

/// The workflow after a run at `block`: the block and the count recorded, and
/// the next run one interval later.
pub open spec fn run_recorded(w: Workflow, block: u32) -> Workflow {
    Workflow {
        last_run_block: block,
        run_count: u64_specs::wrapping_add(w.run_count, 1),
        next_run_block: next_run(w.trigger, block),
        ..w
    }
}

/// `ctx` is the record of a new execution `exec_id` of workflow `workflow_id`
/// started at `block`, completed or still waiting.
pub open spec fn new_execution(
    ctx: ExecutionContext,
    exec_id: u64,
    workflow_id: u64,
    block: u32,
    done: bool,
) -> bool {
    &&& ctx.exec_id == exec_id
    &&& ctx.workflow_id == workflow_id
    &&& ctx.started_block == block
    &&& ctx.current_step == 0
    &&& ctx.status == if done {
        ExecutionStatus::Completed
    } else {
        ExecutionStatus::Running
    }
}

/// The data a trigger hands to a run.
pub open spec fn input_data(input: Option<TriggerInput>) -> Seq<(Seq<char>, String)> {
    match input {
        Some(i) => i.data@,
        None => Seq::empty(),
    }
}

/// What a run of workflow `w` as execution `exec_id` sends and whether it
/// completes; an error when it fails.
pub open spec fn workflow_run(
    cache: Option<CacheView>,
    w: Workflow,
    data: Seq<(Seq<char>, String)>,
    exec_id: u64,
    block: u32,
) -> Result<(Seq<Planned>, bool), FlowError> {
    if w.steps@.len() == 0 {
        Err(FlowError::NoSteps)
    } else {
        match chain(cache, data, exec_id, w.steps@[0], block) {
            None => Err(FlowError::ZeroModulus),
            Some(r) => Ok(r),
        }
    }
}

/// The outcome of running workflow `id` as a new execution in state `old`,
/// with the trigger's input: on failure the error and no change; else the
/// messages the run sends, the execution recorded and counted, and the run
/// recorded on the workflow.
pub open spec fn workflow_ran(
    old: FlowState,
    new: FlowState,
    id: u64,
    input: Option<TriggerInput>,
    block: u32,
    r: Result<Vec<FlowAction>, FlowError>,
) -> bool {
    let pos = wf_pos(old.workflows@, id);
    let w = old.workflows@[pos];
    match workflow_run(cache_view(old.cached_bridge_data), w, input_data(input), old.next_exec_id, block) {
        Err(e) => r == Err::<Vec<FlowAction>, FlowError>(e) && new == old,
        Ok((plans, done)) => r matches Ok(acts) && fulfils_all(acts@, plans, old) && new == (FlowState {
            workflows: new.workflows,
            executions: new.executions,
            next_exec_id: (old.next_exec_id + 1) as u64,
            execution_count: (old.execution_count + 1) as u64,
            ..old
        }) && new.workflows@ == old.workflows@.update(pos, run_recorded(w, block))
            && new.executions@.len() == old.executions@.len() + 1 && new.executions@.drop_last()
            == old.executions@ && new_execution(new.executions@.last(), old.next_exec_id, id, block, done)
            && new.executions@.last().data@ == input_data(input),
    }
}

/// Runs workflow `id` from its first step as a new execution with the
/// trigger's data: records the execution, counts it, and records the run on
/// the workflow. A failed run changes nothing.
pub fn execute_workflow(state: &mut FlowState, id: u64, input: Option<TriggerInput>, block: u32) -> (r: Result<Vec<FlowAction>, FlowError>)
    requires
        old(state).wf(),
        wf_pos(old(state).workflows@, id) >= 0,
        old(state).next_exec_id < u64::MAX,
        input matches Some(i) ==> i.data.wf(),
    ensures
        final(state).wf(),
        workflow_ran(*old(state), *final(state), id, input, block, r),
{
    let i = match crate::flow::state::find_workflow(state, id) {
        Some(i) => i,
        None => {
            assert(false);
            return Err(FlowError::WorkflowNotFound);
        },
    };
    let exec_id = state.next_exec_id;
    if state.workflows[i].steps.len() == 0 {
        return Err(FlowError::NoSteps);
    }
    let data = match input {
        Some(inp) => inp.data,
        None => StrMap::new(),
    };
    assert(data@ =~= input_data(input));
    let res = run_step(
        state,
        &state.cached_bridge_data,
        &data,
        exec_id,
        &state.workflows[i].steps[0],
        block,
    );
    let (acts, done) = match res {
        Err(e) => return Err(e),
        Ok(x) => x,
    };
    let ctx = ExecutionContext {
        exec_id,
        workflow_id: id,
        started_block: block,
        current_step: 0,
        data,
        status: if done {
            ExecutionStatus::Completed
        } else {
            ExecutionStatus::Running
        },
    };
    let ghost es = state.executions@;
    state.executions.push(ctx);
    assert(state.executions@.drop_last() =~= es);
    state.next_exec_id = exec_id + 1;
    state.execution_count = state.execution_count + 1;
    let ghost ws = state.workflows@;
    let mut w = state.workflows.remove(i);
    w.last_run_block = block;
    w.run_count = w.run_count.wrapping_add(1);
    w.next_run_block = block.wrapping_add(interval_of(&w.trigger));
    state.workflows.insert(i, w);
    assert(state.workflows@ =~= ws.update(i as int, run_recorded(ws[i as int], block)));
    Ok(acts)
}

/// Position of the step waiting for message `msg_id`, or -1.
pub open spec fn pending_pos(ps: Seq<(MessageId, PendingStep)>, msg_id: MessageId) -> int
    decreases ps.len(),
{
    if ps.len() == 0 {
        -1
    } else if ps[0].0 == msg_id {
        0
    } else {
        let p = pending_pos(ps.drop_first(), msg_id);
        if p < 0 {
            -1
        } else {
            p + 1
        }
    }
}

pub(crate) proof fn lemma_pending_pos(ps: Seq<(MessageId, PendingStep)>, msg_id: MessageId, i: int)
    requires
        0 <= i <= ps.len(),
        forall|j: int| 0 <= j < i ==> (#[trigger] ps[j]).0 != msg_id,
    ensures
        i < ps.len() && ps[i].0 == msg_id ==> pending_pos(ps, msg_id) == i,
        i == ps.len() ==> pending_pos(ps, msg_id) == -1,
    decreases i,
{
    if i > 0 {
        assert forall|j: int| 0 <= j < i - 1 implies (#[trigger] ps.drop_first()[j]).0 != msg_id by {
            assert(ps[j + 1].0 != msg_id);
        }
        lemma_pending_pos(ps.drop_first(), msg_id, i - 1);
    }
}

pub(crate) proof fn lemma_pending_pos_found(ps: Seq<(MessageId, PendingStep)>, msg_id: MessageId)
    ensures
        pending_pos(ps, msg_id) >= 0 ==> pending_pos(ps, msg_id) < ps.len()
            && ps[pending_pos(ps, msg_id)].0 == msg_id,
        pending_pos(ps, msg_id) >= -1,
    decreases ps.len(),
{
    if ps.len() > 0 && ps[0].0 != msg_id {
        lemma_pending_pos_found(ps.drop_first(), msg_id);
    }
}

/// A reply is taken once: in a valid state, once the step waiting on
/// `msg_id` has been removed, no step waits on it any more, so a second
/// reply to `msg_id` finds nothing and changes nothing.
pub proof fn lemma_reply_taken_once(s: FlowState, msg_id: MessageId)
    requires
        s.wf(),
        pending_pos(s.pending_replies@, msg_id) >= 0,
    ensures
        pending_pos(
            s.pending_replies@.remove(pending_pos(s.pending_replies@, msg_id)),
            msg_id,
        ) == -1,
{
    let ps = s.pending_replies@;
    let p = pending_pos(ps, msg_id);
    lemma_pending_pos_found(ps, msg_id);
    let ps2 = ps.remove(p);
    assert forall|j: int| 0 <= j < ps2.len() implies (#[trigger] ps2[j]).0 != msg_id by {
        if j < p {
            assert(ps2[j] == ps[j]);
            assert(ps[j].0 != ps[p].0);
        } else {
            assert(ps2[j] == ps[j + 1]);
            assert(ps[p].0 != ps[j + 1].0);
        }
    }
    lemma_pending_pos(ps2, msg_id, ps2.len() as int);
}

fn find_pending(state: &FlowState, msg_id: &MessageId) -> (r: Option<usize>)
    ensures
        match r {
            Some(i) => i == pending_pos(state.pending_replies@, *msg_id) && i
                < state.pending_replies@.len() && state.pending_replies@[i as int].0 == *msg_id,
            None => pending_pos(state.pending_replies@, *msg_id) == -1 && forall|j: int|
                0 <= j < state.pending_replies@.len() ==> (#[trigger] state.pending_replies@[j]).0
                    != *msg_id,
        },
{
    let mut i: usize = 0;
    while i < state.pending_replies.len()
        invariant
            i <= state.pending_replies@.len(),
            forall|j: int| 0 <= j < i ==> (#[trigger] state.pending_replies@[j]).0 != *msg_id,
        decreases state.pending_replies@.len() - i,
    {
        if state.pending_replies[i].0.same(msg_id) {
            proof {
                lemma_pending_pos(state.pending_replies@, *msg_id, i as int);
            }
            return Some(i);
        }
        i = i + 1;
    }
    proof {
        lemma_pending_pos(state.pending_replies@, *msg_id, i as int);
    }
    None
}

impl FlowState {
    /// Records that `pending` waits for the reply to message `msg_id`,
    /// replacing any step that waited for it.
    pub fn add_pending(&mut self, msg_id: MessageId, pending: PendingStep)
        requires
            old(self).wf(),
        ensures
            final(self).wf(),
            *final(self) == (FlowState { pending_replies: final(self).pending_replies, ..*old(self) }),
            final(self).pending_replies@ == if pending_pos(old(self).pending_replies@, msg_id) >= 0 {
                old(self).pending_replies@.update(
                    pending_pos(old(self).pending_replies@, msg_id),
                    (msg_id, pending),
                )
            } else {
                old(self).pending_replies@.push((msg_id, pending))
            },
    {
        match find_pending(self, &msg_id) {
            Some(i) => {
                self.pending_replies.set(i, (msg_id, pending));
            },
            None => {
                self.pending_replies.push((msg_id, pending));
            },
        }
    }
}

/// The oracle's reply to message `msg_id`: when a step waits for it, the
/// step stops waiting, the reply updates the cache (see `update_cache`), and
/// the next step
/// runs (or, with none, the execution completes). Replies nobody waits for
/// change nothing; a failed run changes nothing.
pub fn handle_bridge_reply(state: &mut FlowState, msg_id: MessageId, reply: QueryReply, block: u32) -> (r: Result<Vec<FlowAction>, FlowError>)
    requires
        old(state).wf(),
    ensures
        final(state).wf(),
        ({
            let i = pending_pos(old(state).pending_replies@, msg_id);
            let p = old(state).pending_replies@[i].1;
            let cv = reply_cache(cache_view(old(state).cached_bridge_data), reply, block);
            if i < 0 {
                r matches Ok(acts) && acts@.len() == 0 && *final(state) == *old(state)
            } else {
                match chain_next(cv, data_of(old(state).executions@, p.exec_id), p.exec_id, p.next_step, block) {
                    None => r == Err::<Vec<FlowAction>, FlowError>(FlowError::ZeroModulus)
                        && *final(state) == *old(state),
                    Some((plans, done)) => r matches Ok(acts) && fulfils_all(acts@, plans, *old(state))
                        && *final(state) == (FlowState {
                        executions: final(state).executions,
                        pending_replies: final(state).pending_replies,
                        cached_bridge_data: final(state).cached_bridge_data,
                        ..*old(state)
                    }) && cache_view(final(state).cached_bridge_data) == cv
                        && final(state).pending_replies@ == old(state).pending_replies@.remove(i)
                        && final(state).executions@ == if done {
                        completed(old(state).executions@, p.exec_id)
                    } else {
                        old(state).executions@
                    },
                }
            }
        }),
{
    let i = match find_pending(state, &msg_id) {
        Some(i) => i,
        None => return Ok(Vec::new()),
    };
    let mut fresh = copy_cache(&state.cached_bridge_data);
    update_cache(&mut fresh, &reply, block);
    let exec_id = state.pending_replies[i].1.exec_id;
    let empty: StrMap<String> = StrMap::new();
    let cache_ref = &fresh;
    let res = if exec_id < state.executions.len() as u64 {
        run_next(
            state,
            cache_ref,
            &state.executions[exec_id as usize].data,
            exec_id,
            &state.pending_replies[i].1.next_step,
            block,
        )
    } else {
        assert(empty@ =~= data_of(state.executions@, exec_id));
        run_next(state, cache_ref, &empty, exec_id, &state.pending_replies[i].1.next_step, block)
    };
    let (acts, done) = match res {
        Err(e) => return Err(e),
        Ok(x) => x,
    };
    state.pending_replies.remove(i);
    state.cached_bridge_data = fresh;
    if done {
        complete_execution(state, exec_id);
    }
    Ok(acts)
}

} // verus!
