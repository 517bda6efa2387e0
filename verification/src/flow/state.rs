use vstd::prelude::*;

use crate::ids::ActorId;
use crate::ids::MessageId;
use crate::strmap::{keys_sorted, StrMap};

pub use crate::flow::bridge_client::CachedBridgeData;
pub use crate::feeds::{
    DatetimeFeed, GasFeed, HubCmd, MarketFeed, NewsSummary, PriceFeed, QueryRequest,
};

verus! {

/// A step held behind a box, so that steps can nest.
pub struct StepBox(pub Box<Step>);

impl StepBox {
    pub fn new(step: Step) -> (r: Self)
        ensures
            *r.0 == step,
    {
        StepBox(Box::new(step))
    }
}

impl core::ops::Deref for StepBox {
    type Target = Step;

    fn deref(&self) -> (r: &Step)
        ensures
            *r == *self.0,
    {
        &self.0
    }
}

/// The orchestrator's whole state.
pub struct FlowState {
    /// Workflows in ascending id order.
    pub workflows: Vec<Workflow>,
    pub next_workflow_id: u64,
    /// Executions; the execution with id `k` is the `k`-th element.
    pub executions: Vec<ExecutionContext>,
    pub next_exec_id: u64,
    /// Steps that wait for the oracle's reply to the message with that id;
    /// each id occurs once.
    pub pending_replies: Vec<(MessageId, PendingStep)>,
    pub bridge_pid: ActorId,
    pub pulse_pid: ActorId,
    pub network_pid: ActorId,
    pub owner: ActorId,
    pub execution_count: u64,
    pub workflow_count: u64,
    pub broadcast_count: u64,
    pub cached_bridge_data: Option<CachedBridgeData>,
}

pub struct Workflow {
    pub id: u64,
    pub owner: ActorId,
    pub name: String,
    pub description: String,
    pub trigger: Trigger,
    pub steps: Vec<Step>,
    pub active: bool,
    pub created_block: u32,
    pub last_run_block: u32,
    pub run_count: u64,
    pub next_run_block: u32,
}

/// When a workflow runs on its own.
#[derive(Debug)]
pub enum Trigger {
    BlockInterval { every_n_blocks: u32 },
    PriceThreshold { symbol: String, above_usd: Option<u64>, below_usd: Option<u64> },
    GasBelow { threshold_micro: u64 },
    ManualCall { authorized: Option<ActorId> },
    OnBridgeUpdate,
}

/// One step of a workflow and the steps that follow it.
pub struct Step {
    pub step_type: StepType,
    pub gas_limit: u128,
    pub timeout_blocks: u32,
    pub on_success: Option<StepBox>,
    pub on_failure: Option<StepBox>,
    pub on_timeout: Option<StepBox>,
}

pub enum StepType {
    QueryBridge { query: QueryRequest },
    CallProgram { pid: ActorId, method: String, args: Vec<u8> },
    PostBoard { body_template: String },
    PostChat { body_template: String, mentions: Vec<String> },
    ConditionalBranch { condition: Condition, if_true: StepBox, if_false: Option<StepBox> },
    WakePulse,
    Done,
}

#[derive(Debug)]
pub enum Condition {
    PriceAbove { symbol: String, threshold_micro: u64 },
    PriceBelow { symbol: String, threshold_micro: u64 },
    GasBelow { threshold_micro: u64 },
    BlockModulo { n: u32 },
    Always,
}

pub struct ExecutionContext {
    pub exec_id: u64,
    pub workflow_id: u64,
    pub started_block: u32,
    pub current_step: u32,
    pub data: StrMap<String>,
    pub status: ExecutionStatus,
}

#[derive(Debug, Clone, Copy, PartialEq, Eq, Structural)]
pub enum ExecutionStatus {
    Running,
    Completed,
    Failed,
    TimedOut,
}

pub struct PendingStep {
    pub exec_id: u64,
    pub next_step: Option<StepBox>,
    pub timeout_block: u32,
}

pub struct WorkflowInput {
    pub name: String,
    pub description: String,
    pub trigger: Trigger,
    pub steps: Vec<Step>,
}

pub struct WorkflowPatch {
    pub name: Option<String>,
    pub description: Option<String>,
    pub trigger: Option<Trigger>,
    pub steps: Option<Vec<Step>>,
    pub active: Option<bool>,
}

#[derive(Debug)]
pub struct WorkflowSummary {
    pub id: u64,
    pub name: String,
    pub trigger: Trigger,
    pub active: bool,
    pub run_count: u64,
    pub last_run_block: u32,
    pub next_run_block: u32,
}

#[derive(Debug, Clone, Copy, PartialEq, Eq, Structural)]
pub struct FlowStats {
    pub workflow_count: u64,
    pub execution_count: u64,
    pub broadcast_count: u64,
    pub active_workflows: u64,
}

pub struct TriggerInput {
    pub data: StrMap<String>,
}

/// A call to another program: a method name and its encoded arguments.
#[derive(Debug)]
pub struct EncodedCall {
    pub method: String,
    pub args: Vec<u8>,
}

/// The command that wakes the pulse agent.
#[derive(Debug, Clone, Copy, PartialEq, Eq, Structural)]
pub enum PulseCmd {
    Run,
}

#[derive(Debug, Clone, Copy, PartialEq, Eq, Structural)]
pub enum QueryType {
    Price,
    Gas,
    News,
    Markets,
    Datetime,
    All,
}

/// The oracle's answer as the orchestrator reads it.
pub enum QueryReply {
    Price(Option<PriceFeed>),
    Gas(GasFeed),
    News(Vec<NewsSummary>),
    Markets(Vec<MarketFeed>),
    Datetime(DatetimeFeed),
    All(Snapshot),
    Error(String),
}

pub struct Snapshot {
    pub prices: StrMap<PriceFeed>,
    pub gas: GasFeed,
    pub news: Vec<NewsSummary>,
    pub markets: StrMap<MarketFeed>,
    pub datetime: DatetimeFeed,
    pub block: u32,
}

/// Why the orchestrator refuses or fails a message; nothing changes then.
#[derive(Debug, Clone, Copy, PartialEq, Eq, Structural)]
pub enum FlowError {
    WorkflowNotFound,
    OnlyOwnerCanUpdate,
    OnlyOwnerCanDelete,
    OnlyOwnerCanPause,
    OnlyOwnerCanResume,
    /// The caller may not trigger this workflow by hand.
    NotAuthorized,
    /// The caller of an owner-only method is not the owner.
    OwnerOnly,
    /// A workflow with no step was run.
    NoSteps,
    /// A `BlockModulo` condition with `n == 0` was evaluated.
    ZeroModulus,
}

impl FlowError {
    /// The text the program fails with.
    pub fn message(&self) -> (r: &'static str)
        ensures
            r@ == flow_error_text(*self),
    {
        match self {
            FlowError::WorkflowNotFound => "Workflow not found",
            FlowError::OnlyOwnerCanUpdate => "Only workflow owner can update",
            FlowError::OnlyOwnerCanDelete => "Only workflow owner can delete",
            FlowError::OnlyOwnerCanPause => "Only workflow owner can pause",
            FlowError::OnlyOwnerCanResume => "Only workflow owner can resume",
            FlowError::NotAuthorized => "Not authorized",
            FlowError::OwnerOnly => "Owner only",
            FlowError::NoSteps => "index out of bounds: the workflow has no steps",
            FlowError::ZeroModulus => "attempt to calculate the remainder with a divisor of zero",
        }
    }
}

pub open spec fn flow_error_text(e: FlowError) -> Seq<char> {
    match e {
        FlowError::WorkflowNotFound => "Workflow not found"@,
        FlowError::OnlyOwnerCanUpdate => "Only workflow owner can update"@,
        FlowError::OnlyOwnerCanDelete => "Only workflow owner can delete"@,
        FlowError::OnlyOwnerCanPause => "Only workflow owner can pause"@,
        FlowError::OnlyOwnerCanResume => "Only workflow owner can resume"@,
        FlowError::NotAuthorized => "Not authorized"@,
        FlowError::OwnerOnly => "Owner only"@,
        FlowError::NoSteps => "index out of bounds: the workflow has no steps"@,
        FlowError::ZeroModulus => "attempt to calculate the remainder with a divisor of zero"@,
    }
}

impl Default for Step {
    fn default() -> (r: Self)
        ensures
            r.step_type is Done,
            r.gas_limit == 1_000_000_000,
            r.timeout_blocks == 100,
            r.on_success is None,
            r.on_failure is None,
            r.on_timeout is None,
    {
        Step {
            step_type: StepType::Done,
            gas_limit: 1_000_000_000,
            timeout_blocks: 100,
            on_success: None,
            on_failure: None,
            on_timeout: None,
        }
    }
}

/// Two optional texts lists hold the same texts.
pub open spec fn same_keys(a: Option<Vec<String>>, b: Option<Vec<String>>) -> bool {
    match (a, b) {
        (Some(x), Some(y)) => x@ == y@,
        (None, None) => true,
        _ => false,
    }
}

/// Two requests are the same request.
pub open spec fn query_eqv(a: QueryRequest, b: QueryRequest) -> bool {
    &&& a.query_type == b.query_type
    &&& a.symbol == b.symbol
    &&& same_keys(a.keys, b.keys)
}

/// Two steps are the same step, and so are the steps that follow them.
pub open spec fn step_eqv(a: Step, b: Step) -> bool
    decreases a,
{
    &&& step_type_eqv(a.step_type, b.step_type)
    &&& a.gas_limit == b.gas_limit
    &&& a.timeout_blocks == b.timeout_blocks
    &&& opt_step_eqv(a.on_success, b.on_success)
    &&& opt_step_eqv(a.on_failure, b.on_failure)
    &&& opt_step_eqv(a.on_timeout, b.on_timeout)
}

pub open spec fn opt_step_eqv(a: Option<StepBox>, b: Option<StepBox>) -> bool
    decreases a,
{
    match (a, b) {
        (Some(x), Some(y)) => step_eqv(*x.0, *y.0),
        (None, None) => true,
        _ => false,
    }
}

pub open spec fn step_type_eqv(a: StepType, b: StepType) -> bool
    decreases a,
{
    match (a, b) {
        (StepType::QueryBridge { query: x }, StepType::QueryBridge { query: y }) => query_eqv(x, y),
        (
            StepType::CallProgram { pid: p1, method: m1, args: a1 },
            StepType::CallProgram { pid: p2, method: m2, args: a2 },
        ) => p1 == p2 && m1 == m2 && a1@ == a2@,
        (StepType::PostBoard { body_template: t1 }, StepType::PostBoard { body_template: t2 }) => t1
            == t2,
        (
            StepType::PostChat { body_template: t1, mentions: m1 },
            StepType::PostChat { body_template: t2, mentions: m2 },
        ) => t1 == t2 && m1@ == m2@,
        (
            StepType::ConditionalBranch { condition: c1, if_true: t1, if_false: f1 },
            StepType::ConditionalBranch { condition: c2, if_true: t2, if_false: f2 },
        ) => c1 == c2 && step_eqv(*t1.0, *t2.0) && opt_step_eqv(f1, f2),
        (StepType::WakePulse, StepType::WakePulse) => true,
        (StepType::Done, StepType::Done) => true,
        _ => false,
    }
}

/// Two lists hold the same steps.
pub open spec fn steps_eqv(a: Seq<Step>, b: Seq<Step>) -> bool {
    &&& a.len() == b.len()
    &&& forall|i: int| 0 <= i < a.len() ==> step_eqv(#[trigger] a[i], b[i])
}

/// Two workflows are the same workflow.
pub open spec fn workflow_eqv(a: Workflow, b: Workflow) -> bool {
    &&& a.id == b.id
    &&& a.owner == b.owner
    &&& a.name == b.name
    &&& a.description == b.description
    &&& a.trigger == b.trigger
    &&& steps_eqv(a.steps@, b.steps@)
    &&& a.active == b.active
    &&& a.created_block == b.created_block
    &&& a.last_run_block == b.last_run_block
    &&& a.run_count == b.run_count
    &&& a.next_run_block == b.next_run_block
}

impl Clone for Trigger {
    fn clone(&self) -> (r: Self)
        ensures
            r == *self,
    {
        match self {
            Trigger::BlockInterval { every_n_blocks } => Trigger::BlockInterval {
                every_n_blocks: *every_n_blocks,
            },
            Trigger::PriceThreshold { symbol, above_usd, below_usd } => Trigger::PriceThreshold {
                symbol: symbol.clone(),
                above_usd: *above_usd,
                below_usd: *below_usd,
            },
            Trigger::GasBelow { threshold_micro } => Trigger::GasBelow {
                threshold_micro: *threshold_micro,
            },
            Trigger::ManualCall { authorized } => Trigger::ManualCall { authorized: *authorized },
            Trigger::OnBridgeUpdate => Trigger::OnBridgeUpdate,
        }
    }
}

impl Clone for Condition {
    fn clone(&self) -> (r: Self)
        ensures
            r == *self,
    {
        match self {
            Condition::PriceAbove { symbol, threshold_micro } => Condition::PriceAbove {
                symbol: symbol.clone(),
                threshold_micro: *threshold_micro,
            },
            Condition::PriceBelow { symbol, threshold_micro } => Condition::PriceBelow {
                symbol: symbol.clone(),
                threshold_micro: *threshold_micro,
            },
            Condition::GasBelow { threshold_micro } => Condition::GasBelow {
                threshold_micro: *threshold_micro,
            },
            Condition::BlockModulo { n } => Condition::BlockModulo { n: *n },
            Condition::Always => Condition::Always,
        }
    }
}

/// A copy of a request.
pub fn copy_query(q: &QueryRequest) -> (r: QueryRequest)
    ensures
        query_eqv(r, *q),
{
    let keys = match &q.keys {
        Some(k) => {
            let c = k.clone();
            assert(c@ =~= k@);
            Some(c)
        },
        None => None,
    };
    QueryRequest { query_type: q.query_type.clone(), symbol: q.symbol.clone(), keys }
}

/// A copy of a list of texts.
pub fn copy_texts_list(v: &Vec<String>) -> (r: Vec<String>)
    ensures
        r@ == v@,
{
    let c = v.clone();
    assert(c@ =~= v@);
    c
}

/// A copy of a byte list.
pub fn copy_bytes(v: &Vec<u8>) -> (r: Vec<u8>)
    ensures
        r@ == v@,
{
    let c = v.clone();
    assert(c@ =~= v@);
    c
}

/// A deep copy of a step and the steps that follow it.
pub fn copy_step(s: &Step) -> (r: Step)
    ensures
        step_eqv(r, *s),
    decreases s,
{
    let step_type = match &s.step_type {
        StepType::QueryBridge { query } => StepType::QueryBridge { query: copy_query(query) },
        StepType::CallProgram { pid, method, args } => StepType::CallProgram {
            pid: *pid,
            method: method.clone(),
            args: copy_bytes(args),
        },
        StepType::PostBoard { body_template } => StepType::PostBoard {
            body_template: body_template.clone(),
        },
        StepType::PostChat { body_template, mentions } => StepType::PostChat {
            body_template: body_template.clone(),
            mentions: copy_texts_list(mentions),
        },
        StepType::ConditionalBranch { condition, if_true, if_false } => {
            StepType::ConditionalBranch {
                condition: condition.clone(),
                if_true: StepBox(Box::new(copy_step(&*if_true.0))),
                if_false: copy_opt_step(if_false),
            }
        },
        StepType::WakePulse => StepType::WakePulse,
        StepType::Done => StepType::Done,
    };
    Step {
        step_type,
        gas_limit: s.gas_limit,
        timeout_blocks: s.timeout_blocks,
        on_success: copy_opt_step(&s.on_success),
        on_failure: copy_opt_step(&s.on_failure),
        on_timeout: copy_opt_step(&s.on_timeout),
    }
}

/// A deep copy of an optional step.
pub fn copy_opt_step(s: &Option<StepBox>) -> (r: Option<StepBox>)
    ensures
        opt_step_eqv(r, *s),
    decreases s,
{
    match s {
        Some(b) => Some(StepBox(Box::new(copy_step(&*b.0)))),
        None => None,
    }
}

/// A deep copy of a list of steps.
pub fn copy_steps(v: &Vec<Step>) -> (r: Vec<Step>)
    ensures
        steps_eqv(r@, v@),
{
    let mut r: Vec<Step> = Vec::new();
    let mut i: usize = 0;
    while i < v.len()
        invariant
            i <= v@.len(),
            r@.len() == i,
            forall|j: int| 0 <= j < i ==> step_eqv(#[trigger] r@[j], v@[j]),
        decreases v@.len() - i,
    {
        r.push(copy_step(&v[i]));
        i = i + 1;
    }
    r
}

/// A deep copy of a workflow.
pub fn copy_workflow(w: &Workflow) -> (r: Workflow)
    ensures
        workflow_eqv(r, *w),
{
    Workflow {
        id: w.id,
        owner: w.owner,
        name: w.name.clone(),
        description: w.description.clone(),
        trigger: w.trigger.clone(),
        steps: copy_steps(&w.steps),
        active: w.active,
        created_block: w.created_block,
        last_run_block: w.last_run_block,
        run_count: w.run_count,
        next_run_block: w.next_run_block,
    }
}

/// Workflow ids strictly ascending along the list, all below `next`.
pub open spec fn ids_ascending(ws: Seq<Workflow>, next: u64) -> bool {
    &&& forall|i: int, j: int| 0 <= i < j < ws.len() ==> (#[trigger] ws[i]).id < (#[trigger] ws[j]).id
    &&& forall|i: int| 0 <= i < ws.len() ==> (#[trigger] ws[i]).id < next
}

/// The execution with id `k` is the `k`-th element.
pub open spec fn executions_numbered(es: Seq<ExecutionContext>) -> bool {
    forall|k: int| 0 <= k < es.len() ==> (#[trigger] es[k]).exec_id == k
}

impl FlowState {
    pub open spec fn wf(&self) -> bool {
        &&& ids_ascending(self.workflows@, self.next_workflow_id)
        &&& executions_numbered(self.executions@)
        &&& self.executions@.len() == self.next_exec_id
        &&& self.workflow_count <= self.next_workflow_id
        &&& self.execution_count <= self.next_exec_id
        &&& forall|k: int|
            0 <= k < self.executions@.len() ==> (#[trigger] self.executions@[k]).data.wf()
        &&& forall|i: int, j: int|
            0 <= i < j < self.pending_replies@.len() ==> (#[trigger] self.pending_replies@[i]).0
                != (#[trigger] self.pending_replies@[j]).0
        &&& match self.cached_bridge_data {
            Some(c) => keys_sorted(c.prices@),
            None => true,
        }
    }
}

/// Position of the workflow with id `id`, or -1.
pub open spec fn wf_pos(ws: Seq<Workflow>, id: u64) -> int
    decreases ws.len(),
{
    if ws.len() == 0 {
        -1
    } else if ws[0].id == id {
        0
    } else {
        let p = wf_pos(ws.drop_first(), id);
        if p < 0 {
            -1
        } else {
            p + 1
        }
    }
}

pub proof fn lemma_wf_pos(ws: Seq<Workflow>, id: u64, i: int)
    requires
        0 <= i <= ws.len(),
        forall|j: int| 0 <= j < i ==> (#[trigger] ws[j]).id != id,
    ensures
        i < ws.len() && ws[i].id == id ==> wf_pos(ws, id) == i,
        i == ws.len() ==> wf_pos(ws, id) == -1,
    decreases i,
{
    if i > 0 {
        assert forall|j: int| 0 <= j < i - 1 implies (#[trigger] ws.drop_first()[j]).id != id by {
            assert(ws[j + 1].id != id);
        }
        lemma_wf_pos(ws.drop_first(), id, i - 1);
    }
}

pub proof fn lemma_wf_pos_range(ws: Seq<Workflow>, id: u64)
    ensures
        -1 <= wf_pos(ws, id) < ws.len(),
        wf_pos(ws, id) >= 0 ==> ws[wf_pos(ws, id)].id == id,
    decreases ws.len(),
{
    if ws.len() > 0 {
        lemma_wf_pos_range(ws.drop_first(), id);
    }
}

/// Finds the workflow with id `id`.
pub fn find_workflow(state: &FlowState, id: u64) -> (r: Option<usize>)
    ensures
        match r {
            Some(i) => i == wf_pos(state.workflows@, id) && i < state.workflows@.len()
                && state.workflows@[i as int].id == id,
            None => wf_pos(state.workflows@, id) == -1,
        },
{
    let mut i: usize = 0;
    while i < state.workflows.len()
        invariant
            i <= state.workflows@.len(),
            forall|j: int| 0 <= j < i ==> (#[trigger] state.workflows@[j]).id != id,
        decreases state.workflows@.len() - i,
    {
        if state.workflows[i].id == id {
            proof {
                lemma_wf_pos(state.workflows@, id, i as int);
            }
            return Some(i);
        }
        i = i + 1;
    }
    proof {
        lemma_wf_pos(state.workflows@, id, i as int);
    }
    None
}

} // verus!
