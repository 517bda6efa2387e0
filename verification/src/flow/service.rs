use vstd::prelude::*;
use vstd::string::StringSliceAdditionalSpecFns;

use crate::flow::bridge_client::cache_view;
use crate::flow::executor::{execute_workflow, fulfils_all, workflow_ran, FlowAction};
use crate::flow::state::{
    find_workflow, wf_pos, workflow_eqv, ExecutionStatus, FlowError, FlowState, FlowStats, Trigger,
    TriggerInput, Workflow, WorkflowInput, WorkflowPatch, WorkflowSummary,
};
use crate::flow::templates::{build_template, built, input_of, TemplateParams, TemplateType};
use crate::flow::tick::{after_runs, due_positions, tick, tick_plans, tick_runs, ticked};
use crate::flow::workflow::{
    delete_workflow, get_workflow, list_workflows, next_run, owner_check, patched,
    pause_workflow, register_workflow, registered, resume_workflow, summaries, update_workflow,
};
use crate::ids::ActorId;
use crate::routes::{delayed_self_call, lemma_ascii_bytes, SelfMessage};
use crate::text::scale_encoded;
use vstd::wrapping::u64_specs;

verus! {

/// Blocks between two ticks.
pub const TICK_INTERVAL: u32 = 50;

/// The message that schedules the next tick: the route of `VaraFlow::Tick`
/// with four fifths of the gas that is left, one tick interval later.
pub fn tick_message(gas_available: u64) -> (r: SelfMessage)
    ensures
        r.payload@ == scale_encoded("VaraFlow".spec_bytes()) + scale_encoded("Tick".spec_bytes()),
        r.gas_limit == u64_specs::wrapping_mul(gas_available, 80) / 100,
        r.delay == TICK_INTERVAL,
{
    proof {
        reveal_strlit("VaraFlow");
        reveal_strlit("Tick");
        lemma_ascii_bytes("VaraFlow");
        lemma_ascii_bytes("Tick");
    }
    delayed_self_call("VaraFlow", "Tick", gas_available, TICK_INTERVAL)
}

/// Why `caller` may not trigger workflow `id` by hand, if anything stops it:
/// the workflow does not exist, or its trigger names another account.
pub open spec fn trigger_denial(ws: Seq<Workflow>, id: u64, caller: ActorId) -> Option<FlowError> {
    let pos = wf_pos(ws, id);
    if pos < 0 {
        Some(FlowError::WorkflowNotFound)
    } else {
        match ws[pos].trigger {
            Trigger::ManualCall { authorized: Some(a) } => if a != caller {
                Some(FlowError::NotAuthorized)
            } else {
                None
            },
            _ => None,
        }
    }
}

/// The number of active workflows.
pub open spec fn active_count(ws: Seq<Workflow>) -> nat
    decreases ws.len(),
{
    if ws.len() == 0 {
        0
    } else {
        active_count(ws.drop_last()) + if ws.last().active {
            1nat
        } else {
            0nat
        }
    }
}

/// The orchestrator program: its state behind its one service.
pub struct VaraFlowProgram {
    pub service: VaraFlowService,
}

/// The orchestrator's service; every method takes the caller and the block
/// height as the runtime reports them.
pub struct VaraFlowService {
    pub state: FlowState,
}

impl VaraFlowProgram {
    /// A fresh orchestrator owned by `owner` (the account that creates it),
    /// talking to the oracle, the pulse agent and the hub at the given
    /// addresses.
    pub fn new(owner: ActorId, bridge_pid: ActorId, pulse_pid: ActorId, network_pid: ActorId) -> (r: Self)
        ensures
            r.service.state.wf(),
            r.service.state.owner == owner,
            r.service.state.bridge_pid == bridge_pid,
            r.service.state.pulse_pid == pulse_pid,
            r.service.state.network_pid == network_pid,
            r.service.state.workflows@.len() == 0,
            r.service.state.executions@.len() == 0,
            r.service.state.pending_replies@.len() == 0,
            r.service.state.next_workflow_id == 0,
            r.service.state.next_exec_id == 0,
            r.service.state.execution_count == 0,
            r.service.state.workflow_count == 0,
            r.service.state.broadcast_count == 0,
            r.service.state.cached_bridge_data is None,
    {
        VaraFlowProgram {
            service: VaraFlowService {
                state: FlowState {
                    workflows: Vec::new(),
                    next_workflow_id: 0,
                    executions: Vec::new(),
                    next_exec_id: 0,
                    pending_replies: Vec::new(),
                    bridge_pid,
                    pulse_pid,
                    network_pid,
                    owner,
                    execution_count: 0,
                    workflow_count: 0,
                    broadcast_count: 0,
                    cached_bridge_data: None,
                },
            },
        }
    }

    /// The service of the program.
    pub fn vara_flow(&mut self) -> (r: &mut VaraFlowService)
        ensures
            *r == old(self).service,
            final(self).service == *final(r),
    {
        &mut self.service
    }
}

impl VaraFlowService {
    /// The service over `state`.
    pub fn new(state: FlowState) -> (r: Self)
        ensures
            r.state == state,
    {
        VaraFlowService { state }
    }

    /// Registers a workflow owned by `caller`; returns its id.
    pub fn register_workflow(&mut self, caller: ActorId, block: u32, input: WorkflowInput) -> (r: u64)
        requires
            old(self).state.wf(),
            old(self).state.next_workflow_id < u64::MAX,
        ensures
            final(self).state.wf(),
            r == old(self).state.next_workflow_id,
            final(self).state.workflows@ == old(self).state.workflows@.push(registered(r, caller, input, block)),
            final(self).state == (FlowState {
                workflows: final(self).state.workflows,
                next_workflow_id: (old(self).state.next_workflow_id + 1) as u64,
                workflow_count: (old(self).state.workflow_count + 1) as u64,
                ..old(self).state
            }),
    {
        register_workflow(&mut self.state, caller, block, input)
    }

    /// Owner only: replaces the parts of workflow `id` that `patch` holds.
    pub fn update_workflow(&mut self, caller: ActorId, id: u64, patch: WorkflowPatch) -> (r: Result<(), FlowError>)
        requires
            old(self).state.wf(),
        ensures
            final(self).state.wf(),
            match owner_check(old(self).state.workflows@, id, caller, FlowError::OnlyOwnerCanUpdate) {
                Ok(p) => r is Ok && final(self).state == (FlowState {
                    workflows: final(self).state.workflows,
                    ..old(self).state
                }) && final(self).state.workflows@ == old(self).state.workflows@.update(
                    p,
                    patched(old(self).state.workflows@[p], patch),
                ),
                Err(e) => r == Err::<(), FlowError>(e) && final(self).state == old(self).state,
            },
    {
        update_workflow(&mut self.state, caller, id, patch)
    }

    /// Owner only: removes workflow `id`.
    pub fn delete_workflow(&mut self, caller: ActorId, id: u64) -> (r: Result<(), FlowError>)
        requires
            old(self).state.wf(),
        ensures
            final(self).state.wf(),
            match owner_check(old(self).state.workflows@, id, caller, FlowError::OnlyOwnerCanDelete) {
                Ok(p) => r is Ok && final(self).state == (FlowState {
                    workflows: final(self).state.workflows,
                    ..old(self).state
                }) && final(self).state.workflows@ == old(self).state.workflows@.remove(p),
                Err(e) => r == Err::<(), FlowError>(e) && final(self).state == old(self).state,
            },
    {
        delete_workflow(&mut self.state, caller, id)
    }

    /// Owner only: makes workflow `id` inactive.
    pub fn pause_workflow(&mut self, caller: ActorId, id: u64) -> (r: Result<(), FlowError>)
        requires
            old(self).state.wf(),
        ensures
            final(self).state.wf(),
            match owner_check(old(self).state.workflows@, id, caller, FlowError::OnlyOwnerCanPause) {
                Ok(p) => r is Ok && final(self).state == (FlowState {
                    workflows: final(self).state.workflows,
                    ..old(self).state
                }) && final(self).state.workflows@ == old(self).state.workflows@.update(
                    p,
                    Workflow { active: false, ..old(self).state.workflows@[p] },
                ),
                Err(e) => r == Err::<(), FlowError>(e) && final(self).state == old(self).state,
            },
    {
        pause_workflow(&mut self.state, caller, id)
    }

    /// Owner only: makes workflow `id` active again, first due one interval
    /// after `block`.
    pub fn resume_workflow(&mut self, caller: ActorId, id: u64, block: u32) -> (r: Result<(), FlowError>)
        requires
            old(self).state.wf(),
        ensures
            final(self).state.wf(),
            match owner_check(old(self).state.workflows@, id, caller, FlowError::OnlyOwnerCanResume) {
                Ok(p) => r is Ok && final(self).state == (FlowState {
                    workflows: final(self).state.workflows,
                    ..old(self).state
                }) && final(self).state.workflows@ == old(self).state.workflows@.update(
                    p,
                    Workflow {
                        active: true,
                        next_run_block: next_run(old(self).state.workflows@[p].trigger, block),
                        ..old(self).state.workflows@[p]
                    },
                ),
                Err(e) => r == Err::<(), FlowError>(e) && final(self).state == old(self).state,
            },
    {
        resume_workflow(&mut self.state, caller, id, block)
    }

    /// A copy of workflow `id`, if it exists.
    pub fn get_workflow(&self, id: u64) -> (r: Option<Workflow>)
        ensures
            match r {
                Some(w) => wf_pos(self.state.workflows@, id) >= 0 && workflow_eqv(
                    w,
                    self.state.workflows@[wf_pos(self.state.workflows@, id)],
                ),
                None => wf_pos(self.state.workflows@, id) < 0,
            },
    {
        get_workflow(&self.state, id)
    }

    /// Summaries of the workflows of `owner` (of all, when none is given),
    /// only the active ones when `active_only`, in id order.
    pub fn list_workflows(&self, owner: Option<ActorId>, active_only: bool) -> (r: Vec<WorkflowSummary>)
        ensures
            r@ == summaries(self.state.workflows@, owner, active_only),
    {
        list_workflows(&self.state, owner, active_only)
    }

    /// `caller` runs workflow `id` by hand with `input`: refused when the
    /// workflow does not exist or its trigger names another account;
    /// otherwise the run goes as `execute_workflow` says.
    pub fn trigger_workflow(&mut self, caller: ActorId, id: u64, input: Option<TriggerInput>, block: u32) -> (r: Result<Vec<FlowAction>, FlowError>)
        requires
            old(self).state.wf(),
            old(self).state.next_exec_id < u64::MAX,
            input matches Some(i) ==> i.data.wf(),
        ensures
            final(self).state.wf(),
            match trigger_denial(old(self).state.workflows@, id, caller) {
                Some(e) => r == Err::<Vec<FlowAction>, FlowError>(e) && final(self).state == old(self).state,
                None => workflow_ran(old(self).state, final(self).state, id, input, block, r),
            },
    {
        let i = match find_workflow(&self.state, id) {
            Some(i) => i,
            None => return Err(FlowError::WorkflowNotFound),
        };
        if let Trigger::ManualCall { authorized: Some(auth) } = &self.state.workflows[i].trigger {
            if !caller.same(auth) {
                return Err(FlowError::NotAuthorized);
            }
        }
        execute_workflow(&mut self.state, id, input, block)
    }

    /// The periodic tick at `block` (see `tick`); the caller schedules the
    /// next one with `tick_message`.
    pub fn tick(&mut self, block: u32) -> (r: Result<Vec<FlowAction>, FlowError>)
        requires
            old(self).state.wf(),
            old(self).state.next_exec_id + old(self).state.workflows@.len() < u64::MAX,
        ensures
            final(self).state.wf(),
            ({
                let s = old(self).state;
                let cache = cache_view(s.cached_bridge_data);
                let d = due_positions(s.workflows@, cache, block);
                match tick_runs(cache, s.workflows@, d, s.next_exec_id, block) {
                    Err(e) => r == Err::<Vec<FlowAction>, FlowError>(e) && final(self).state == s,
                    Ok(rs) => r matches Ok(acts) && fulfils_all(acts@, tick_plans(rs, after_runs(s, d.len()), block), s)
                        && ticked(s, final(self).state, d, rs, block),
                }
            }),
    {
        tick(&mut self.state, block)
    }

    /// The status of execution `exec_id`, if it exists.
    pub fn get_execution_status(&self, exec_id: u64) -> (r: Option<ExecutionStatus>)
        requires
            self.state.wf(),
        ensures
            r == if exec_id < self.state.executions@.len() {
                Some(self.state.executions@[exec_id as int].status)
            } else {
                None::<ExecutionStatus>
            },
            r matches Some(_) ==> self.state.executions@[exec_id as int].exec_id == exec_id,
    {
        if exec_id < self.state.executions.len() as u64 {
            Some(self.state.executions[exec_id as usize].status)
        } else {
            None
        }
    }

    /// The counters, with the number of active workflows.
    pub fn get_stats(&self) -> (r: FlowStats)
        ensures
            r.workflow_count == self.state.workflow_count,
            r.execution_count == self.state.execution_count,
            r.broadcast_count == self.state.broadcast_count,
            r.active_workflows == active_count(self.state.workflows@),
    {
        let ghost ws = self.state.workflows@;
        let mut n: u64 = 0;
        let mut i: usize = 0;
        while i < self.state.workflows.len()
            invariant
                ws == self.state.workflows@,
                i <= ws.len(),
                n == active_count(ws.take(i as int)),
                n <= i,
            decreases ws.len() - i,
        {
            assert(ws.take(i + 1).drop_last() =~= ws.take(i as int));
            if self.state.workflows[i].active {
                n = n + 1;
            }
            i = i + 1;
        }
        assert(ws.take(i as int) =~= ws);
        FlowStats {
            workflow_count: self.state.workflow_count,
            execution_count: self.state.execution_count,
            broadcast_count: self.state.broadcast_count,
            active_workflows: n,
        }
    }

    /// Registers, owned by `caller`, the workflow that `template` makes with
    /// `params`; returns its id.
    pub fn use_template(&mut self, caller: ActorId, block: u32, template: TemplateType, params: TemplateParams) -> (r: u64)
        requires
            old(self).state.wf(),
            old(self).state.next_workflow_id < u64::MAX,
        ensures
            final(self).state.wf(),
            r == old(self).state.next_workflow_id,
            built(template, params, input_of(final(self).state.workflows@.last())),
            final(self).state.workflows@ == old(self).state.workflows@.push(
                registered(r, caller, input_of(final(self).state.workflows@.last()), block),
            ),
            final(self).state == (FlowState {
                workflows: final(self).state.workflows,
                next_workflow_id: (old(self).state.next_workflow_id + 1) as u64,
                workflow_count: (old(self).state.workflow_count + 1) as u64,
                ..old(self).state
            }),
    {
        let input = build_template(template, params);
        let ghost built_input = input;
        let id = register_workflow(&mut self.state, caller, block, input);
        assert(input_of(self.state.workflows@.last()) == built_input);
        id
    }

    /// Owner only: the first tick message, which starts the tick loop.
    pub fn start_tick(&self, caller: ActorId, gas_available: u64) -> (r: Result<SelfMessage, FlowError>)
        ensures
            caller != self.state.owner ==> r matches Err(FlowError::OwnerOnly),
            caller == self.state.owner ==> (r matches Ok(m) && m.payload@ == scale_encoded(
                "VaraFlow".spec_bytes(),
            ) + scale_encoded("Tick".spec_bytes()) && m.gas_limit == u64_specs::wrapping_mul(
                gas_available,
                80,
            ) / 100 && m.delay == TICK_INTERVAL),
    {
        if !caller.same(&self.state.owner) {
            return Err(FlowError::OwnerOnly);
        }
        Ok(tick_message(gas_available))
    }

    /// Owner only: the oracle's new address.
    pub fn set_bridge(&mut self, caller: ActorId, bridge_pid: ActorId) -> (r: Result<(), FlowError>)
        ensures
            caller != old(self).state.owner ==> r == Err::<(), FlowError>(FlowError::OwnerOnly)
                && final(self).state == old(self).state,
            caller == old(self).state.owner ==> r is Ok && final(self).state == (FlowState {
                bridge_pid,
                ..old(self).state
            }),
    {
        if !caller.same(&self.state.owner) {
            return Err(FlowError::OwnerOnly);
        }
        self.state.bridge_pid = bridge_pid;
        Ok(())
    }

    /// Owner only: the pulse agent's new address.
    pub fn set_pulse(&mut self, caller: ActorId, pulse_pid: ActorId) -> (r: Result<(), FlowError>)
        ensures
            caller != old(self).state.owner ==> r == Err::<(), FlowError>(FlowError::OwnerOnly)
                && final(self).state == old(self).state,
            caller == old(self).state.owner ==> r is Ok && final(self).state == (FlowState {
                pulse_pid,
                ..old(self).state
            }),
    {
        if !caller.same(&self.state.owner) {
            return Err(FlowError::OwnerOnly);
        }
        self.state.pulse_pid = pulse_pid;
        Ok(())
    }
}

} // verus!
