use vstd::prelude::*;

use crate::flow::state::{
    copy_workflow, find_workflow, ids_ascending, lemma_wf_pos_range, wf_pos, workflow_eqv,
    FlowError, FlowState, Trigger, Workflow, WorkflowInput, WorkflowPatch, WorkflowSummary,
};
use crate::ids::ActorId;
use vstd::wrapping::u32_specs;

verus! {

/// Blocks between two runs: the trigger's interval, else one.
pub open spec fn run_interval(t: Trigger) -> u32 {
    match t {
        Trigger::BlockInterval { every_n_blocks } => every_n_blocks,
        _ => 1,
    }
}

/// The next block at which a workflow with trigger `t` may run, counted
/// from `block` (the sum wraps as the program is built).
pub open spec fn next_run(t: Trigger, block: u32) -> u32 {
    u32_specs::wrapping_add(block, run_interval(t))
}

pub fn interval_of(t: &Trigger) -> (r: u32)
    ensures
        r == run_interval(*t),
{
    match t {
        Trigger::BlockInterval { every_n_blocks } => *every_n_blocks,
        _ => 1,
    }
}

/// The workflow a registration creates.
pub open spec fn registered(id: u64, owner: ActorId, input: WorkflowInput, block: u32) -> Workflow {
    Workflow {
        id,
        owner,
        name: input.name,
        description: input.description,
        trigger: input.trigger,
        steps: input.steps,
        active: true,
        created_block: block,
        last_run_block: 0,
        run_count: 0,
        next_run_block: next_run(input.trigger, block),
    }
}

/// A workflow with each present part of `patch` replacing its own.
pub open spec fn patched(w: Workflow, patch: WorkflowPatch) -> Workflow {
    Workflow {
        name: match patch.name {
            Some(n) => n,
            None => w.name,
        },
        description: match patch.description {
            Some(d) => d,
            None => w.description,
        },
        trigger: match patch.trigger {
            Some(t) => t,
            None => w.trigger,
        },
        steps: match patch.steps {
            Some(s) => s,
            None => w.steps,
        },
        active: match patch.active {
            Some(a) => a,
            None => w.active,
        },
        ..w
    }
}

/// The summary of a workflow.
pub open spec fn summary_of(w: Workflow) -> WorkflowSummary {
    WorkflowSummary {
        id: w.id,
        name: w.name,
        trigger: w.trigger,
        active: w.active,
        run_count: w.run_count,
        last_run_block: w.last_run_block,
        next_run_block: w.next_run_block,
    }
}

/// The workflow belongs to `owner` (when given) and is active (when asked).
pub open spec fn listed(w: Workflow, owner: Option<ActorId>, active_only: bool) -> bool {
    &&& match owner {
        Some(o) => w.owner == o,
        None => true,
    }
    &&& !active_only || w.active
}

/// The summaries of the listed workflows, in id order.
pub open spec fn summaries(ws: Seq<Workflow>, owner: Option<ActorId>, active_only: bool) -> Seq<
    WorkflowSummary,
>
    decreases ws.len(),
{
    if ws.len() == 0 {
        Seq::empty()
    } else {
        let prev = summaries(ws.drop_last(), owner, active_only);
        if listed(ws.last(), owner, active_only) {
            prev.push(summary_of(ws.last()))
        } else {
            prev
        }
    }
}

/// Registers a workflow owned by `caller`, active, first due one interval
/// after `block`; returns its id, the next free id.
pub fn register_workflow(state: &mut FlowState, caller: ActorId, block: u32, input: WorkflowInput) -> (r: u64)
    requires
        old(state).wf(),
        old(state).next_workflow_id < u64::MAX,
    ensures
        final(state).wf(),
        r == old(state).next_workflow_id,
        final(state).workflows@ == old(state).workflows@.push(registered(r, caller, input, block)),
        *final(state) == (FlowState {
            workflows: final(state).workflows,
            next_workflow_id: (old(state).next_workflow_id + 1) as u64,
            workflow_count: (old(state).workflow_count + 1) as u64,
            ..*old(state)
        }),
{
    let id = state.next_workflow_id;
    let next = block.wrapping_add(interval_of(&input.trigger));
    let ghost w = registered(id, caller, input, block);
    state.workflows.push(
        Workflow {
            id,
            owner: caller,
            name: input.name,
            description: input.description,
            trigger: input.trigger,
            steps: input.steps,
            active: true,
            created_block: block,
            last_run_block: 0,
            run_count: 0,
            next_run_block: next,
        },
    );
    state.next_workflow_id = state.next_workflow_id + 1;
    state.workflow_count = state.workflow_count + 1;
    id
}

/// The outcome of an owner-only change of workflow `id` by `caller`: not
/// found, not the owner, or allowed at position `pos`.
pub open spec fn owner_check(ws: Seq<Workflow>, id: u64, caller: ActorId, denied: FlowError) -> Result<int, FlowError> {
    let pos = wf_pos(ws, id);
    if pos < 0 {
        Err(FlowError::WorkflowNotFound)
    } else if ws[pos].owner != caller {
        Err(denied)
    } else {
        Ok(pos)
    }
}

fn check_owner(state: &FlowState, id: u64, caller: &ActorId, denied: FlowError) -> (r: Result<usize, FlowError>)
    ensures
        match r {
            Ok(i) => owner_check(state.workflows@, id, *caller, denied) == Ok::<int, FlowError>(i as int)
                && i < state.workflows@.len(),
            Err(e) => owner_check(state.workflows@, id, *caller, denied) == Err::<int, FlowError>(e),
        },
{
    proof {
        lemma_wf_pos_range(state.workflows@, id);
    }
    match find_workflow(state, id) {
        None => Err(FlowError::WorkflowNotFound),
        Some(i) => {
            if state.workflows[i].owner.same(caller) {
                Ok(i)
            } else {
                Err(denied)
            }
        },
    }
}

/// Owner only: replaces the parts of workflow `id` that `patch` holds.
pub fn update_workflow(state: &mut FlowState, caller: ActorId, id: u64, patch: WorkflowPatch) -> (r: Result<(), FlowError>)
    requires
        old(state).wf(),
    ensures
        final(state).wf(),
        match owner_check(old(state).workflows@, id, caller, FlowError::OnlyOwnerCanUpdate) {
            Ok(p) => r is Ok && *final(state) == (FlowState {
                workflows: final(state).workflows,
                ..*old(state)
            }) && final(state).workflows@ == old(state).workflows@.update(
                p,
                patched(old(state).workflows@[p], patch),
            ),
            Err(e) => r == Err::<(), FlowError>(e) && *final(state) == *old(state),
        },
{
    let i = match check_owner(state, id, &caller, FlowError::OnlyOwnerCanUpdate) {
        Ok(i) => i,
        Err(e) => return Err(e),
    };
    let ghost ws = state.workflows@;
    let mut w = state.workflows.remove(i);
    if let Some(name) = patch.name {
        w.name = name;
    }
    if let Some(description) = patch.description {
        w.description = description;
    }
    if let Some(trigger) = patch.trigger {
        w.trigger = trigger;
    }
    if let Some(steps) = patch.steps {
        w.steps = steps;
    }
    if let Some(active) = patch.active {
        w.active = active;
    }
    state.workflows.insert(i, w);
    assert(state.workflows@ =~= ws.update(i as int, patched(ws[i as int], patch)));
    Ok(())
}

/// Owner only: removes workflow `id`.
pub fn delete_workflow(state: &mut FlowState, caller: ActorId, id: u64) -> (r: Result<(), FlowError>)
    requires
        old(state).wf(),
    ensures
        final(state).wf(),
        match owner_check(old(state).workflows@, id, caller, FlowError::OnlyOwnerCanDelete) {
            Ok(p) => r is Ok && *final(state) == (FlowState {
                workflows: final(state).workflows,
                ..*old(state)
            }) && final(state).workflows@ == old(state).workflows@.remove(p),
            Err(e) => r == Err::<(), FlowError>(e) && *final(state) == *old(state),
        },
{
    let i = match check_owner(state, id, &caller, FlowError::OnlyOwnerCanDelete) {
        Ok(i) => i,
        Err(e) => return Err(e),
    };
    let ghost ws = state.workflows@;
    state.workflows.remove(i);
    assert(ids_ascending(state.workflows@, state.next_workflow_id)) by {
        assert forall|a: int, b: int| 0 <= a < b < state.workflows@.len() implies (
        #[trigger] state.workflows@[a]).id < (#[trigger] state.workflows@[b]).id by {
            let a0 = if a < i { a } else { a + 1 };
            let b0 = if b < i { b } else { b + 1 };
            assert(state.workflows@[a] == ws[a0]);
            assert(state.workflows@[b] == ws[b0]);
        }
        assert forall|a: int| 0 <= a < state.workflows@.len() implies (
        #[trigger] state.workflows@[a]).id < state.next_workflow_id by {
            let a0 = if a < i { a } else { a + 1 };
            assert(state.workflows@[a] == ws[a0]);
        }
    }
    Ok(())
}

/// Owner only: makes workflow `id` inactive.
pub fn pause_workflow(state: &mut FlowState, caller: ActorId, id: u64) -> (r: Result<(), FlowError>)
    requires
        old(state).wf(),
    ensures
        final(state).wf(),
        match owner_check(old(state).workflows@, id, caller, FlowError::OnlyOwnerCanPause) {
            Ok(p) => r is Ok && *final(state) == (FlowState {
                workflows: final(state).workflows,
                ..*old(state)
            }) && final(state).workflows@ == old(state).workflows@.update(
                p,
                Workflow { active: false, ..old(state).workflows@[p] },
            ),
            Err(e) => r == Err::<(), FlowError>(e) && *final(state) == *old(state),
        },
{
    let i = match check_owner(state, id, &caller, FlowError::OnlyOwnerCanPause) {
        Ok(i) => i,
        Err(e) => return Err(e),
    };
    let ghost ws = state.workflows@;
    let mut w = state.workflows.remove(i);
    w.active = false;
    state.workflows.insert(i, w);
    assert(state.workflows@ =~= ws.update(i as int, Workflow { active: false, ..ws[i as int] }));
    Ok(())
}

/// Owner only: makes workflow `id` active again, first due one interval
/// after `block`.
pub fn resume_workflow(state: &mut FlowState, caller: ActorId, id: u64, block: u32) -> (r: Result<(), FlowError>)
    requires
        old(state).wf(),
    ensures
        final(state).wf(),
        match owner_check(old(state).workflows@, id, caller, FlowError::OnlyOwnerCanResume) {
            Ok(p) => r is Ok && *final(state) == (FlowState {
                workflows: final(state).workflows,
                ..*old(state)
            }) && final(state).workflows@ == old(state).workflows@.update(
                p,
                Workflow {
                    active: true,
                    next_run_block: next_run(old(state).workflows@[p].trigger, block),
                    ..old(state).workflows@[p]
                },
            ),
            Err(e) => r == Err::<(), FlowError>(e) && *final(state) == *old(state),
        },
{
    let i = match check_owner(state, id, &caller, FlowError::OnlyOwnerCanResume) {
        Ok(i) => i,
        Err(e) => return Err(e),
    };
    let ghost ws = state.workflows@;
    let mut w = state.workflows.remove(i);
    w.active = true;
    w.next_run_block = block.wrapping_add(interval_of(&w.trigger));
    state.workflows.insert(i, w);
    assert(state.workflows@ =~= ws.update(
        i as int,
        Workflow {
            active: true,
            next_run_block: next_run(ws[i as int].trigger, block),
            ..ws[i as int]
        },
    ));
    Ok(())
}

/// A copy of workflow `id`, if it exists.
pub fn get_workflow(state: &FlowState, id: u64) -> (r: Option<Workflow>)
    ensures
        match r {
            Some(w) => wf_pos(state.workflows@, id) >= 0 && workflow_eqv(
                w,
                state.workflows@[wf_pos(state.workflows@, id)],
            ),
            None => wf_pos(state.workflows@, id) < 0,
        },
{
    match find_workflow(state, id) {
        Some(i) => Some(copy_workflow(&state.workflows[i])),
        None => None,
    }
}

/// Summaries of the workflows of `owner` (or of all, when none is given),
/// only the active ones when `active_only`, in id order.
pub fn list_workflows(state: &FlowState, owner: Option<ActorId>, active_only: bool) -> (r: Vec<WorkflowSummary>)
    ensures
        r@ == summaries(state.workflows@, owner, active_only),
{
    let mut r: Vec<WorkflowSummary> = Vec::new();
    let mut i: usize = 0;
    while i < state.workflows.len()
        invariant
            i <= state.workflows@.len(),
            r@ == summaries(state.workflows@.take(i as int), owner, active_only),
        decreases state.workflows@.len() - i,
    {
        let wf = &state.workflows[i];
        let owner_match = match owner {
            Some(o) => wf.owner.same(&o),
            None => true,
        };
        let active_match = !active_only || wf.active;
        assert(state.workflows@.take(i + 1).drop_last() =~= state.workflows@.take(i as int));
        if owner_match && active_match {
            r.push(
                WorkflowSummary {
                    id: wf.id,
                    name: wf.name.clone(),
                    trigger: wf.trigger.clone(),
                    active: wf.active,
                    run_count: wf.run_count,
                    last_run_block: wf.last_run_block,
                    next_run_block: wf.next_run_block,
                },
            );
        }
        i = i + 1;
    }
    assert(state.workflows@.take(i as int) =~= state.workflows@);
    r
}

/// A registered workflow: the caller's, under the given id, with the
/// registration's name, description, trigger and steps, active, created at
/// `block`, never run, and first due one interval later (the trigger's
/// interval for an interval trigger, else one block; where the sum fits in
/// a `u32`).
pub proof fn lemma_registration(id: u64, owner: ActorId, input: WorkflowInput, block: u32)
    ensures
        ({
            let w = registered(id, owner, input, block);
            &&& w.id == id && w.owner == owner
            &&& w.name == input.name && w.description == input.description
            &&& w.trigger == input.trigger && w.steps == input.steps
            &&& w.active && w.created_block == block && w.run_count == 0 && w.last_run_block == 0
            &&& match input.trigger {
                Trigger::BlockInterval { every_n_blocks } => block + every_n_blocks <= u32::MAX
                    ==> w.next_run_block == block + every_n_blocks,
                _ => block < u32::MAX ==> w.next_run_block == block + 1,
            }
        }),
{
}

/// A patch changes only what it holds: each part it gives replaces the
/// workflow's own, every other part stays, and the id, owner, creation
/// block, run count and run blocks never change.
pub proof fn lemma_patch(w: Workflow, patch: WorkflowPatch)
    ensures
        ({
            let n = patched(w, patch);
            &&& n.id == w.id && n.owner == w.owner && n.created_block == w.created_block
            &&& n.run_count == w.run_count && n.last_run_block == w.last_run_block
            &&& n.next_run_block == w.next_run_block
            &&& (patch.name matches Some(x) ==> n.name == x) && (patch.name is None ==> n.name == w.name)
            &&& (patch.description matches Some(x) ==> n.description == x) && (patch.description is None
                ==> n.description == w.description)
            &&& (patch.trigger matches Some(x) ==> n.trigger == x) && (patch.trigger is None ==> n.trigger
                == w.trigger)
            &&& (patch.steps matches Some(x) ==> n.steps == x) && (patch.steps is None ==> n.steps
                == w.steps)
            &&& (patch.active matches Some(x) ==> n.active == x) && (patch.active is None ==> n.active
                == w.active)
        }),
{
}

/// Only the owner changes a workflow: the change is allowed exactly when a
/// workflow with that id exists and the caller owns it (and then it is that
/// workflow's position); with no such workflow it is refused as not found,
/// and for anyone else with the given refusal.
pub proof fn lemma_owner_check(ws: Seq<Workflow>, id: u64, caller: ActorId, denied: FlowError)
    requires
        denied != FlowError::WorkflowNotFound,
    ensures
        (owner_check(ws, id, caller, denied) is Ok) <==> (exists|i: int|
            0 <= i < ws.len() && (#[trigger] ws[i]).id == id && ws[i].owner == caller
                && forall|j: int| 0 <= j < i ==> (#[trigger] ws[j]).id != id),
        owner_check(ws, id, caller, denied) matches Ok(p) ==> 0 <= p < ws.len() && ws[p].id == id
            && ws[p].owner == caller,
        (owner_check(ws, id, caller, denied) == Err::<int, FlowError>(FlowError::WorkflowNotFound))
            <==> (forall|i: int| 0 <= i < ws.len() ==> (#[trigger] ws[i]).id != id),
{
    lemma_wf_pos_range(ws, id);
    let p = wf_pos(ws, id);
    if p >= 0 {
        lemma_wf_pos_first(ws, id);
    } else {
        assert forall|i: int| 0 <= i < ws.len() implies (#[trigger] ws[i]).id != id by {
            lemma_wf_pos_absent(ws, id, i);
        }
    }
    if exists|i: int|
        0 <= i < ws.len() && (#[trigger] ws[i]).id == id && ws[i].owner == caller && forall|j: int|
            0 <= j < i ==> (#[trigger] ws[j]).id != id {
        let i = choose|i: int|
            0 <= i < ws.len() && (#[trigger] ws[i]).id == id && ws[i].owner == caller && forall|j: int|
                0 <= j < i ==> (#[trigger] ws[j]).id != id;
        crate::flow::state::lemma_wf_pos(ws, id, i);
    }
}

proof fn lemma_wf_pos_first(ws: Seq<Workflow>, id: u64)
    requires
        wf_pos(ws, id) >= 0,
    ensures
        forall|j: int| 0 <= j < wf_pos(ws, id) ==> (#[trigger] ws[j]).id != id,
    decreases ws.len(),
{
    lemma_wf_pos_range(ws, id);
    if ws.len() > 0 && ws[0].id != id {
        lemma_wf_pos_first(ws.drop_first(), id);
        assert forall|j: int| 0 <= j < wf_pos(ws, id) implies (#[trigger] ws[j]).id != id by {
            if j > 0 {
                assert(ws[j] == ws.drop_first()[j - 1]);
            }
        }
    }
}

proof fn lemma_wf_pos_absent(ws: Seq<Workflow>, id: u64, i: int)
    requires
        wf_pos(ws, id) < 0,
        0 <= i < ws.len(),
    ensures
        ws[i].id != id,
    decreases ws.len(),
{
    if i > 0 {
        lemma_wf_pos_absent(ws.drop_first(), id, i - 1);
    }
}

/// A workflow just registered is found under the id it was given.
pub proof fn lemma_registered_found(ws: Seq<Workflow>, next: u64, caller: ActorId, input: WorkflowInput, block: u32)
    requires
        ids_ascending(ws, next),
    ensures
        wf_pos(ws.push(registered(next, caller, input, block)), next) == ws.len(),
{
    let ws2 = ws.push(registered(next, caller, input, block));
    assert forall|j: int| 0 <= j < ws.len() implies (#[trigger] ws2[j]).id != next by {
        assert(ws2[j] == ws[j]);
    }
    crate::flow::state::lemma_wf_pos(ws2, next, ws.len() as int);
}

proof fn lemma_summaries_nest(ws: Seq<Workflow>, owner: Option<ActorId>)
    ensures
        summaries(ws, owner, true) == summaries(ws, owner, false).filter(
            |s: WorkflowSummary| s.active,
        ),
        forall|s: WorkflowSummary| #[trigger]
            summaries(ws, owner, false).contains(s) ==> summaries(ws, None, false).contains(s),
        summaries(ws, None, false) == ws.map_values(|w: Workflow| summary_of(w)),
    decreases ws.len(),
{
    reveal(Seq::filter);
    if ws.len() > 0 {
        let init = ws.drop_last();
        let last = ws.last();
        lemma_summaries_nest(init, owner);
        let mine = summaries(init, owner, false);
        let all = summaries(init, None, false);
        let all2 = summaries(ws, None, false);
        assert(all2 == all.push(summary_of(last)));
        if listed(last, owner, false) {
            let pushed = mine.push(summary_of(last));
            assert(pushed.drop_last() =~= mine);
            assert(pushed.last() == summary_of(last));
        }
        assert forall|s: WorkflowSummary| #[trigger]
            summaries(ws, owner, false).contains(s) implies all2.contains(s) by {
            let k = choose|k: int| 0 <= k < summaries(ws, owner, false).len()
                && summaries(ws, owner, false)[k] == s;
            if listed(last, owner, false) && k == mine.len() {
                assert(all2[all.len() as int] == s);
            } else {
                assert(mine[k] == s);
                assert(mine.contains(s));
                let m = choose|m: int| 0 <= m < all.len() && all[m] == s;
                assert(all2[m] == s);
            }
        }
        assert(ws.map_values(|w: Workflow| summary_of(w)) =~= init.map_values(
            |w: Workflow| summary_of(w),
        ).push(summary_of(last)));
    } else {
        assert(ws.map_values(|w: Workflow| summary_of(w)) =~= Seq::<WorkflowSummary>::empty());
    }
}

/// The listings of `list_workflows` nest, for any owner filter: the
/// active-only listing is the plain listing with its inactive entries
/// dropped; every entry of an owner's listing is in the full listing; and the
/// full listing summarises every workflow in id order, so its ids are the
/// ids of all workflows.
pub proof fn lemma_list_workflows_nest(s: FlowState, owner: Option<ActorId>)
    ensures
        summaries(s.workflows@, owner, true) == summaries(s.workflows@, owner, false).filter(
            |w: WorkflowSummary| w.active,
        ),
        forall|w: WorkflowSummary| #[trigger]
            summaries(s.workflows@, owner, false).contains(w) ==> summaries(
                s.workflows@,
                None,
                false,
            ).contains(w),
        summaries(s.workflows@, None, false) == s.workflows@.map_values(|w: Workflow| summary_of(w)),
        summaries(s.workflows@, None, false).map_values(|w: WorkflowSummary| w.id)
            == s.workflows@.map_values(|w: Workflow| w.id),
{
    lemma_summaries_nest(s.workflows@, owner);
    assert(summaries(s.workflows@, None, false).map_values(|w: WorkflowSummary| w.id)
        =~= s.workflows@.map_values(|w: Workflow| w.id));
}

/// A deleted workflow is no longer found.
pub proof fn lemma_deleted_gone(ws: Seq<Workflow>, next: u64, id: u64)
    requires
        ids_ascending(ws, next),
        wf_pos(ws, id) >= 0,
    ensures
        wf_pos(ws.remove(wf_pos(ws, id)), id) == -1,
{
    let p = wf_pos(ws, id);
    lemma_wf_pos_range(ws, id);
    let ws2 = ws.remove(p);
    assert forall|j: int| 0 <= j < ws2.len() implies (#[trigger] ws2[j]).id != id by {
        if j < p {
            assert(ws2[j] == ws[j]);
        } else {
            assert(ws2[j] == ws[j + 1]);
        }
    }
    crate::flow::state::lemma_wf_pos(ws2, id, ws2.len() as int);
}

} // verus!
