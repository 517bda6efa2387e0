use vstd::prelude::*;

use crate::flow::bridge_client::{
    cache_view, cached_gas, cached_price, get_cached_gas, get_cached_price, CacheView,
};
use crate::flow::broadcast::{do_broadcast, flow_body, flow_posts};
use crate::flow::executor::{
    execute_workflow, fulfils, fulfils_all, input_data, new_execution, run_recorded, run_step,
    workflow_run, FlowAction, Planned,
};
use crate::flow::state::{lemma_wf_pos, ExecutionStatus, FlowError, FlowState, Trigger, Workflow};
use crate::flow::timeouts::{expire_pending, in_time, lemma_in_time, timed_out, timed_out_at};
use crate::strmap::StrMap;
use vstd::wrapping::{u32_specs, u64_specs};

verus! {

/// The workflow's trigger fires at `block`, with `cache` as the cached
/// oracle data (the interval sum wraps as the program is built).
pub open spec fn triggered_by(cache: Option<CacheView>, w: Workflow, block: u32) -> bool {
    match w.trigger {
        Trigger::BlockInterval { every_n_blocks } => block >= u32_specs::wrapping_add(
            w.last_run_block,
            every_n_blocks,
        ),
        Trigger::PriceThreshold { symbol, above_usd, below_usd } => match cached_price(
            cache,
            symbol@,
            block,
        ) {
            Some(p) => (match above_usd {
                Some(t) => p >= t,
                None => true,
            }) && (match below_usd {
                Some(t) => p <= t,
                None => true,
            }),
            None => false,
        },
        Trigger::GasBelow { threshold_micro } => cached_gas(cache) <= threshold_micro,
        Trigger::ManualCall { .. } => false,
        Trigger::OnBridgeUpdate => match cache {
            Some(c) => c.updated_at_block > w.last_run_block,
            None => false,
        },
    }
}

/// A tick at `block` runs the workflow: it is active, its next run is due
/// and its trigger fires.
pub open spec fn is_due(cache: Option<CacheView>, w: Workflow, block: u32) -> bool {
    w.active && block >= w.next_run_block && triggered_by(cache, w, block)
}

/// When each trigger fires at `block`: an interval once `every_n_blocks`
/// have passed since the last run (where that sum fits in a `u32`); a price
/// threshold exactly when a fresh price is cached for its symbol and lies
/// within the bounds it gives, at or above `above_usd` and at or below
/// `below_usd`; a gas threshold when the cached gas is at most the threshold;
/// an oracle update when the cache was refreshed after the last run; a
/// manual trigger never.
pub proof fn lemma_trigger_fires(cache: Option<CacheView>, w: Workflow, block: u32)
    ensures
        match w.trigger {
            Trigger::BlockInterval { every_n_blocks } => w.last_run_block + every_n_blocks
                <= u32::MAX ==> (triggered_by(cache, w, block) <==> block >= w.last_run_block
                + every_n_blocks),
            Trigger::PriceThreshold { symbol, above_usd, below_usd } => triggered_by(cache, w, block)
                <==> (cached_price(cache, symbol@, block) matches Some(p) && (above_usd is None
                || p >= above_usd->0) && (below_usd is None || p <= below_usd->0)),
            Trigger::GasBelow { threshold_micro } => triggered_by(cache, w, block) <==> cached_gas(
                cache,
            ) <= threshold_micro,
            Trigger::ManualCall { .. } => !triggered_by(cache, w, block),
            Trigger::OnBridgeUpdate => triggered_by(cache, w, block) <==> (cache matches Some(c)
                && c.updated_at_block > w.last_run_block),
        },
{
}

/// A paused workflow is never run by a tick.
pub proof fn lemma_paused_not_due(cache: Option<CacheView>, w: Workflow, block: u32)
    requires
        !w.active,
    ensures
        !is_due(cache, w, block),
{
}

/// A workflow triggered by hand is never run by a tick.
pub proof fn lemma_manual_not_due(cache: Option<CacheView>, w: Workflow, block: u32)
    requires
        w.trigger is ManualCall,
    ensures
        !is_due(cache, w, block),
{
}

/// After a run at `block`, a workflow on an interval of `n` blocks is not
/// run again before `block + n` (where that sum does not wrap).
pub proof fn lemma_interval_spacing(cache: Option<CacheView>, w: Workflow, block: u32, later: u32)
    requires
        w.trigger is BlockInterval,
        block + w.trigger->every_n_blocks <= u32::MAX,
        later < block + w.trigger->every_n_blocks,
    ensures
        !is_due(cache, run_recorded(w, block), later),
{
}

/// The positions of the workflows a tick at `block` runs, in order.
pub open spec fn due_positions(ws: Seq<Workflow>, cache: Option<CacheView>, block: u32) -> Seq<int>
    decreases ws.len(),
{
    if ws.len() == 0 {
        Seq::empty()
    } else {
        let prev = due_positions(ws.drop_last(), cache, block);
        if is_due(cache, ws.last(), block) {
            prev.push(ws.len() - 1)
        } else {
            prev
        }
    }
}

/// `d` lists, in ascending order, exactly the positions of `ws` whose
/// workflows are due.
pub open spec fn lists_due(ws: Seq<Workflow>, d: Seq<int>, cache: Option<CacheView>, block: u32) -> bool {
    &&& d.len() <= ws.len()
    &&& forall|k: int| 0 <= k < d.len() ==> 0 <= #[trigger] d[k] < ws.len() && is_due(cache, ws[d[k]], block)
    &&& forall|k: int, l: int| 0 <= k < l < d.len() ==> #[trigger] d[k] < #[trigger] d[l]
    &&& forall|i: int| 0 <= i < ws.len() && is_due(cache, #[trigger] ws[i], block) ==> d.contains(i)
}

pub proof fn lemma_due_positions(ws: Seq<Workflow>, cache: Option<CacheView>, block: u32)
    ensures
        lists_due(ws, due_positions(ws, cache, block), cache, block),
    decreases ws.len(),
{
    if ws.len() > 0 {
        let prev = ws.drop_last();
        lemma_due_positions(prev, cache, block);
        let dp = due_positions(prev, cache, block);
        let d = due_positions(ws, cache, block);
        assert forall|i: int| 0 <= i < ws.len() && is_due(cache, #[trigger] ws[i], block) implies d.contains(i) by {
            if i < ws.len() - 1 {
                assert(prev[i] == ws[i]);
                assert(dp.contains(i));
                let j = choose|j: int| 0 <= j < dp.len() && dp[j] == i;
                assert(d[j] == i);
            } else {
                assert(d[d.len() - 1] == i);
            }
        }
    }
}

/// What the runs of a tick send: the runs of the workflows at positions `d`,
/// each with no input, as executions numbered from `next`; the first failed
/// run fails the tick.
pub open spec fn tick_runs(
    cache: Option<CacheView>,
    ws: Seq<Workflow>,
    d: Seq<int>,
    next: u64,
    block: u32,
) -> Result<Seq<(Seq<Planned>, bool)>, FlowError>
    decreases d.len(),
{
    if d.len() == 0 {
        Ok(Seq::empty())
    } else {
        match tick_runs(cache, ws, d.drop_last(), next, block) {
            Err(e) => Err(e),
            Ok(rs) => match workflow_run(cache, ws[d.last()], Seq::empty(), (next + d.len() - 1) as u64, block) {
                Err(e) => Err(e),
                Ok(x) => Ok(rs.push(x)),
            },
        }
    }
}

/// The messages of a sequence of runs, one run after the other.
pub open spec fn all_plans(rs: Seq<(Seq<Planned>, bool)>) -> Seq<Planned>
    decreases rs.len(),
{
    if rs.len() == 0 {
        Seq::empty()
    } else {
        all_plans(rs.drop_last()) + rs.last().0
    }
}

/// A successful sequence of runs holds one run per position, each the run of
/// its workflow as the execution of its number.
pub proof fn lemma_tick_runs_ok(
    cache: Option<CacheView>,
    ws: Seq<Workflow>,
    d: Seq<int>,
    next: u64,
    block: u32,
)
    requires
        tick_runs(cache, ws, d, next, block) is Ok,
    ensures
        ({
            let rs = tick_runs(cache, ws, d, next, block)->Ok_0;
            &&& rs.len() == d.len()
            &&& forall|k: int| 0 <= k < d.len() ==> workflow_run(cache, #[trigger] ws[d[k]], Seq::empty(), (next + k) as u64, block) == Ok::<(Seq<Planned>, bool), FlowError>(rs[k])
            &&& forall|k: int| 0 <= k <= d.len() ==> #[trigger] tick_runs(cache, ws, d.take(k), next, block) == Ok::<Seq<(Seq<Planned>, bool)>, FlowError>(rs.take(k))
        }),
    decreases d.len(),
{
    let rs = tick_runs(cache, ws, d, next, block)->Ok_0;
    if d.len() > 0 {
        let dp = d.drop_last();
        lemma_tick_runs_ok(cache, ws, dp, next, block);
        let rp = tick_runs(cache, ws, dp, next, block)->Ok_0;
        assert(rs == rp.push(rs.last()));
        assert forall|k: int| 0 <= k < d.len() implies workflow_run(cache, #[trigger] ws[d[k]], Seq::empty(), (next + k) as u64, block) == Ok::<(Seq<Planned>, bool), FlowError>(rs[k]) by {
            if k < d.len() - 1 {
                assert(dp[k] == d[k]);
            }
        }
        assert forall|k: int| 0 <= k <= d.len() implies #[trigger] tick_runs(cache, ws, d.take(k), next, block) == Ok::<Seq<(Seq<Planned>, bool)>, FlowError>(rs.take(k)) by {
            if k < d.len() {
                assert(d.take(k) =~= dp.take(k));
                assert(rs.take(k) =~= rp.take(k));
            } else {
                assert(d.take(k) =~= d);
                assert(rs.take(k) =~= rs);
            }
        }
    } else {
        assert forall|k: int| 0 <= k <= d.len() implies #[trigger] tick_runs(cache, ws, d.take(k), next, block) == Ok::<Seq<(Seq<Planned>, bool)>, FlowError>(rs.take(k)) by {
            assert(d.take(k) =~= d);
            assert(rs.take(k) =~= rs);
        }
    }
}

/// Once a prefix of the runs fails, the whole sequence fails with the same
/// error.
pub proof fn lemma_tick_runs_err(
    cache: Option<CacheView>,
    ws: Seq<Workflow>,
    d: Seq<int>,
    next: u64,
    block: u32,
    k: int,
    e: FlowError,
)
    requires
        0 <= k <= d.len(),
        tick_runs(cache, ws, d.take(k), next, block) == Err::<Seq<(Seq<Planned>, bool)>, FlowError>(e),
    ensures
        tick_runs(cache, ws, d, next, block) == Err::<Seq<(Seq<Planned>, bool)>, FlowError>(e),
    decreases d.len() - k,
{
    if k < d.len() {
        assert(d.take(k + 1).drop_last() =~= d.take(k));
        lemma_tick_runs_err(cache, ws, d, next, block, k + 1, e);
    } else {
        assert(d.take(k) =~= d);
    }
}

/// Whether the workflow's trigger fires at `block`.
pub fn is_triggered(state: &FlowState, wf: &Workflow, block: u32) -> (r: bool)
    ensures
        r == triggered_by(cache_view(state.cached_bridge_data), *wf, block),
{
    match &wf.trigger {
        Trigger::BlockInterval { every_n_blocks } => block >= wf.last_run_block.wrapping_add(*every_n_blocks),
        Trigger::PriceThreshold { symbol, above_usd, below_usd } => {
            match get_cached_price(&state.cached_bridge_data, symbol.as_str(), block) {
                Some(price) => {
                    let above = match above_usd {
                        Some(t) => price >= *t,
                        None => true,
                    };
                    let below = match below_usd {
                        Some(t) => price <= *t,
                        None => true,
                    };
                    above && below
                },
                None => false,
            }
        },
        Trigger::GasBelow { threshold_micro } => get_cached_gas(&state.cached_bridge_data) <= *threshold_micro,
        Trigger::ManualCall { .. } => false,
        Trigger::OnBridgeUpdate => match &state.cached_bridge_data {
            Some(c) => c.updated_at_block > wf.last_run_block,
            None => false,
        },
    }
}

/// The positions of the workflows due at `block`, in order.
pub fn due_workflows(state: &FlowState, block: u32) -> (r: Vec<usize>)
    ensures
        r@.len() == due_positions(state.workflows@, cache_view(state.cached_bridge_data), block).len(),
        forall|k: int| 0 <= k < r@.len() ==> #[trigger] r@[k] as int == due_positions(
            state.workflows@,
            cache_view(state.cached_bridge_data),
            block,
        )[k],
{
    let ghost ws = state.workflows@;
    let ghost cache = cache_view(state.cached_bridge_data);
    let mut r: Vec<usize> = Vec::new();
    let mut i: usize = 0;
    while i < state.workflows.len()
        invariant
            i <= ws.len(),
            ws == state.workflows@,
            cache == cache_view(state.cached_bridge_data),
            r@.len() == due_positions(ws.take(i as int), cache, block).len(),
            forall|k: int| 0 <= k < r@.len() ==> #[trigger] r@[k] as int == due_positions(ws.take(i as int), cache, block)[k],
        decreases ws.len() - i,
    {
        let w = &state.workflows[i];
        assert(ws.take(i + 1).drop_last() =~= ws.take(i as int));
        assert(ws.take(i + 1).last() == ws[i as int]);
        if w.active && block >= w.next_run_block && is_triggered(state, w, block) {
            r.push(i);
        }
        i = i + 1;
    }
    assert(ws.take(i as int) =~= ws);
    r
}

/// The state after the runs of a tick that ran the workflows at positions
/// `d` with the outcomes `rs`: each run recorded on its workflow, one
/// execution per run appended (numbered on from the next free id, without
/// data) and counted; nothing else changes.
pub open spec fn runs_recorded(old: FlowState, new: FlowState, d: Seq<int>, rs: Seq<(Seq<Planned>, bool)>, block: u32) -> bool {
    let n = d.len();
    let es = old.executions@;
    &&& new == (FlowState {
        workflows: new.workflows,
        executions: new.executions,
        next_exec_id: (old.next_exec_id + n) as u64,
        execution_count: (old.execution_count + n) as u64,
        ..old
    })
    &&& new.workflows@.len() == old.workflows@.len()
    &&& forall|i: int| 0 <= i < old.workflows@.len() ==> #[trigger] new.workflows@[i] == if d.contains(i) {
        run_recorded(old.workflows@[i], block)
    } else {
        old.workflows@[i]
    }
    &&& new.executions@.len() == es.len() + n
    &&& forall|j: int| 0 <= j < es.len() ==> #[trigger] new.executions@[j] == es[j]
    &&& forall|k: int| 0 <= k < n ==> new_execution(
        #[trigger] new.executions@[es.len() + k],
        (old.next_exec_id + k) as u64,
        old.workflows@[d[k]].id,
        block,
        rs[k].1,
    ) && new.executions@[es.len() + k].data@.len() == 0
}

/// The counters a tick announces after `n` runs: the executions with those
/// runs, the broadcasts before this one.
pub open spec fn after_runs(old: FlowState, n: nat) -> FlowState {
    FlowState { execution_count: (old.execution_count + n) as u64, ..old }
}

/// What a tick at `block` sends once its runs succeeded: the runs' messages
/// in order, then, when `block % 200 == 100`, the announcement of the
/// counters of `s`.
pub open spec fn tick_plans(rs: Seq<(Seq<Planned>, bool)>, s: FlowState, block: u32) -> Seq<Planned> {
    all_plans(rs) + if block % 200 == 100 {
        flow_posts(flow_body(s, block))
    } else {
        Seq::empty()
    }
}

/// The state after a tick at `block` that ran the workflows at positions `d`
/// with the outcomes `rs`: the runs recorded (see `runs_recorded`), the
/// broadcast counted when the tick announced (`block % 200 == 100`; the
/// count wraps as the program is built), and every step whose reply did not
/// come in time skipped: dropped from the waiting steps, its execution (one
/// that existed before the tick) timed out.
pub open spec fn ticked(old: FlowState, new: FlowState, d: Seq<int>, rs: Seq<(Seq<Planned>, bool)>, block: u32) -> bool {
    let n = d.len();
    let es = old.executions@;
    &&& new == (FlowState {
        workflows: new.workflows,
        executions: new.executions,
        pending_replies: new.pending_replies,
        next_exec_id: (old.next_exec_id + n) as u64,
        execution_count: (old.execution_count + n) as u64,
        broadcast_count: if block % 200 == 100 {
            u64_specs::wrapping_add(old.broadcast_count, 1)
        } else {
            old.broadcast_count
        },
        ..old
    })
    &&& new.pending_replies@ == in_time(old.pending_replies@, block)
    &&& new.workflows@.len() == old.workflows@.len()
    &&& forall|i: int| 0 <= i < old.workflows@.len() ==> #[trigger] new.workflows@[i] == if d.contains(i) {
        run_recorded(old.workflows@[i], block)
    } else {
        old.workflows@[i]
    }
    &&& new.executions@.len() == es.len() + n
    &&& forall|j: int| 0 <= j < es.len() ==> #[trigger] new.executions@[j] == if timed_out_at(
        old.pending_replies@,
        j,
        es.len() as int,
        block,
    ) {
        timed_out(es[j])
    } else {
        es[j]
    }
    &&& forall|k: int| 0 <= k < n ==> new_execution(
        #[trigger] new.executions@[es.len() + k],
        (old.next_exec_id + k) as u64,
        old.workflows@[d[k]].id,
        block,
        rs[k].1,
    ) && new.executions@[es.len() + k].data@.len() == 0
}

/// What a tick does besides its runs: it counts its broadcast exactly when
/// it announces (at `block % 200 == 100`); every step still waiting after it
/// is within its deadline, and every step within its deadline still waits;
/// each execution that existed with a step past its deadline is timed out,
/// and each other execution that existed is untouched.
pub proof fn lemma_tick_effects(old: FlowState, new: FlowState, d: Seq<int>, rs: Seq<(Seq<Planned>, bool)>, block: u32)
    requires
        ticked(old, new, d, rs, block),
    ensures
        old.broadcast_count < u64::MAX ==> new.broadcast_count == if block % 200 == 100 {
            old.broadcast_count + 1
        } else {
            old.broadcast_count as int
        },
        forall|k: int|
            0 <= k < new.pending_replies@.len() ==> (#[trigger] new.pending_replies@[k]).1.timeout_block
                >= block,
        forall|i: int|
            0 <= i < old.pending_replies@.len() && (#[trigger] old.pending_replies@[i]).1.timeout_block
                >= block ==> new.pending_replies@.contains(old.pending_replies@[i]),
        forall|i: int|
            0 <= i < old.pending_replies@.len() && (#[trigger] old.pending_replies@[i]).1.timeout_block
                < block && old.pending_replies@[i].1.exec_id < old.executions@.len() ==> new.executions@[old.pending_replies@[i].1.exec_id as int].status
                == ExecutionStatus::TimedOut,
        forall|j: int|
            0 <= j < old.executions@.len() && (forall|i: int|
                0 <= i < old.pending_replies@.len() ==> (#[trigger] old.pending_replies@[i]).1.exec_id
                    != j || old.pending_replies@[i].1.timeout_block >= block) ==> #[trigger] new.executions@[j]
                == old.executions@[j],
{
    let ps = old.pending_replies@;
    lemma_in_time(ps, block);
    assert forall|i: int|
        0 <= i < ps.len() && (#[trigger] ps[i]).1.timeout_block < block && ps[i].1.exec_id
            < old.executions@.len() implies new.executions@[ps[i].1.exec_id as int].status
        == ExecutionStatus::TimedOut by {
        let j = ps[i].1.exec_id as int;
        assert(timed_out_at(ps, j, old.executions@.len() as int, block));
    }
}

/// The periodic tick at `block`: runs every due workflow (active, its next
/// run reached, its trigger firing) in id order, each as a new execution
/// without input; announces the counters when `block % 200 == 100` and
/// counts that broadcast; and skips the steps whose replies did not come in
/// time. When one of the runs fails the tick fails with its error and
/// nothing changes.
pub fn tick(state: &mut FlowState, block: u32) -> (r: Result<Vec<FlowAction>, FlowError>)
    requires
        old(state).wf(),
        old(state).next_exec_id + old(state).workflows@.len() < u64::MAX,
    ensures
        final(state).wf(),
        ({
            let cache = cache_view(old(state).cached_bridge_data);
            let d = due_positions(old(state).workflows@, cache, block);
            match tick_runs(cache, old(state).workflows@, d, old(state).next_exec_id, block) {
                Err(e) => r == Err::<Vec<FlowAction>, FlowError>(e) && *final(state) == *old(state),
                Ok(rs) => r matches Ok(acts) && fulfils_all(
                    acts@,
                    tick_plans(rs, after_runs(*old(state), d.len()), block),
                    *old(state),
                ) && ticked(*old(state), *final(state), d, rs, block),
            }
        }),
{
    let ghost s0 = *state;
    let ghost cache = cache_view(state.cached_bridge_data);
    let ghost d = due_positions(state.workflows@, cache, block);
    let limit = state.executions.len() as u64;
    let acts = match run_due(state, block) {
        Err(e) => return Err(e),
        Ok(a) => a,
    };
    let ghost rs = tick_runs(cache, s0.workflows@, d, s0.next_exec_id, block)->Ok_0;
    let ghost mid = *state;
    assert(tick_plans(rs, mid, block) == tick_plans(rs, after_runs(s0, d.len()), block));
    if block % 200 == 100 {
        state.broadcast_count = state.broadcast_count.wrapping_add(1);
    }
    expire_pending(state, block, limit);
    proof {
        let es = s0.executions@;
        assert forall|j: int| 0 <= j < es.len() implies #[trigger] state.executions@[j] == if timed_out_at(
            s0.pending_replies@,
            j,
            es.len() as int,
            block,
        ) {
            timed_out(es[j])
        } else {
            es[j]
        } by {
            assert(mid.executions@[j] == es[j]);
        }
        assert forall|k: int| 0 <= k < d.len() implies new_execution(
            #[trigger] state.executions@[es.len() + k],
            (s0.next_exec_id + k) as u64,
            s0.workflows@[d[k]].id,
            block,
            rs[k].1,
        ) && state.executions@[es.len() + k].data@.len() == 0 by {
            assert(!timed_out_at(s0.pending_replies@, es.len() + k, es.len() as int, block));
            assert(state.executions@[es.len() + k] == mid.executions@[es.len() + k]);
        }
    }
    Ok(acts)
}

/// The runs of a tick at `block` and its announcement: runs every due
/// workflow in id order, each as a new execution without input, then
/// announces the counters when `block % 200 == 100`. When one of the runs
/// fails nothing changes.
fn run_due(state: &mut FlowState, block: u32) -> (r: Result<Vec<FlowAction>, FlowError>)
    requires
        old(state).wf(),
        old(state).next_exec_id + old(state).workflows@.len() < u64::MAX,
    ensures
        final(state).wf(),
        ({
            let cache = cache_view(old(state).cached_bridge_data);
            let d = due_positions(old(state).workflows@, cache, block);
            match tick_runs(cache, old(state).workflows@, d, old(state).next_exec_id, block) {
                Err(e) => r == Err::<Vec<FlowAction>, FlowError>(e) && *final(state) == *old(state),
                Ok(rs) => r matches Ok(acts) && fulfils_all(acts@, tick_plans(rs, *final(state), block), *old(state))
                    && runs_recorded(*old(state), *final(state), d, rs, block),
            }
        }),
{
    let ghost s0 = *state;
    let ghost ws = state.workflows@;
    let ghost es = state.executions@;
    let ghost cache = cache_view(state.cached_bridge_data);
    let ghost d = due_positions(ws, cache, block);
    let ghost next = state.next_exec_id;
    proof {
        lemma_due_positions(ws, cache, block);
    }
    let pos = due_workflows(state, block);
    // Every run must succeed before anything changes.
    let mut k: usize = 0;
    while k < pos.len()
        invariant
            k <= pos@.len(),
            pos@.len() == d.len(),
            forall|j: int| 0 <= j < pos@.len() ==> #[trigger] pos@[j] as int == d[j],
            lists_due(ws, d, cache, block),
            *state == s0,
            s0 == *old(state),
            d == due_positions(ws, cache, block),
            s0.wf(),
            ws == s0.workflows@,
            cache == cache_view(s0.cached_bridge_data),
            next == s0.next_exec_id,
            s0.next_exec_id + ws.len() < u64::MAX,
            tick_runs(cache, ws, d.take(k as int), next, block) is Ok,
        decreases pos@.len() - k,
    {
        let p = pos[k];
        assert(pos@[k as int] as int == d[k as int]);
        assert(d.take(k + 1).drop_last() =~= d.take(k as int));
        assert(d.take(k + 1).last() == d[k as int]);
        if state.workflows[p].steps.len() == 0 {
            proof {
                lemma_tick_runs_err(cache, ws, d, next, block, k + 1, FlowError::NoSteps);
            }
            return Err(FlowError::NoSteps);
        }
        let empty: StrMap<String> = StrMap::new();
        assert(empty@ =~= Seq::<(Seq<char>, String)>::empty());
        let exec_id = state.next_exec_id + k as u64;
        let res = run_step(state, &state.cached_bridge_data, &empty, exec_id, &state.workflows[p].steps[0], block);
        if let Err(e) = res {
            proof {
                assert(workflow_run(cache, ws[d[k as int]], Seq::empty(), exec_id, block) == Err::<(Seq<Planned>, bool), FlowError>(e));
                assert(tick_runs(cache, ws, d.take(k + 1), next, block) == Err::<Seq<(Seq<Planned>, bool)>, FlowError>(e));
                lemma_tick_runs_err(cache, ws, d, next, block, k + 1, e);
            }
            return Err(e);
        }
        k = k + 1;
    }
    assert(d.take(k as int) =~= d);
    let ghost rs = tick_runs(cache, ws, d, next, block)->Ok_0;
    proof {
        lemma_tick_runs_ok(cache, ws, d, next, block);
        assert(rs.take(0) =~= Seq::<(Seq<Planned>, bool)>::empty());
    }
    // Record the runs.
    let mut acts: Vec<FlowAction> = Vec::new();
    let mut k: usize = 0;
    while k < pos.len()
        invariant
            k <= pos@.len(),
            pos@.len() == d.len(),
            forall|j: int| 0 <= j < pos@.len() ==> #[trigger] pos@[j] as int == d[j],
            lists_due(ws, d, cache, block),
            rs.len() == d.len(),
            forall|j: int| 0 <= j < d.len() ==> workflow_run(cache, #[trigger] ws[d[j]], Seq::empty(), (next + j) as u64, block) == Ok::<(Seq<Planned>, bool), FlowError>(rs[j]),
            ws == s0.workflows@,
            es == s0.executions@,
            next == s0.next_exec_id,
            cache == cache_view(s0.cached_bridge_data),
            s0.next_exec_id + ws.len() < u64::MAX,
            s0.wf(),
            state.wf(),
            *state == (FlowState {
                workflows: state.workflows,
                executions: state.executions,
                next_exec_id: (next + k) as u64,
                execution_count: (s0.execution_count + k) as u64,
                ..s0
            }),
            state.workflows@.len() == ws.len(),
            forall|i: int| 0 <= i < ws.len() ==> #[trigger] state.workflows@[i] == if (exists|j: int| 0 <= j < k && d[j] == i) {
                run_recorded(ws[i], block)
            } else {
                ws[i]
            },
            state.executions@.len() == es.len() + k,
            forall|j: int| 0 <= j < es.len() ==> #[trigger] state.executions@[j] == es[j],
            forall|j: int| 0 <= j < k ==> new_execution(
                #[trigger] state.executions@[es.len() + j],
                (next + j) as u64,
                ws[d[j]].id,
                block,
                rs[j].1,
            ) && state.executions@[es.len() + j].data@.len() == 0,
            fulfils_all(acts@, all_plans(rs.take(k as int)), s0),
        decreases pos@.len() - k,
    {
        let p = pos[k];
        let ghost before = *state;
        let ghost kk = k as int;
        proof {
            assert(pos@[kk] as int == d[kk]);
            assert(!(exists|j: int| 0 <= j < kk && d[j] == p as int)) by {
                if exists|j: int| 0 <= j < kk && d[j] == p as int {
                    let j = choose|j: int| 0 <= j < kk && d[j] == p as int;
                    assert(d[j] < d[kk]);
                }
            }
            assert(state.workflows@[p as int] == ws[p as int]);
        }
        let id = state.workflows[p].id;
        proof {
            assert forall|j: int| 0 <= j < p as int implies (#[trigger] state.workflows@[j]).id != id by {
                assert(state.workflows@[j].id < state.workflows@[p as int].id);
            }
            lemma_wf_pos(state.workflows@, id, p as int);
            assert(input_data(None) =~= Seq::<(Seq<char>, String)>::empty());
            assert(workflow_run(cache, ws[d[kk]], Seq::empty(), (next + kk) as u64, block) == Ok::<(Seq<Planned>, bool), FlowError>(rs[kk]));
        }
        let res = execute_workflow(state, id, None, block);
        match res {
            Ok(mut a) => {
                proof {
                    lemma_fulfils_same_peers(a@, rs[kk].0, before, s0);
                    lemma_fulfils_append(acts@, all_plans(rs.take(kk)), a@, rs[kk].0, s0);
                    assert(rs.take(kk + 1).drop_last() =~= rs.take(kk));
                    assert(rs.take(kk + 1).last() == rs[kk]);
                }
                acts.append(&mut a);
            },
            Err(e) => {
                return Err(e);
            },
        }
        proof {
            assert forall|i: int| 0 <= i < ws.len() implies #[trigger] state.workflows@[i] == if (exists|j: int| 0 <= j < kk + 1 && d[j] == i) {
                run_recorded(ws[i], block)
            } else {
                ws[i]
            } by {
                if i == p as int {
                    assert(d[kk] == i);
                } else {
                    assert(state.workflows@[i] == before.workflows@[i]);
                    if exists|j: int| 0 <= j < kk + 1 && d[j] == i {
                        let j = choose|j: int| 0 <= j < kk + 1 && d[j] == i;
                        assert(j < kk);
                    }
                }
            }
            assert forall|j: int| 0 <= j < es.len() implies #[trigger] state.executions@[j] == es[j] by {
                assert(state.executions@.drop_last()[j] == before.executions@[j]);
            }
            assert forall|j: int| 0 <= j < kk + 1 implies new_execution(
                #[trigger] state.executions@[es.len() + j],
                (next + j) as u64,
                ws[d[j]].id,
                block,
                rs[j].1,
            ) && state.executions@[es.len() + j].data@.len() == 0 by {
                if j < kk {
                    assert(state.executions@.drop_last()[es.len() + j] == before.executions@[es.len() + j]);
                }
            }
        }
        k = k + 1;
    }
    assert(rs.take(k as int) =~= rs);
    proof {
        assert forall|i: int| 0 <= i < ws.len() implies (exists|j: int| 0 <= j < k && d[j] == i) == d.contains(i) by {
            if d.contains(i) {
                let j = choose|j: int| 0 <= j < d.len() && d[j] == i;
                assert(0 <= j < k && d[j] == i);
            }
        }
    }
    if block % 200 == 100 {
        let mut b = do_broadcast(state, block);
        proof {
            lemma_fulfils_same_peers(b@, flow_posts(flow_body(*state, block)), *state, s0);
            lemma_fulfils_append(acts@, all_plans(rs), b@, flow_posts(flow_body(*state, block)), s0);
        }
        acts.append(&mut b);
    } else {
        assert(all_plans(rs) + Seq::<Planned>::empty() =~= all_plans(rs));
    }
    Ok(acts)
}

proof fn lemma_fulfils_append(a1: Seq<FlowAction>, p1: Seq<Planned>, a2: Seq<FlowAction>, p2: Seq<Planned>, s: FlowState)
    requires
        fulfils_all(a1, p1, s),
        fulfils_all(a2, p2, s),
    ensures
        fulfils_all(a1 + a2, p1 + p2, s),
{
    assert forall|i: int| 0 <= i < (a1 + a2).len() implies fulfils(#[trigger] (a1 + a2)[i], (p1 + p2)[i], s) by {
        if i < a1.len() {
            assert(fulfils(a1[i], p1[i], s));
        } else {
            assert(fulfils(a2[i - a1.len()], p2[i - a1.len()], s));
        }
    }
}

/// Whether a message fulfils a plan depends only on the addresses of the
/// oracle, the pulse agent and the hub.
proof fn lemma_fulfils_same_peers(a: Seq<FlowAction>, p: Seq<Planned>, s1: FlowState, s2: FlowState)
    requires
        fulfils_all(a, p, s1),
        s1.network_pid == s2.network_pid,
        s1.bridge_pid == s2.bridge_pid,
        s1.pulse_pid == s2.pulse_pid,
    ensures
        fulfils_all(a, p, s2),
{
    assert forall|i: int| 0 <= i < a.len() implies fulfils(#[trigger] a[i], p[i], s2) by {
        assert(fulfils(a[i], p[i], s1));
    }
}

} // verus!
