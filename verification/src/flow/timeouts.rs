use vstd::prelude::*;

use crate::flow::state::{ExecutionContext, ExecutionStatus, FlowState, PendingStep};
use crate::flow::executor::{lemma_pending_pos, lemma_pending_pos_found, pending_pos};
use crate::ids::MessageId;

verus! {

/// A step that waits for the oracle is past its deadline at `block`: its
/// reply did not come within the step's `timeout_blocks`.
pub open spec fn expired(p: PendingStep, block: u32) -> bool {
    p.timeout_block < block
}

/// The waiting steps still within their deadline at `block`, in order.
pub open spec fn in_time(ps: Seq<(MessageId, PendingStep)>, block: u32) -> Seq<(MessageId, PendingStep)>
    decreases ps.len(),
{
    if ps.len() == 0 {
        ps
    } else if expired(ps.last().1, block) {
        in_time(ps.drop_last(), block)
    } else {
        in_time(ps.drop_last(), block).push(ps.last())
    }
}

/// Execution `k`, one of the first `limit`, has a step past its deadline at
/// `block`.
pub open spec fn timed_out_at(ps: Seq<(MessageId, PendingStep)>, k: int, limit: int, block: u32) -> bool {
    &&& k < limit
    &&& exists|i: int| 0 <= i < ps.len() && (#[trigger] ps[i]).1.exec_id == k && expired(ps[i].1, block)
}

/// The execution, timed out.
pub open spec fn timed_out(e: ExecutionContext) -> ExecutionContext {
    ExecutionContext { status: ExecutionStatus::TimedOut, ..e }
}

/// The executions once each of the first `limit` with a step past its
/// deadline has timed out.
pub open spec fn swept(es: Seq<ExecutionContext>, ps: Seq<(MessageId, PendingStep)>, limit: int, block: u32) -> Seq<ExecutionContext> {
    Seq::new(
        es.len(),
        |k: int|
            if timed_out_at(ps, k, limit, block) {
                timed_out(es[k])
            } else {
                es[k]
            },
    )
}

/// Each step still waiting is one of the steps before, within its deadline.
proof fn lemma_in_time_members(ps: Seq<(MessageId, PendingStep)>, block: u32, k: int) -> (j: int)
    requires
        0 <= k < in_time(ps, block).len(),
    ensures
        0 <= j < ps.len(),
        in_time(ps, block)[k] == ps[j],
        !expired(ps[j].1, block),
    decreases ps.len(),
{
    let init = ps.drop_last();
    if k < in_time(init, block).len() {
        let j = lemma_in_time_members(init, block, k);
        assert(ps[j] == init[j]);
        j
    } else {
        (ps.len() - 1) as int
    }
}

/// The steps kept are exactly those within their deadline: none kept is
/// past it, and every step within it is kept.
pub proof fn lemma_in_time(ps: Seq<(MessageId, PendingStep)>, block: u32)
    ensures
        forall|k: int| 0 <= k < in_time(ps, block).len() ==> !expired(#[trigger] in_time(ps, block)[k].1, block),
        forall|i: int| 0 <= i < ps.len() && !expired((#[trigger] ps[i]).1, block) ==> in_time(ps, block).contains(ps[i]),
    decreases ps.len(),
{
    assert forall|k: int| 0 <= k < in_time(ps, block).len() implies !expired(#[trigger] in_time(ps, block)[k].1, block) by {
        let j = lemma_in_time_members(ps, block, k);
    }
    if ps.len() > 0 {
        let init = ps.drop_last();
        lemma_in_time(init, block);
        assert forall|i: int| 0 <= i < ps.len() && !expired((#[trigger] ps[i]).1, block) implies in_time(ps, block).contains(ps[i]) by {
            if i < init.len() {
                assert(init[i] == ps[i]);
                assert(in_time(init, block).contains(init[i]));
                let w = choose|w: int| 0 <= w < in_time(init, block).len() && in_time(init, block)[w] == init[i];
                assert(in_time(ps, block)[w] == ps[i]);
            } else {
                assert(ps[i] == ps.last());
                assert(in_time(ps, block)[in_time(init, block).len() as int] == ps[i]);
            }
        }
    }
}

/// A step skipped for its deadline takes no reply: in a valid state, once a
/// tick at `block` has dropped the step waiting on `msg_id` past its
/// deadline, no step waits on `msg_id`, so a late reply changes nothing.
pub proof fn lemma_late_reply_ignored(s: FlowState, msg_id: MessageId, block: u32)
    requires
        s.wf(),
        pending_pos(s.pending_replies@, msg_id) >= 0,
        expired(s.pending_replies@[pending_pos(s.pending_replies@, msg_id)].1, block),
    ensures
        pending_pos(in_time(s.pending_replies@, block), msg_id) == -1,
{
    let ps = s.pending_replies@;
    let p = pending_pos(ps, msg_id);
    lemma_pending_pos_found(ps, msg_id);
    let kept = in_time(ps, block);
    assert forall|k: int| 0 <= k < kept.len() implies (#[trigger] kept[k]).0 != msg_id by {
        let j = lemma_in_time_members(ps, block, k);
        if j != p {
            if j < p {
                assert(ps[j].0 != ps[p].0);
            } else {
                assert(ps[p].0 != ps[j].0);
            }
        }
    }
    lemma_pending_pos(kept, msg_id, kept.len() as int);
}

/// Skips every step whose reply did not come in time: drops the steps that
/// wait past their deadline at `block`, and marks their executions (those
/// among the first `limit`) timed out.
pub fn expire_pending(state: &mut FlowState, block: u32, limit: u64)
    requires
        old(state).wf(),
    ensures
        final(state).wf(),
        *final(state) == (FlowState {
            executions: final(state).executions,
            pending_replies: final(state).pending_replies,
            ..*old(state)
        }),
        final(state).pending_replies@ == in_time(old(state).pending_replies@, block),
        final(state).executions@ == swept(old(state).executions@, old(state).pending_replies@, limit as int, block),
{
    let ghost ps = state.pending_replies@;
    let ghost es = state.executions@;
    let ghost s0 = *state;
    let n = state.pending_replies.len();
    let mut j: usize = 0;
    let mut i: usize = 0;
    assert(ps.take(0) =~= Seq::<(MessageId, PendingStep)>::empty());
    assert(ps.skip(0) =~= ps);
    assert(state.executions@ =~= swept(es, ps.take(0), limit as int, block));
    while j < n
        invariant
            n == ps.len(),
            i <= j <= n,
            s0 == *old(state),
            s0.wf(),
            ps == s0.pending_replies@,
            es == s0.executions@,
            *state == (FlowState {
                executions: state.executions,
                pending_replies: state.pending_replies,
                ..s0
            }),
            state.pending_replies@ == in_time(ps.take(j as int), block) + ps.skip(j as int),
            i == in_time(ps.take(j as int), block).len(),
            state.executions@ == swept(es, ps.take(j as int), limit as int, block),
            forall|a: int, b: int|
                0 <= a < b < state.pending_replies@.len() ==> (#[trigger] state.pending_replies@[a]).0
                    != (#[trigger] state.pending_replies@[b]).0,
        decreases n - j,
    {
        let ghost cur = state.pending_replies@;
        let ghost jj = j as int;
        let ghost before = in_time(ps.take(jj), block);
        assert(cur[i as int] == ps.skip(jj)[0]);
        assert(ps.take(jj + 1).drop_last() =~= ps.take(jj));
        assert(ps.take(jj + 1).last() == ps[jj]);
        assert(ps.skip(jj)[0] == ps[jj]);
        assert(ps.skip(jj + 1) =~= ps.skip(jj).drop_first());
        let ghost e0 = ps[jj].1.exec_id;
        assert forall|k: int|
            #![trigger timed_out_at(ps.take(jj + 1), k, limit as int, block)]
            timed_out_at(ps.take(jj + 1), k, limit as int, block) == (timed_out_at(
                ps.take(jj),
                k,
                limit as int,
                block,
            ) || (k < limit && k == e0 && expired(ps[jj].1, block))) by {
            if timed_out_at(ps.take(jj), k, limit as int, block) {
                let w = choose|w: int|
                    0 <= w < ps.take(jj).len() && (#[trigger] ps.take(jj)[w]).1.exec_id == k && expired(
                        ps.take(jj)[w].1,
                        block,
                    );
                assert(ps.take(jj + 1)[w] == ps.take(jj)[w]);
            }
            if k < limit && k == e0 && expired(ps[jj].1, block) {
                assert(ps.take(jj + 1)[jj] == ps[jj]);
            }
            if timed_out_at(ps.take(jj + 1), k, limit as int, block) {
                let w = choose|w: int|
                    0 <= w < ps.take(jj + 1).len() && (#[trigger] ps.take(jj + 1)[w]).1.exec_id == k
                        && expired(ps.take(jj + 1)[w].1, block);
                if w < jj {
                    assert(ps.take(jj)[w] == ps.take(jj + 1)[w]);
                }
            }
        }
        if state.pending_replies[i].1.timeout_block < block {
            let e = state.pending_replies[i].1.exec_id;
            let ghost ex0 = state.executions@;
            if e < limit && e < state.executions.len() as u64 {
                let k = e as usize;
                let mut ctx = state.executions.remove(k);
                ctx.status = ExecutionStatus::TimedOut;
                state.executions.insert(k, ctx);
                assert(state.executions@ =~= ex0.update(k as int, timed_out(es[k as int])));
            }
            assert(state.executions@ =~= swept(es, ps.take(jj + 1), limit as int, block));
            state.pending_replies.remove(i);
            assert(state.pending_replies@ =~= before + ps.skip(jj + 1));
            assert forall|a: int, b: int|
                0 <= a < b < state.pending_replies@.len() implies (#[trigger] state.pending_replies@[a]).0
                    != (#[trigger] state.pending_replies@[b]).0 by {
                let a1 = if a < i { a } else { a + 1 };
                let b1 = if b < i { b } else { b + 1 };
                assert(state.pending_replies@[a] == cur[a1]);
                assert(state.pending_replies@[b] == cur[b1]);
            }
        } else {
            assert(state.executions@ =~= swept(es, ps.take(jj + 1), limit as int, block));
            assert(before.push(ps[jj]) + ps.skip(jj + 1) =~= before + ps.skip(jj));
            i = i + 1;
        }
        j = j + 1;
    }
    assert(ps.take(n as int) =~= ps);
    assert(ps.skip(n as int) =~= Seq::<(MessageId, PendingStep)>::empty());
    assert(state.pending_replies@ =~= in_time(ps, block));
    assert forall|k: int| 0 <= k < state.executions@.len() implies (#[trigger] state.executions@[k]).exec_id
        == k && state.executions@[k].data.wf() by {
        assert(es[k].exec_id == k);
    }
}

} // verus!
