use vstd::prelude::*;

use crate::pulse::service::VaraPulseService;
use crate::pulse::state::{AgentRecord, DataSnapshot, DataView, PulseState};
use crate::pulse::templates::short_gas_label;
use crate::text::{decimal, u64_text};
use vstd::wrapping::u32_specs;

verus! {

/// The agents whose nudge cooldown has passed at `block`, in catalog order
/// (the sum of the last nudge and the cooldown wraps as the program is
/// built).
pub open spec fn eligible(agents: Seq<AgentRecord>, block: u32, cooldown: u32) -> Seq<AgentRecord>
    decreases agents.len(),
{
    if agents.len() == 0 {
        Seq::empty()
    } else {
        let prev = eligible(agents.drop_last(), block, cooldown);
        if block > u32_specs::wrapping_add(agents.last().last_nudged_block, cooldown) {
            prev.push(agents.last())
        } else {
            prev
        }
    }
}

/// The agents a pulse at `block` nudges: the first eligible ones, at most
/// `max_nudges_per_pulse`.
pub open spec fn nudge_targets(s: PulseState, block: u32) -> Seq<AgentRecord> {
    let e = eligible(s.known_agents@, block, s.nudge_cooldown_blocks);
    if e.len() > s.max_nudges_per_pulse {
        e.take(s.max_nudges_per_pulse as int)
    } else {
        e
    }
}

/// The agent at position `i` is nudged by a pulse at `block`: its cooldown
/// has passed, and fewer than `max` agents before it are eligible.
pub open spec fn nudged_at(agents: Seq<AgentRecord>, i: int, block: u32, cooldown: u32, max: u32) -> bool {
    &&& block > u32_specs::wrapping_add(agents[i].last_nudged_block, cooldown)
    &&& eligible(agents.take(i), block, cooldown).len() < max
}

/// The catalog after a pulse at `block`: each agent it nudges has its last
/// nudge set to `block`.
pub open spec fn stamped(agents: Seq<AgentRecord>, block: u32, cooldown: u32, max: u32) -> Seq<AgentRecord> {
    Seq::new(
        agents.len(),
        |i: int|
            if nudged_at(agents, i, block, cooldown, max) {
                AgentRecord { last_nudged_block: block, ..agents[i] }
            } else {
                agents[i]
            },
    )
}

/// An agent past its cooldown comes in the eligible list right after the
/// eligible agents before it.
proof fn lemma_eligible_at(agents: Seq<AgentRecord>, i: int, block: u32, cooldown: u32)
    requires
        0 <= i < agents.len(),
        block > u32_specs::wrapping_add(agents[i].last_nudged_block, cooldown),
    ensures
        eligible(agents.take(i), block, cooldown).len() < eligible(agents, block, cooldown).len(),
        eligible(agents, block, cooldown)[eligible(agents.take(i), block, cooldown).len() as int]
            == agents[i],
    decreases agents.len(),
{
    let init = agents.drop_last();
    let n = agents.len() - 1;
    let ei = eligible(init, block, cooldown);
    assert(agents.take(n) =~= init);
    if i < n {
        lemma_eligible_at(init, i, block, cooldown);
        assert(agents.take(i) =~= init.take(i));
        assert(init[i] == agents[i]);
        let c = eligible(init.take(i), block, cooldown).len() as int;
        assert(eligible(agents, block, cooldown)[c] == ei[c]);
    }
}

/// Each eligible agent is the agent at some position past its cooldown,
/// with as many eligible agents before it as its place in the list.
proof fn lemma_eligible_source(agents: Seq<AgentRecord>, k: int, block: u32, cooldown: u32) -> (i: int)
    requires
        0 <= k < eligible(agents, block, cooldown).len(),
    ensures
        0 <= i < agents.len(),
        block > u32_specs::wrapping_add(agents[i].last_nudged_block, cooldown),
        eligible(agents.take(i), block, cooldown).len() == k,
        eligible(agents, block, cooldown)[k] == agents[i],
    decreases agents.len(),
{
    let init = agents.drop_last();
    let n = agents.len() - 1;
    let ei = eligible(init, block, cooldown);
    assert(agents.take(n) =~= init);
    if k < ei.len() {
        let i = lemma_eligible_source(init, k, block, cooldown);
        assert(agents.take(i) =~= init.take(i));
        assert(agents[i] == init[i]);
        assert(eligible(agents, block, cooldown)[k] == ei[k]);
        i
    } else {
        n
    }
}

/// Each agent that a pulse stamps is one it nudges: the agent at position `i`
/// is the target numbered by the eligible agents before it.
pub proof fn lemma_nudged_is_target(s: PulseState, block: u32, i: int)
    requires
        0 <= i < s.known_agents@.len(),
        nudged_at(s.known_agents@, i, block, s.nudge_cooldown_blocks, s.max_nudges_per_pulse),
    ensures
        eligible(s.known_agents@.take(i), block, s.nudge_cooldown_blocks).len() < nudge_targets(s, block).len(),
        nudge_targets(s, block)[eligible(s.known_agents@.take(i), block, s.nudge_cooldown_blocks).len() as int]
            == s.known_agents@[i],
{
    lemma_eligible_at(s.known_agents@, i, block, s.nudge_cooldown_blocks);
}

/// Each agent that a pulse nudges is one it stamps: the `k`-th target is the
/// agent at a position `i` that the pulse stamps, with `k` eligible agents
/// before it.
pub proof fn lemma_target_is_nudged(s: PulseState, block: u32, k: int) -> (i: int)
    requires
        0 <= k < nudge_targets(s, block).len(),
    ensures
        0 <= i < s.known_agents@.len(),
        nudged_at(s.known_agents@, i, block, s.nudge_cooldown_blocks, s.max_nudges_per_pulse),
        eligible(s.known_agents@.take(i), block, s.nudge_cooldown_blocks).len() == k,
        nudge_targets(s, block)[k] == s.known_agents@[i],
{
    let e = eligible(s.known_agents@, block, s.nudge_cooldown_blocks);
    assert(nudge_targets(s, block)[k] == e[k]);
    lemma_eligible_source(s.known_agents@, k, block, s.nudge_cooldown_blocks)
}

/// The cooldown holds between pulses: an agent that a pulse at `b1` nudges
/// is not nudged again by a pulse at any `b2` up to `cooldown` blocks later
/// (where `b1 + cooldown` fits in a `u32`; past it the sum wraps as the
/// program is built).
pub proof fn lemma_nudge_cooldown(
    agents: Seq<AgentRecord>,
    i: int,
    b1: u32,
    b2: u32,
    cooldown: u32,
    max1: u32,
    max2: u32,
)
    requires
        0 <= i < agents.len(),
        nudged_at(agents, i, b1, cooldown, max1),
        b1 + cooldown <= u32::MAX,
        b2 <= b1 + cooldown,
    ensures
        stamped(agents, b1, cooldown, max1)[i].last_nudged_block == b1,
        !nudged_at(stamped(agents, b1, cooldown, max1), i, b2, cooldown, max2),
{
}

/// The nudge to the agent with `handle`.
pub open spec fn nudge_text(d: DataView, handle: Seq<char>) -> Seq<char> {
    "Hey @"@ + handle + " - VaraBridge just updated - ETH at $"@ + decimal((d.eth_usd / 1_000_000) as nat)
        + ", gas is "@ + short_gas_label(d.gas_micro)
        + ".\nPerfect time to run your workflow or try VaraFlow's free automation. One message gets you live data for anything you're building. - VaraPulse"@
}

/// Every eligible agent is a known agent past its cooldown.
proof fn lemma_eligible(agents: Seq<AgentRecord>, block: u32, cooldown: u32)
    ensures
        eligible(agents, block, cooldown).len() <= agents.len(),
        forall|i: int| 0 <= i < eligible(agents, block, cooldown).len() ==> {
            let a = #[trigger] eligible(agents, block, cooldown)[i];
            &&& agents.contains(a)
            &&& block > u32_specs::wrapping_add(a.last_nudged_block, cooldown)
        },
    decreases agents.len(),
{
    if agents.len() > 0 {
        let prev = agents.drop_last();
        lemma_eligible(prev, block, cooldown);
        let e = eligible(agents, block, cooldown);
        let ep = eligible(prev, block, cooldown);
        assert forall|i: int| 0 <= i < e.len() implies agents.contains(#[trigger] e[i]) by {
            if i < ep.len() {
                assert(prev.contains(ep[i]));
                let j = choose|j: int| 0 <= j < prev.len() && prev[j] == ep[i];
                assert(agents[j] == prev[j]);
            } else {
                assert(agents[agents.len() - 1] == e[i]);
            }
        }
    }
}

/// A pulse nudges at most `max_nudges_per_pulse` agents, each a known agent
/// whose cooldown has passed.
pub proof fn lemma_nudge_targets(s: PulseState, block: u32)
    ensures
        nudge_targets(s, block).len() <= s.max_nudges_per_pulse,
        forall|i: int| 0 <= i < nudge_targets(s, block).len() ==> {
            let a = #[trigger] nudge_targets(s, block)[i];
            &&& s.known_agents@.contains(a)
            &&& block > u32_specs::wrapping_add(a.last_nudged_block, s.nudge_cooldown_blocks)
        },
{
    let e = eligible(s.known_agents@, block, s.nudge_cooldown_blocks);
    lemma_eligible(s.known_agents@, block, s.nudge_cooldown_blocks);
    let t = nudge_targets(s, block);
    assert forall|i: int| 0 <= i < t.len() implies #[trigger] t[i] == e[i] by {}
}

impl VaraPulseService {
    /// The agents to nudge at `block`.
    pub fn select_nudge_targets(&self, block: u32) -> (r: Vec<AgentRecord>)
        ensures
            r@ == nudge_targets(self.state, block),
    {
        let ghost agents = self.state.known_agents@;
        let cooldown = self.state.nudge_cooldown_blocks;
        let max = self.state.max_nudges_per_pulse as usize;
        let mut c: Vec<AgentRecord> = Vec::new();
        let mut i: usize = 0;
        while i < self.state.known_agents.len()
            invariant
                agents == self.state.known_agents@,
                cooldown == self.state.nudge_cooldown_blocks,
                i <= agents.len(),
                c@ == eligible(agents.take(i as int), block, cooldown),
            decreases agents.len() - i,
        {
            let a = &self.state.known_agents[i];
            assert(agents.take(i + 1).drop_last() =~= agents.take(i as int));
            assert(agents.take(i + 1).last() == agents[i as int]);
            if block > a.last_nudged_block.wrapping_add(cooldown) {
                c.push(a.clone());
            }
            i = i + 1;
        }
        assert(agents.take(i as int) =~= agents);
        c.truncate(max);
        c
    }

    /// Sets the last nudge of each agent that a pulse at `block` nudges to
    /// `block`.
    pub fn stamp_nudged(&mut self, block: u32)
        ensures
            final(self).state == (PulseState { known_agents: final(self).state.known_agents, ..old(self).state }),
            final(self).state.known_agents@ == stamped(
                old(self).state.known_agents@,
                block,
                old(self).state.nudge_cooldown_blocks,
                old(self).state.max_nudges_per_pulse,
            ),
    {
        let ghost s0 = self.state;
        let ghost agents = self.state.known_agents@;
        let cooldown = self.state.nudge_cooldown_blocks;
        let max = self.state.max_nudges_per_pulse;
        let ghost st = stamped(agents, block, cooldown, max);
        let mut cnt: usize = 0;
        let mut i: usize = 0;
        proof {
            lemma_eligible(agents.take(0), block, cooldown);
        }
        while i < self.state.known_agents.len()
            invariant
                agents == s0.known_agents@,
                cooldown == s0.nudge_cooldown_blocks,
                max == s0.max_nudges_per_pulse,
                st == stamped(agents, block, cooldown, max),
                self.state == (PulseState { known_agents: self.state.known_agents, ..s0 }),
                self.state.known_agents@.len() == agents.len(),
                i <= agents.len(),
                cnt <= i,
                cnt == eligible(agents.take(i as int), block, cooldown).len(),
                forall|k: int| 0 <= k < i ==> #[trigger] self.state.known_agents@[k] == st[k],
                forall|k: int| i <= k < agents.len() ==> #[trigger] self.state.known_agents@[k] == agents[k],
            decreases agents.len() - i,
        {
            let ghost ii = i as int;
            let ghost cur = self.state.known_agents@;
            assert(agents.take(ii + 1).drop_last() =~= agents.take(ii));
            assert(agents.take(ii + 1).last() == agents[ii]);
            assert(cur[ii] == agents[ii]);
            if block > self.state.known_agents[i].last_nudged_block.wrapping_add(cooldown) {
                if (cnt as u64) < (max as u64) {
                    let mut a = self.state.known_agents.remove(i);
                    a.last_nudged_block = block;
                    self.state.known_agents.insert(i, a);
                    assert(self.state.known_agents@ =~= cur.update(ii, st[ii]));
                }
                cnt = cnt + 1;
            }
            assert(self.state.known_agents@ =~= cur.update(ii, st[ii]));
            i = i + 1;
        }
        assert(self.state.known_agents@ =~= st);
    }

    /// The agents to nudge at `block`; the data does not change the choice.
    pub fn select_nudge_targets_with_data(&self, _data: &DataSnapshot, block: u32) -> (r: Vec<AgentRecord>)
        ensures
            r@ == nudge_targets(self.state, block),
    {
        self.select_nudge_targets(block)
    }

    /// The nudge to `agent`, with ETH's whole-dollar price and the gas level.
    pub fn generate_nudge(&self, data: &DataSnapshot, agent: &AgentRecord) -> (r: String)
        ensures
            r@ == nudge_text(data@, agent.handle@),
    {
        let mut s = "Hey @".to_owned();
        s.append(agent.handle.as_str());
        s.append(" - VaraBridge just updated - ETH at $");
        s.append(u64_text(data.eth_usd / 1_000_000).as_str());
        s.append(", gas is ");
        s.append(Self::gas_label_static(data.gas_micro));
        s.append(
            ".\nPerfect time to run your workflow or try VaraFlow's free automation. One message gets you live data for anything you're building. - VaraPulse",
        );
        s
    }

    fn gas_label_static(gas_micro: u64) -> (r: &'static str)
        ensures
            r@ == short_gas_label(gas_micro),
    {
        if gas_micro < 100_000 {
            "ULTRA LOW"
        } else if gas_micro < 500_000 {
            "LOW"
        } else if gas_micro < 1_000_000 {
            "MODERATE"
        } else if gas_micro < 5_000_000 {
            "HIGH"
        } else {
            "VERY HIGH"
        }
    }
}

} // verus!
