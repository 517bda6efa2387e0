use vstd::prelude::*;
use vstd::string::StringSliceAdditionalSpecFns;

use crate::ids::{all_zero, ActorId};
use crate::pulse::broadcast::{post_to_board, post_to_chat, HubPost, GAS_FOR_POST};
use crate::pulse::generator::{pulse_text, pulse_type_for, reply_data, strategy_entries};
use crate::pulse::nudger::{nudge_targets, nudge_text, stamped};
use crate::pulse::state::{
    copy_record, record_eqv, AgentRecord, DataView, HubCmd, PulseConfig, PulseError, PulseRecord,
    PulseState, PulseStats, PulseType, QueryReply, QueryRequest, StrategyPriceEntry, MAX_HISTORY,
};
use crate::routes::{delayed_self_call, lemma_ascii_bytes, route, share_of_gas, SelfMessage};
use crate::text::scale_encoded;
use vstd::wrapping::u64_specs;

verus! {

/// The least gas a pulse run needs.
pub const MIN_RUN_GAS: u64 = 500_000_000;

/// Blocks between two pulse runs.
pub const RUN_DELAY: u32 = 300;

/// Gas attached to the call of the strategy engine.
pub const GAS_FOR_ANALYZE: u64 = 10_000_000;

/// Gas attached to the tick sent to the orchestrator.
pub const GAS_FOR_FLOW_TICK: u64 = 5_000_000;

/// The pulse agent program: its state behind its one service.
pub struct VaraPulseProgram {
    pub service: VaraPulseService,
}

/// The pulse agent's service; every method takes the caller and the block
/// height as the runtime reports them.
pub struct VaraPulseService {
    pub state: PulseState,
}

/// A message the pulse agent sends after a pulse.
pub enum PulseAction {
    /// A post to the hub.
    Post(HubPost),
    /// The strategy engine's `Analyze`: the route, then `entries` encoded.
    Analyze { to: ActorId, route: Vec<u8>, entries: Vec<StrategyPriceEntry>, gas_limit: u64 },
    /// A call with its whole payload.
    Call { to: ActorId, payload: Vec<u8>, gas_limit: u64 },
}

/// The query a run sends to the oracle: the route of its
/// `VaraBridge::QueryAndReply`, then `request` encoded; `reply_deposit` gas
/// is kept for the reply.
pub struct BridgeCall {
    pub to: ActorId,
    pub route: Vec<u8>,
    pub request: QueryRequest,
    pub gas_limit: u64,
    pub reply_deposit: u64,
}

/// Value sent from the program's balance.
pub struct ValueTransfer {
    pub to: ActorId,
    pub amount: u128,
}

/// `a` posts `body` to the Board of the hub at `to`.
pub open spec fn is_board_post(a: PulseAction, to: ActorId, body: Seq<char>) -> bool {
    a matches PulseAction::Post(p) && p.to == to && p.gas_limit == GAS_FOR_POST && (
    p.cmd matches HubCmd::PostAnnouncement { body: b } && b@ == body)
}

/// `a` posts `body` to the Chat of the hub at `to`, mentioning `mentions`.
pub open spec fn is_chat_post(a: PulseAction, to: ActorId, body: Seq<char>, mentions: Seq<Seq<char>>) -> bool {
    a matches PulseAction::Post(p) && p.to == to && p.gas_limit == GAS_FOR_POST && (
    p.cmd matches HubCmd::ChatPost { body: b, mentions: m } && b@ == body && m@.len()
        == mentions.len() && forall|i: int| 0 <= i < mentions.len() ==> (#[trigger] m@[i])@ == mentions[i])
}

/// `a` hands the prices of `reply` to the strategy engine at `to`.
pub open spec fn is_analyze_call(a: PulseAction, to: ActorId, reply: QueryReply) -> bool {
    a matches PulseAction::Analyze { to: t, route, entries, gas_limit } && t == to && route@
        == scale_encoded("VaraStrategy".spec_bytes()) + scale_encoded("Analyze".spec_bytes())
        && strategy_entries(entries@, reply) && gas_limit == GAS_FOR_ANALYZE
}

/// `a` is the tick sent to the orchestrator at `to`.
pub open spec fn is_flow_tick(a: PulseAction, to: ActorId) -> bool {
    a matches PulseAction::Call { to: t, payload, gas_limit } && t == to && payload@ == scale_encoded(
        "VaraFlow".spec_bytes(),
    ) + scale_encoded("Tick".spec_bytes()) && gas_limit == GAS_FOR_FLOW_TICK
}

/// The reply carries prices for the strategy engine.
pub open spec fn has_prices(reply: QueryReply) -> bool {
    reply matches QueryReply::All(s) && s.prices@.len() > 0
}

/// The messages of a pulse in state `s` at `block` after `reply`: the pulse
/// on the Board and in Chat, one Chat nudge per target, the prices to the
/// strategy engine (when there are prices and an engine is set), and a tick
/// to the orchestrator (when one is set).
pub open spec fn pulse_messages(acts: Seq<PulseAction>, s: PulseState, reply: QueryReply, block: u32) -> bool {
    let d = reply_data(reply, block);
    let body = pulse_text(d, pulse_type_for(s.total_pulses, d, block), u64_specs::wrapping_add(s.total_pulses, 1));
    let targets = nudge_targets(s, block);
    let m = targets.len() as int;
    let to_strategy = has_prices(reply) && !all_zero(s.strategy_pid.bytes);
    let to_flow = !all_zero(s.flow_pid.bytes);
    &&& acts.len() == 2 + m + (if to_strategy { 1int } else { 0int }) + (if to_flow { 1int } else { 0int })
    &&& is_board_post(acts[0], s.network_pid, body)
    &&& is_chat_post(acts[1], s.network_pid, body, Seq::empty())
    &&& forall|i: int| 0 <= i < m ==> is_chat_post(
        #[trigger] acts[2 + i],
        s.network_pid,
        nudge_text(d, targets[i].handle@),
        seq![targets[i].handle@],
    )
    &&& to_strategy ==> is_analyze_call(acts[2 + m], s.strategy_pid, reply)
    &&& to_flow ==> is_flow_tick(acts[acts.len() - 1], s.flow_pid)
}

/// `r` records pulse `id` of kind `t` with text `body`, written at `block`
/// from `d`, that nudged `targets`.
pub open spec fn records_pulse(
    r: PulseRecord,
    id: u64,
    block: u32,
    t: PulseType,
    body: Seq<char>,
    d: DataView,
    targets: Seq<AgentRecord>,
) -> bool {
    &&& r.pulse_id == id
    &&& r.block == block
    &&& r.pulse_type == t
    &&& r.body@ == body
    &&& r.data_snapshot@ == d
    &&& r.nudges_sent@.len() == targets.len()
    &&& forall|i: int| 0 <= i < targets.len() ==> #[trigger] r.nudges_sent@[i] == targets[i].handle
}

/// The state after a pulse in state `old` at `block` after `reply`: the pulse
/// recorded (the oldest dropped when the history is full) and counted, the
/// two posts and the nudges counted, each nudged agent stamped with the
/// block (see `stamped`), the block noted.
pub open spec fn pulse_recorded(old: PulseState, new: PulseState, reply: QueryReply, block: u32) -> bool {
    let d = reply_data(reply, block);
    let t = pulse_type_for(old.total_pulses, d, block);
    let body = pulse_text(d, t, u64_specs::wrapping_add(old.total_pulses, 1));
    let targets = nudge_targets(old, block);
    &&& new == (PulseState {
        pulse_history: new.pulse_history,
        known_agents: new.known_agents,
        total_pulses: u64_specs::wrapping_add(old.total_pulses, 1),
        total_nudges_sent: u64_specs::wrapping_add(old.total_nudges_sent, targets.len() as u64),
        total_board_posts: u64_specs::wrapping_add(u64_specs::wrapping_add(old.total_board_posts, 1), 1),
        last_pulse_block: block,
        ..old
    })
    &&& new.pulse_history@.len() > 0
    &&& new.pulse_history@.drop_last() == if old.pulse_history@.len() >= MAX_HISTORY {
        old.pulse_history@.drop_first()
    } else {
        old.pulse_history@
    }
    &&& records_pulse(new.pulse_history@.last(), old.total_pulses, block, t, body, d, targets)
    &&& new.known_agents@ == stamped(old.known_agents@, block, old.nudge_cooldown_blocks, old.max_nudges_per_pulse)
}

/// A pulse posts what it records and counts what it posts: the Board post
/// and the plain Chat post (both to the hub) carry the text the new history
/// entry keeps; after them comes one Chat post per nudged handle the entry
/// lists, each mentioning just that handle; the pulse and its two posts and
/// its nudges are counted; and the history keeps at most `MAX_HISTORY`
/// pulses, the new one last, numbered by the pulses before it.
pub proof fn lemma_pulse_posts_what_it_records(
    acts: Seq<PulseAction>,
    old: PulseState,
    new: PulseState,
    reply: QueryReply,
    block: u32,
)
    requires
        old.wf(),
        pulse_messages(acts, old, reply, block),
        pulse_recorded(old, new, reply, block),
    ensures
        ({
            let last = new.pulse_history@.last();
            let m = last.nudges_sent@.len();
            &&& acts.len() >= 2 + m
            &&& acts[0] matches PulseAction::Post(p) && p.to == old.network_pid && (p.cmd matches HubCmd::PostAnnouncement {
                body: b,
            } && b@ == last.body@)
            &&& acts[1] matches PulseAction::Post(p) && p.to == old.network_pid && (p.cmd matches HubCmd::ChatPost {
                body: b,
                mentions: mm,
            } && b@ == last.body@ && mm@.len() == 0)
            &&& forall|i: int|
                0 <= i < m ==> (#[trigger] acts[2 + i] matches PulseAction::Post(p) && p.to
                    == old.network_pid && (p.cmd matches HubCmd::ChatPost { mentions: mm, .. }
                    && mm@.len() == 1 && mm@[0]@ == last.nudges_sent@[i]@))
            &&& last.pulse_id == old.total_pulses
            &&& last.block == block
            &&& new.total_pulses == u64_specs::wrapping_add(old.total_pulses, 1)
            &&& new.total_nudges_sent == u64_specs::wrapping_add(old.total_nudges_sent, m as u64)
            &&& new.total_board_posts == u64_specs::wrapping_add(
                u64_specs::wrapping_add(old.total_board_posts, 1),
                1,
            )
            &&& new.last_pulse_block == block
            &&& new.pulse_history@.len() == if old.pulse_history@.len() >= MAX_HISTORY {
                MAX_HISTORY as int
            } else {
                old.pulse_history@.len() + 1int
            }
        }),
{
    let last = new.pulse_history@.last();
    let d = reply_data(reply, block);
    let targets = nudge_targets(old, block);
    assert forall|i: int| 0 <= i < targets.len() implies (#[trigger] acts[2 + i] matches PulseAction::Post(
        p,
    ) && p.to == old.network_pid && (p.cmd matches HubCmd::ChatPost { mentions: mm, .. }
        && mm@.len() == 1 && mm@[0]@ == last.nudges_sent@[i]@)) by {
        assert(is_chat_post(
            acts[2 + i],
            old.network_pid,
            nudge_text(d, targets[i].handle@),
            seq![targets[i].handle@],
        ));
        assert(last.nudges_sent@[i] == targets[i].handle);
    }
    assert(new.pulse_history@.len() == new.pulse_history@.drop_last().len() + 1);
}

/// `c` is the query a run with `gas_total` gas sends from state `s`.
pub open spec fn run_call(c: BridgeCall, s: PulseState, gas_total: u64) -> bool {
    &&& c.to == s.bridge_pid
    &&& c.route@ == scale_encoded("VaraBridge".spec_bytes()) + scale_encoded("QueryAndReply".spec_bytes())
    &&& c.request.query_type@ == "all"@
    &&& c.request.symbol is None
    &&& c.request.keys is None
    &&& c.gas_limit == u64_specs::wrapping_mul(gas_total, 60) / 100
    &&& c.reply_deposit == u64_specs::wrapping_mul(gas_total, 15) / 100
}

/// The reschedule of the pulse loop: `VaraPulse::Run` on the agent itself,
/// `RUN_DELAY` blocks later, with four fifths of the gas that is left.
pub fn run_message(gas_available: u64) -> (r: SelfMessage)
    ensures
        r.payload@ == scale_encoded("VaraPulse".spec_bytes()) + scale_encoded("Run".spec_bytes()),
        r.gas_limit == u64_specs::wrapping_mul(gas_available, 80) / 100,
        r.delay == RUN_DELAY,
{
    proof {
        reveal_strlit("VaraPulse");
        reveal_strlit("Run");
        lemma_ascii_bytes("VaraPulse");
        lemma_ascii_bytes("Run");
    }
    delayed_self_call("VaraPulse", "Run", gas_available, RUN_DELAY)
}

impl VaraPulseProgram {
    /// A fresh pulse agent owned by `owner` (the account that creates it),
    /// with the default settings.
    pub fn new(owner: ActorId, bridge_pid: ActorId, flow_pid: ActorId, network_pid: ActorId, strategy_pid: ActorId) -> (r: Self)
        ensures
            r.service.state.wf(),
            r.service.state.owner == owner,
            r.service.state.bridge_pid == bridge_pid,
            r.service.state.flow_pid == flow_pid,
            r.service.state.network_pid == network_pid,
            r.service.state.strategy_pid == strategy_pid,
            r.service.state.pulse_history@.len() == 0,
            r.service.state.known_agents@.len() == 0,
            r.service.state.last_catalog_refresh_block == 0,
            r.service.state.pulse_interval_blocks == 300,
            r.service.state.max_nudges_per_pulse == 3,
            r.service.state.nudge_cooldown_blocks == 3000,
            r.service.state.total_pulses == 0,
            r.service.state.total_nudges_sent == 0,
            r.service.state.total_board_posts == 0,
            r.service.state.last_pulse_block == 0,
    {
        let mut state = PulseState::default();
        state.bridge_pid = bridge_pid;
        state.flow_pid = flow_pid;
        state.network_pid = network_pid;
        state.strategy_pid = strategy_pid;
        state.owner = owner;
        VaraPulseProgram { service: VaraPulseService { state } }
    }

    /// The service of the program.
    pub fn vara_pulse(&mut self) -> (r: &mut VaraPulseService)
        ensures
            *r == old(self).service,
            final(self).service == *final(r),
    {
        &mut self.service
    }

    /// The oracle's reply to a run, at `block`: an error reply is ignored;
    /// any other makes a pulse.
    pub fn handle_bridge_reply(&mut self, reply: QueryReply, block: u32) -> (r: Vec<PulseAction>)
        requires
            old(self).service.state.wf(),
        ensures
            final(self).service.state.wf(),
            reply is Error ==> r@.len() == 0 && final(self).service.state == old(self).service.state,
            !(reply is Error) ==> pulse_messages(r@, old(self).service.state, reply, block)
                && pulse_recorded(old(self).service.state, final(self).service.state, reply, block),
    {
        if let QueryReply::Error(_) = &reply {
            return Vec::new();
        }
        self.service.on_bridge_reply(reply, block)
    }
}

impl VaraPulseService {
    /// The service over `state`.
    pub fn new(state: PulseState) -> (r: Self)
        ensures
            r.state == state,
    {
        VaraPulseService { state }
    }

    /// A pulse at `block` from the oracle's reply: writes the pulse, posts it
    /// to the Board and Chat, nudges the eligible agents, records the pulse,
    /// and passes the prices on to the strategy engine and a tick to the
    /// orchestrator when they are set.
    pub fn on_bridge_reply(&mut self, reply: QueryReply, block: u32) -> (r: Vec<PulseAction>)
        requires
            old(self).state.wf(),
        ensures
            final(self).state.wf(),
            pulse_messages(r@, old(self).state, reply, block),
            pulse_recorded(old(self).state, final(self).state, reply, block),
    {
        let ghost s0 = self.state;
        let ghost reply0 = reply;
        let (data, price_feed_data) = self.extract_snapshot(reply, block);
        let pulse_type = self.pick_pulse_type(&data, block);
        let body = self.generate_pulse(&data, &pulse_type);
        let network_pid = self.state.network_pid;
        let mut acts: Vec<PulseAction> = Vec::new();
        acts.push(PulseAction::Post(post_to_board(network_pid, body.clone())));
        acts.push(PulseAction::Post(post_to_chat(network_pid, body.clone(), Vec::new())));
        let targets = self.select_nudge_targets_with_data(&data, block);
        let ghost tg = targets@;
        let mut handles: Vec<String> = Vec::new();
        let mut i: usize = 0;
        while i < targets.len()
            invariant
                self.state == s0,
                tg == targets@,
                tg == nudge_targets(s0, block),
                network_pid == s0.network_pid,
                data@ == reply_data(reply0, block),
                i <= tg.len(),
                acts@.len() == 2 + i,
                handles@.len() == i,
                forall|j: int| 0 <= j < i ==> #[trigger] handles@[j] == tg[j].handle,
                is_board_post(acts@[0], s0.network_pid, body@),
                is_chat_post(acts@[1], s0.network_pid, body@, Seq::empty()),
                forall|j: int| 0 <= j < i ==> is_chat_post(
                    #[trigger] acts@[2 + j],
                    s0.network_pid,
                    nudge_text(data@, tg[j].handle@),
                    seq![tg[j].handle@],
                ),
            decreases tg.len() - i,
        {
            let target = &targets[i];
            let nudge = self.generate_nudge(&data, target);
            let mut mentions: Vec<String> = Vec::new();
            mentions.push(target.handle.clone());
            acts.push(PulseAction::Post(post_to_chat(network_pid, nudge, mentions)));
            handles.push(target.handle.clone());
            i = i + 1;
        }
        self.stamp_nudged(block);
        let pulse_id = self.state.total_pulses;
        let record = PulseRecord {
            pulse_id,
            block,
            pulse_type,
            body,
            data_snapshot: data,
            nudges_sent: handles,
        };
        let ghost h0 = self.state.pulse_history@;
        if self.state.pulse_history.len() >= MAX_HISTORY {
            self.state.pulse_history.remove(0);
        }
        assert(self.state.pulse_history@ =~= if h0.len() >= MAX_HISTORY {
            h0.drop_first()
        } else {
            h0
        });
        self.state.pulse_history.push(record);
        self.state.total_board_posts = self.state.total_board_posts.wrapping_add(1).wrapping_add(1);
        self.state.total_nudges_sent = self.state.total_nudges_sent.wrapping_add(targets.len() as u64);
        self.state.total_pulses = self.state.total_pulses.wrapping_add(1);
        self.state.last_pulse_block = block;
        assert(self.state.pulse_history@.drop_last() =~= if s0.pulse_history@.len() >= MAX_HISTORY {
            s0.pulse_history@.drop_first()
        } else {
            s0.pulse_history@
        });
        if price_feed_data.len() > 0 && !self.state.strategy_pid.is_zero() {
            proof {
                reveal_strlit("VaraStrategy");
                lemma_ascii_bytes("VaraStrategy");
                reveal_strlit("Analyze");
                lemma_ascii_bytes("Analyze");
            }
            acts.push(
                PulseAction::Analyze {
                    to: self.state.strategy_pid,
                    route: route("VaraStrategy", "Analyze"),
                    entries: price_feed_data,
                    gas_limit: GAS_FOR_ANALYZE,
                },
            );
        }
        if !self.state.flow_pid.is_zero() {
            proof {
                reveal_strlit("VaraFlow");
                lemma_ascii_bytes("VaraFlow");
                reveal_strlit("Tick");
                lemma_ascii_bytes("Tick");
            }
            acts.push(
                PulseAction::Call {
                    to: self.state.flow_pid,
                    payload: route("VaraFlow", "Tick"),
                    gas_limit: GAS_FOR_FLOW_TICK,
                },
            );
        }
        acts
    }

    /// A run with `gas_total` gas: below `MIN_RUN_GAS` nothing happens;
    /// otherwise the query for everything the oracle holds, with three fifths
    /// of the gas and a reply deposit of three twentieths (the products wrap
    /// as the program is built). The caller then schedules the next run with
    /// `run_message`.
    pub fn run(&self, gas_total: u64) -> (r: Option<BridgeCall>)
        ensures
            gas_total < MIN_RUN_GAS ==> r is None,
            gas_total >= MIN_RUN_GAS ==> (r matches Some(c) && run_call(c, self.state, gas_total)),
    {
        if gas_total < MIN_RUN_GAS {
            return None;
        }
        proof {
            reveal_strlit("VaraBridge");
            lemma_ascii_bytes("VaraBridge");
            reveal_strlit("QueryAndReply");
            lemma_ascii_bytes("QueryAndReply");
        }
        Some(
            BridgeCall {
                to: self.state.bridge_pid,
                route: route("VaraBridge", "QueryAndReply"),
                request: QueryRequest { query_type: "all".to_owned(), symbol: None, keys: None },
                gas_limit: share_of_gas(gas_total, 60),
                reply_deposit: share_of_gas(gas_total, 15),
            },
        )
    }

    /// Owner only: the first run message, which starts the pulse loop.
    pub fn start_auto(&self, caller: ActorId, gas_available: u64) -> (r: Result<SelfMessage, PulseError>)
        ensures
            caller != self.state.owner ==> r matches Err(PulseError::OwnerOnly),
            caller == self.state.owner ==> (r matches Ok(m) && m.payload@ == scale_encoded(
                "VaraPulse".spec_bytes(),
            ) + scale_encoded("Run".spec_bytes()) && m.gas_limit == u64_specs::wrapping_mul(
                gas_available,
                80,
            ) / 100 && m.delay == RUN_DELAY),
    {
        if !caller.same(&self.state.owner) {
            return Err(PulseError::OwnerOnly);
        }
        Ok(run_message(gas_available))
    }

    /// Owner only: a run right away, as `run` says.
    pub fn force_pulse(&self, caller: ActorId, gas_total: u64) -> (r: Result<Option<BridgeCall>, PulseError>)
        ensures
            caller != self.state.owner ==> r matches Err(PulseError::OwnerOnly),
            caller == self.state.owner && gas_total < MIN_RUN_GAS ==> r matches Ok(None),
            caller == self.state.owner && gas_total >= MIN_RUN_GAS ==> (r matches Ok(Some(c)) && run_call(
                c,
                self.state,
                gas_total,
            )),
    {
        if !caller.same(&self.state.owner) {
            return Err(PulseError::OwnerOnly);
        }
        Ok(self.run(gas_total))
    }

    /// Owner only: replaces the catalog of agents, noting `block`.
    pub fn update_catalog(&mut self, caller: ActorId, agents: Vec<AgentRecord>, block: u32) -> (r: Result<(), PulseError>)
        ensures
            caller != old(self).state.owner ==> r == Err::<(), PulseError>(PulseError::OwnerOnly)
                && final(self).state == old(self).state,
            caller == old(self).state.owner ==> r is Ok && final(self).state == (PulseState {
                known_agents: agents,
                last_catalog_refresh_block: block,
                ..old(self).state
            }),
    {
        if !caller.same(&self.state.owner) {
            return Err(PulseError::OwnerOnly);
        }
        self.state.known_agents = agents;
        self.state.last_catalog_refresh_block = block;
        Ok(())
    }

    /// Owner only: the settings that `config` gives replace their own.
    pub fn set_config(&mut self, caller: ActorId, config: PulseConfig) -> (r: Result<(), PulseError>)
        ensures
            caller != old(self).state.owner ==> r == Err::<(), PulseError>(PulseError::OwnerOnly)
                && final(self).state == old(self).state,
            caller == old(self).state.owner ==> r is Ok && final(self).state == (PulseState {
                pulse_interval_blocks: match config.interval {
                    Some(v) => v,
                    None => old(self).state.pulse_interval_blocks,
                },
                max_nudges_per_pulse: match config.max_nudges {
                    Some(v) => v,
                    None => old(self).state.max_nudges_per_pulse,
                },
                nudge_cooldown_blocks: match config.cooldown {
                    Some(v) => v,
                    None => old(self).state.nudge_cooldown_blocks,
                },
                ..old(self).state
            }),
    {
        if !caller.same(&self.state.owner) {
            return Err(PulseError::OwnerOnly);
        }
        if let Some(interval) = config.interval {
            self.state.pulse_interval_blocks = interval;
        }
        if let Some(max_nudges) = config.max_nudges {
            self.state.max_nudges_per_pulse = max_nudges;
        }
        if let Some(cooldown) = config.cooldown {
            self.state.nudge_cooldown_blocks = cooldown;
        }
        Ok(())
    }

    /// A copy of the latest pulse, if any.
    pub fn get_latest_pulse(&self) -> (r: Option<PulseRecord>)
        ensures
            self.state.pulse_history@.len() == 0 ==> r is None,
            self.state.pulse_history@.len() > 0 ==> (r matches Some(p) && record_eqv(
                p,
                self.state.pulse_history@.last(),
            )),
    {
        let n = self.state.pulse_history.len();
        if n == 0 {
            None
        } else {
            Some(copy_record(&self.state.pulse_history[n - 1]))
        }
    }

    /// Copies of the latest `limit` pulses, newest first.
    pub fn get_pulse_history(&self, limit: u32) -> (r: Vec<PulseRecord>)
        ensures
            r@.len() == if limit < self.state.pulse_history@.len() {
                limit as int
            } else {
                self.state.pulse_history@.len() as int
            },
            forall|i: int| 0 <= i < r@.len() ==> record_eqv(
                #[trigger] r@[i],
                self.state.pulse_history@[self.state.pulse_history@.len() - 1 - i],
            ),
    {
        let h = &self.state.pulse_history;
        let n = h.len();
        let mut r: Vec<PulseRecord> = Vec::new();
        let mut i: usize = 0;
        while i < n && (i as u64) < (limit as u64)
            invariant
                n == h@.len(),
                h@ == self.state.pulse_history@,
                i <= n,
                i <= limit,
                r@.len() == i,
                forall|j: int| 0 <= j < i ==> record_eqv(#[trigger] r@[j], h@[n - 1 - j]),
            decreases n - i,
        {
            r.push(copy_record(&h[n - 1 - i]));
            i = i + 1;
        }
        r
    }

    /// Owner only: `amount` of the program's balance sent to the owner.
    pub fn withdraw(&self, caller: ActorId, amount: u128) -> (r: Result<ValueTransfer, PulseError>)
        ensures
            caller != self.state.owner ==> r matches Err(PulseError::OwnerOnly),
            caller == self.state.owner ==> (r matches Ok(t) && t.to == caller && t.amount == amount),
    {
        if !caller.same(&self.state.owner) {
            return Err(PulseError::OwnerOnly);
        }
        Ok(ValueTransfer { to: caller, amount })
    }

    /// The counters, with the size of the catalog (cut to 32 bits as the
    /// program is built).
    pub fn get_stats(&self) -> (r: PulseStats)
        ensures
            r.total_pulses == self.state.total_pulses,
            r.total_nudges == self.state.total_nudges_sent,
            r.total_board_posts == self.state.total_board_posts,
            r.last_pulse_block == self.state.last_pulse_block,
            r.known_agents == self.state.known_agents@.len() as u32,
    {
        PulseStats {
            total_pulses: self.state.total_pulses,
            total_nudges: self.state.total_nudges_sent,
            total_board_posts: self.state.total_board_posts,
            last_pulse_block: self.state.last_pulse_block,
            known_agents: self.state.known_agents.len() as u32,
        }
    }
}

} // verus!
