use vstd::prelude::*;

use crate::flow::state::copy_texts_list;
use crate::ids::{all_zero, ActorId};

pub use crate::feeds::{
    DatetimeFeed, GasFeed, HubCmd, MarketFeed, NewsSummary, PriceFeed, QueryRequest,
};

verus! {

/// The most pulses the history keeps.
pub const MAX_HISTORY: usize = 50;

/// The pulse agent's whole state.
pub struct PulseState {
    pub bridge_pid: ActorId,
    pub flow_pid: ActorId,
    pub network_pid: ActorId,
    pub strategy_pid: ActorId,
    pub owner: ActorId,
    /// The latest pulses, oldest first.
    pub pulse_history: Vec<PulseRecord>,
    pub known_agents: Vec<AgentRecord>,
    pub last_catalog_refresh_block: u32,
    pub pulse_interval_blocks: u32,
    pub max_nudges_per_pulse: u32,
    pub nudge_cooldown_blocks: u32,
    pub total_pulses: u64,
    pub total_nudges_sent: u64,
    pub total_board_posts: u64,
    pub last_pulse_block: u32,
}

impl PulseState {
    /// The history holds at most `MAX_HISTORY` pulses.
    pub open spec fn wf(&self) -> bool {
        self.pulse_history@.len() <= MAX_HISTORY
    }
}

/// One pulse as it was posted.
pub struct PulseRecord {
    pub pulse_id: u64,
    pub block: u32,
    pub pulse_type: PulseType,
    pub body: String,
    pub data_snapshot: DataSnapshot,
    /// The handles of the agents nudged with it.
    pub nudges_sent: Vec<String>,
}

/// The kinds of pulse.
#[derive(Debug, Clone, Copy, PartialEq, Eq, Structural)]
pub enum PulseType {
    MarketSummary,
    GasTip,
    NewsBrief,
    MarketSpark,
    AgentTip,
    MilestonePost,
    CreativeSpark,
}

/// An agent the pulse agent may nudge.
#[derive(Debug)]
pub struct AgentRecord {
    pub handle: String,
    pub program_id: String,
    pub description: String,
    pub last_nudged_block: u32,
}

/// The figures a pulse is written from.
#[derive(Debug)]
pub struct DataSnapshot {
    pub eth_usd: u64,
    pub btc_usd: u64,
    pub vara_usd: u64,
    pub gas_micro: u64,
    pub top_news: String,
    pub top_market: Option<String>,
    pub block: u32,
    pub utc_string: String,
}

/// The figures of a snapshot, each text by its characters.
pub struct DataView {
    pub eth_usd: u64,
    pub btc_usd: u64,
    pub vara_usd: u64,
    pub gas_micro: u64,
    pub top_news: Seq<char>,
    pub top_market: Option<Seq<char>>,
    pub block: u32,
    pub utc_string: Seq<char>,
}

impl View for DataSnapshot {
    type V = DataView;

    open spec fn view(&self) -> DataView {
        DataView {
            eth_usd: self.eth_usd,
            btc_usd: self.btc_usd,
            vara_usd: self.vara_usd,
            gas_micro: self.gas_micro,
            top_news: self.top_news@,
            top_market: match self.top_market {
                Some(m) => Some(m@),
                None => None,
            },
            block: self.block,
            utc_string: self.utc_string@,
        }
    }
}

/// The owner's settings; absent ones stay as they are.
#[derive(Debug, Clone, Copy)]
pub struct PulseConfig {
    pub interval: Option<u32>,
    pub max_nudges: Option<u32>,
    pub cooldown: Option<u32>,
}

#[derive(Debug, Clone, Copy, PartialEq, Eq, Structural)]
pub struct PulseStats {
    pub total_pulses: u64,
    pub total_nudges: u64,
    pub total_board_posts: u64,
    pub last_pulse_block: u32,
    pub known_agents: u32,
}

/// The figures of one symbol that the strategy engine analyses.
#[derive(Debug)]
pub struct StrategyPriceEntry {
    pub symbol: String,
    pub price_usd_micro: u64,
    pub change_24h_bps: i32,
    pub volume_24h_usd: u64,
}

/// Everything the oracle holds, as the pulse agent reads it: prices and
/// markets under their keys, in the order they come.
pub struct Snapshot {
    pub prices: Vec<(String, PriceFeed)>,
    pub gas: GasFeed,
    pub news: Vec<NewsSummary>,
    pub markets: Vec<(String, MarketFeed)>,
    pub datetime: DatetimeFeed,
    pub block: u32,
}

/// The oracle's answer as the pulse agent reads it.
pub enum QueryReply {
    Price(Option<PriceFeed>),
    Gas(GasFeed),
    News(Vec<NewsSummary>),
    Markets(Vec<MarketFeed>),
    Datetime(DatetimeFeed),
    All(Snapshot),
    Error(String),
}

/// Why the pulse agent refuses a message; nothing changes then.
#[derive(Debug, Clone, Copy, PartialEq, Eq, Structural)]
pub enum PulseError {
    /// The caller of an owner-only method is not the owner.
    OwnerOnly,
}

impl PulseError {
    /// The text the program fails with.
    pub fn message(&self) -> (r: &'static str)
        ensures
            r@ == "Owner only"@,
    {
        match self {
            PulseError::OwnerOnly => "Owner only",
        }
    }
}

impl Default for PulseState {
    fn default() -> (r: Self)
        ensures
            all_zero(r.bridge_pid.bytes),
            all_zero(r.flow_pid.bytes),
            all_zero(r.network_pid.bytes),
            all_zero(r.strategy_pid.bytes),
            all_zero(r.owner.bytes),
            r.pulse_history@.len() == 0,
            r.known_agents@.len() == 0,
            r.last_catalog_refresh_block == 0,
            r.pulse_interval_blocks == 300,
            r.max_nudges_per_pulse == 3,
            r.nudge_cooldown_blocks == 3000,
            r.total_pulses == 0,
            r.total_nudges_sent == 0,
            r.total_board_posts == 0,
            r.last_pulse_block == 0,
    {
        PulseState {
            bridge_pid: ActorId::zero(),
            flow_pid: ActorId::zero(),
            network_pid: ActorId::zero(),
            strategy_pid: ActorId::zero(),
            owner: ActorId::zero(),
            pulse_history: Vec::new(),
            known_agents: Vec::new(),
            last_catalog_refresh_block: 0,
            pulse_interval_blocks: 300,
            max_nudges_per_pulse: 3,
            nudge_cooldown_blocks: 3000,
            total_pulses: 0,
            total_nudges_sent: 0,
            total_board_posts: 0,
            last_pulse_block: 0,
        }
    }
}

impl Clone for AgentRecord {
    fn clone(&self) -> (r: Self)
        ensures
            r == *self,
    {
        AgentRecord {
            handle: self.handle.clone(),
            program_id: self.program_id.clone(),
            description: self.description.clone(),
            last_nudged_block: self.last_nudged_block,
        }
    }
}

impl Clone for DataSnapshot {
    fn clone(&self) -> (r: Self)
        ensures
            r == *self,
    {
        DataSnapshot {
            eth_usd: self.eth_usd,
            btc_usd: self.btc_usd,
            vara_usd: self.vara_usd,
            gas_micro: self.gas_micro,
            top_news: self.top_news.clone(),
            top_market: match &self.top_market {
                Some(m) => Some(m.clone()),
                None => None,
            },
            block: self.block,
            utc_string: self.utc_string.clone(),
        }
    }
}

/// Two records hold the same pulse.
pub open spec fn record_eqv(a: PulseRecord, b: PulseRecord) -> bool {
    &&& a.pulse_id == b.pulse_id
    &&& a.block == b.block
    &&& a.pulse_type == b.pulse_type
    &&& a.body == b.body
    &&& a.data_snapshot == b.data_snapshot
    &&& a.nudges_sent@ == b.nudges_sent@
}

/// A copy of a record.
pub fn copy_record(r: &PulseRecord) -> (c: PulseRecord)
    ensures
        record_eqv(c, *r),
{
    PulseRecord {
        pulse_id: r.pulse_id,
        block: r.block,
        pulse_type: r.pulse_type,
        body: r.body.clone(),
        data_snapshot: r.data_snapshot.clone(),
        nudges_sent: copy_texts_list(&r.nudges_sent),
    }
}

} // verus!
