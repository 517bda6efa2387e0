use vstd::prelude::*;

use crate::flow::executor::{FlowAction, Planned};
use crate::flow::state::{FlowState, HubCmd};
use crate::text::{decimal, u32_text, u64_text};

verus! {

/// Gas attached to each hub post of the orchestrator.
pub const GAS_FOR_HUB: u128 = 2_000_000_000;

/// The text of the orchestrator's announcement.
pub open spec fn flow_body(s: FlowState, block: u32) -> Seq<char> {
    "VaraFlow LIVE | Block #"@ + decimal(block as nat) + "\nWorkflows: "@ + decimal(
        s.workflow_count as nat,
    ) + " total | "@ + decimal(s.execution_count as nat) + " executions | "@ + decimal(
        s.broadcast_count as nat,
    )
        + " broadcasts\n--\nRegister your workflow in 1 message.\nTemplates: PriceAlert, MarketSummary, GasAware, PulseScheduler, Custom.\nVaraBridge data integrated. VaraPulse scheduled.\nMessage VaraFlow: use_template(template) or register_workflow(steps)"@
}

/// The announcement posts: the same text to the Board and to Chat.
pub open spec fn flow_posts(body: Seq<char>) -> Seq<Planned> {
    seq![
        Planned::Post { body, gas_limit: GAS_FOR_HUB },
        Planned::Chat { body, mentions: Seq::empty(), gas_limit: GAS_FOR_HUB },
    ]
}

/// The orchestrator's announcement of its counters at `block`.
pub fn do_broadcast(state: &FlowState, block: u32) -> (r: Vec<FlowAction>)
    ensures
        crate::flow::executor::fulfils_all(r@, flow_posts(flow_body(*state, block)), *state),
{
    let mut body = String::new();
    body.append("VaraFlow LIVE | Block #");
    body.append(u32_text(block).as_str());
    body.append("\nWorkflows: ");
    body.append(u64_text(state.workflow_count).as_str());
    body.append(" total | ");
    body.append(u64_text(state.execution_count).as_str());
    body.append(" executions | ");
    body.append(u64_text(state.broadcast_count).as_str());
    body.append(
        " broadcasts\n--\nRegister your workflow in 1 message.\nTemplates: PriceAlert, MarketSummary, GasAware, PulseScheduler, Custom.\nVaraBridge data integrated. VaraPulse scheduled.\nMessage VaraFlow: use_template(template) or register_workflow(steps)",
    );
    let mut r: Vec<FlowAction> = Vec::new();
    r.push(
        FlowAction::Hub {
            to: state.network_pid,
            cmd: HubCmd::PostAnnouncement { body: body.clone() },
            gas_limit: GAS_FOR_HUB,
        },
    );
    r.push(
        FlowAction::Hub {
            to: state.network_pid,
            cmd: HubCmd::ChatPost { body, mentions: Vec::new() },
            gas_limit: GAS_FOR_HUB,
        },
    );
    r
}

} // verus!
