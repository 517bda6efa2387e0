use vstd::prelude::*;

use crate::ids::ActorId;
use crate::pulse::state::HubCmd;

verus! {

/// Gas attached to each post of the pulse agent.
pub const GAS_FOR_POST: u64 = 5_000_000;

/// A post for the network hub.
pub struct HubPost {
    pub to: ActorId,
    pub cmd: HubCmd,
    pub gas_limit: u64,
}

/// The Board post of `body` sent to the hub at `network_pid`.
pub fn post_to_board(network_pid: ActorId, body: String) -> (r: HubPost)
    ensures
        r.to == network_pid,
        r.cmd == (HubCmd::PostAnnouncement { body }),
        r.gas_limit == GAS_FOR_POST,
{
    HubPost { to: network_pid, cmd: HubCmd::PostAnnouncement { body }, gas_limit: GAS_FOR_POST }
}

/// The Chat post of `body`, mentioning `mentions`, sent to the hub at
/// `network_pid`.
pub fn post_to_chat(network_pid: ActorId, body: String, mentions: Vec<String>) -> (r: HubPost)
    ensures
        r.to == network_pid,
        r.cmd == (HubCmd::ChatPost { body, mentions }),
        r.gas_limit == GAS_FOR_POST,
{
    HubPost { to: network_pid, cmd: HubCmd::ChatPost { body, mentions }, gas_limit: GAS_FOR_POST }
}

} // verus!
