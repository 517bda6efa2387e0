use vstd::prelude::*;

use crate::bridge::state::{BridgeState, HubCmd, HubPost};
use crate::ids::ActorId;
use crate::feeds::PriceFeed;
use crate::strmap::lookup;
use crate::text::{decimal, u64_text, usize_text, u32_text, zero_padded, zero_padded_text};
use vstd::wrapping::{u32_specs, u64_specs};

verus! {

/// Blocks between two announcements.
pub const BROADCAST_INTERVAL: u32 = 200;

/// Gas attached to each hub post.
pub const GAS_FOR_HUB_POST: u128 = 0;

/// An announcement is due at `block`: `BROADCAST_INTERVAL` blocks have passed
/// since the last one (the sum wraps as the program is built).
pub open spec fn broadcast_due(last_broadcast_block: u32, block: u32) -> bool {
    !(block < u32_specs::wrapping_add(last_broadcast_block, BROADCAST_INTERVAL))
}

/// Announcements are spaced: after one at `block`, none is due before
/// `block + BROADCAST_INTERVAL`, and one is due from then on (where that sum
/// fits in a `u32`; past it the sum wraps as the program is built).
pub proof fn lemma_broadcast_spacing(block: u32, later: u32)
    requires
        block + BROADCAST_INTERVAL <= u32::MAX,
    ensures
        broadcast_due(block, later) <==> later >= block + BROADCAST_INTERVAL,
{
}

/// Whole dollars of the price stored under `symbol`, 0 when none is stored.
pub open spec fn whole_dollars(prices: Seq<(Seq<char>, PriceFeed)>, symbol: Seq<char>) -> nat {
    match lookup(prices, symbol) {
        Some(p) => (p.price_usd_micro / 1_000_000) as nat,
        None => 0,
    }
}

/// Micro-dollars of the price stored under `symbol`, 0 when none is stored.
pub open spec fn micro_dollars(prices: Seq<(Seq<char>, PriceFeed)>, symbol: Seq<char>) -> nat {
    match lookup(prices, symbol) {
        Some(p) => p.price_usd_micro as nat,
        None => 0,
    }
}

/// A micro-dollar amount as `$D.DDDD`, or `$0.00` when it is zero.
pub open spec fn dollars_4(micro: nat) -> Seq<char> {
    if micro > 0 {
        "$"@ + decimal(micro / 1_000_000) + "."@ + zero_padded((micro % 1_000_000) / 100, 4)
    } else {
        "$0.00"@
    }
}

/// The text of the oracle's announcement.
pub open spec fn bridge_body(s: BridgeState, block: u32) -> Seq<char> {
    let p = s.prices@;
    "VaraBridge — On-Chain Data Oracle\nBlock #"@ + decimal(block as nat) + " | "@ + decimal(
        s.query_count as nat,
    ) + " queries answered\n\n── Prices ──\nETH  $"@ + decimal(whole_dollars(p, "ETH"@))
        + "  |  BTC  $"@ + decimal(whole_dollars(p, "BTC"@)) + "\nSOL  $"@ + decimal(
        whole_dollars(p, "SOL"@),
    ) + "  |  VARA  $"@ + dollars_4(micro_dollars(p, "VARA"@)) + "\n+"@ + decimal(
        (if p.len() >= 4 {
            p.len() - 4
        } else {
            0
        }) as nat,
    ) + " more symbols\n\n── Network ──\nGas: "@ + decimal(s.gas.current_fee_micro as nat)
        + "  |  News: "@ + decimal(s.news@.len()) + "  |  Markets: "@ + decimal(
        s.markets@.len(),
    )
        + "\n\n── For Agents ──\nOne message = instant live data.\nQuery types: price, gas, news, markets, datetime, all\nCall: VaraBridge/QueryAndReply({ query_type: \"all\" })\n\nBuilt for Vara Agents Arena. Autonomous. Free. Always on."@
}

/// `c` is a Board announcement with text `body`.
pub open spec fn is_announcement(c: HubCmd, body: Seq<char>) -> bool {
    c matches HubCmd::PostAnnouncement { body: b } && b@ == body
}

/// `c` is a Chat post with text `body` and no mentions.
pub open spec fn is_plain_chat(c: HubCmd, body: Seq<char>) -> bool {
    c matches HubCmd::ChatPost { body: b, mentions: m } && b@ == body && m@.len() == 0
}

/// The posts of an announcement: the same text to the Board and to Chat,
/// both sent to the hub at `to`.
pub open spec fn announces(posts: Seq<HubPost>, to: ActorId, body: Seq<char>) -> bool {
    &&& posts.len() == 2
    &&& posts[0].to == to
    &&& posts[1].to == to
    &&& is_announcement(posts[0].cmd, body)
    &&& is_plain_chat(posts[1].cmd, body)
}

fn whole_dollars_of(state: &BridgeState, symbol: &str) -> (r: u64)
    ensures
        r == whole_dollars(state.prices@, symbol@),
{
    match state.prices.get(symbol) {
        Some(p) => p.price_usd_micro / 1_000_000,
        None => 0,
    }
}

fn dollars_4_text(micro: u64) -> (r: String)
    ensures
        r@ == dollars_4(micro as nat),
{
    if micro > 0 {
        let mut s = String::new();
        s.append("$");
        s.append(u64_text(micro / 1_000_000).as_str());
        s.append(".");
        s.append(zero_padded_text((micro % 1_000_000) / 100, 4).as_str());
        s
    } else {
        "$0.00".to_owned()
    }
}

/// The announcement text for `state` at `block`.
pub fn bridge_body_text(state: &BridgeState, block: u32) -> (r: String)
    ensures
        r@ == bridge_body(*state, block),
{
    let eth = whole_dollars_of(state, "ETH");
    let btc = whole_dollars_of(state, "BTC");
    let sol = whole_dollars_of(state, "SOL");
    let vara = match state.prices.get("VARA") {
        Some(p) => p.price_usd_micro,
        None => 0,
    };
    let other = state.prices.len().saturating_sub(4);
    let mut s = String::new();
    s.append("VaraBridge — On-Chain Data Oracle\nBlock #");
    s.append(u32_text(block).as_str());
    s.append(" | ");
    s.append(u64_text(state.query_count).as_str());
    s.append(" queries answered\n\n── Prices ──\nETH  $");
    s.append(u64_text(eth).as_str());
    s.append("  |  BTC  $");
    s.append(u64_text(btc).as_str());
    s.append("\nSOL  $");
    s.append(u64_text(sol).as_str());
    s.append("  |  VARA  $");
    s.append(dollars_4_text(vara).as_str());
    s.append("\n+");
    s.append(usize_text(other).as_str());
    s.append(" more symbols\n\n── Network ──\nGas: ");
    s.append(u64_text(state.gas.current_fee_micro).as_str());
    s.append("  |  News: ");
    s.append(usize_text(state.news.len()).as_str());
    s.append("  |  Markets: ");
    s.append(usize_text(state.markets.len()).as_str());
    s.append(
        "\n\n── For Agents ──\nOne message = instant live data.\nQuery types: price, gas, news, markets, datetime, all\nCall: VaraBridge/QueryAndReply({ query_type: \"all\" })\n\nBuilt for Vara Agents Arena. Autonomous. Free. Always on.",
    );
    s
}

/// Announces the oracle when `BROADCAST_INTERVAL` blocks have passed since the
/// last announcement: returns the posts for the hub at `network_pid` (a Board
/// announcement and a Chat post with the same text), counts the announcement
/// and records the block. Otherwise returns no post and leaves the state as it
/// is.
pub fn check_and_broadcast(state: &mut BridgeState, block: u32) -> (cmds: Vec<HubPost>)
    ensures
        !broadcast_due(old(state).last_broadcast_block, block) ==> cmds@.len() == 0
            && *final(state) == *old(state),
        broadcast_due(old(state).last_broadcast_block, block) ==> announces(
            cmds@,
            old(state).network_pid,
            bridge_body(*old(state), block),
        ) && *final(state) == (BridgeState {
            broadcast_count: u64_specs::wrapping_add(old(state).broadcast_count, 1),
            last_broadcast_block: block,
            ..*old(state)
        }),
{
    if block < state.last_broadcast_block.wrapping_add(BROADCAST_INTERVAL) {
        return Vec::new();
    }
    let body = bridge_body_text(state, block);
    let to = state.network_pid;
    let mut cmds: Vec<HubPost> = Vec::new();
    cmds.push(HubPost { to, cmd: HubCmd::PostAnnouncement { body: body.clone() } });
    cmds.push(HubPost { to, cmd: HubCmd::ChatPost { body, mentions: Vec::new() } });
    state.broadcast_count = state.broadcast_count.wrapping_add(1);
    state.last_broadcast_block = block;
    cmds
}

} // verus!
