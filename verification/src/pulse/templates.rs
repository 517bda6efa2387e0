use vstd::prelude::*;

use crate::pulse::state::DataSnapshot;
use crate::text::{decimal, u32_text, u64_text};

verus! {

/// The short name of a gas level, in micro-units.
pub open spec fn short_gas_label(g: u64) -> Seq<char> {
    if g < 100_000 {
        "ULTRA LOW"@
    } else if g < 500_000 {
        "LOW"@
    } else if g < 1_000_000 {
        "MODERATE"@
    } else if g < 5_000_000 {
        "HIGH"@
    } else {
        "VERY HIGH"@
    }
}

/// The top market's question, else `default`.
pub open spec fn market_or(d: DataSnapshot, default: Seq<char>) -> Seq<char> {
    match d.top_market {
        Some(m) => m@,
        None => default,
    }
}

/// The heading line shared by the short formats: `title #pulse | Block #block`.
pub open spec fn heading(title: Seq<char>, pulse_num: u64, block: u32) -> Seq<char> {
    title + " #"@ + decimal(pulse_num as nat) + " | Block #"@ + decimal(block as nat)
}

/// The short name of a gas level, in micro-units.
pub fn gas_label(gas_micro: u64) -> (r: &'static str)
    ensures
        r@ == short_gas_label(gas_micro),
{
    if gas_micro < 100_000 {
        "ULTRA LOW"
    } else if gas_micro < 500_000 {
        "LOW"
    } else if gas_micro < 1_000_000 {
        "MODERATE"
    } else if gas_micro < 5_000_000 {
        "HIGH"
    } else {
        "VERY HIGH"
    }
}

fn heading_text(title: &str, pulse_num: u64, block: u32) -> (r: String)
    ensures
        r@ == heading(title@, pulse_num, block),
{
    let mut s = title.to_owned();
    s.append(" #");
    s.append(u64_text(pulse_num).as_str());
    s.append(" | Block #");
    s.append(u32_text(block).as_str());
    s
}

/// A short gas tip: the heading, then the gas and its level.
pub fn format_gas_tip(data: &DataSnapshot, pulse_num: u64) -> (r: String)
    ensures
        r@ == heading("Gas Tip"@, pulse_num, data.block) + "\nGas: "@ + decimal(data.gas_micro as nat)
            + " ("@ + short_gas_label(data.gas_micro) + ")"@,
{
    let mut s = heading_text("Gas Tip", pulse_num, data.block);
    s.append("\nGas: ");
    s.append(u64_text(data.gas_micro).as_str());
    s.append(" (");
    s.append(gas_label(data.gas_micro));
    s.append(")");
    s
}

/// A short news brief: the heading, then the top headline.
pub fn format_news_brief(data: &DataSnapshot, pulse_num: u64) -> (r: String)
    ensures
        r@ == heading("News Brief"@, pulse_num, data.block) + "\n"@ + data.top_news@,
{
    let mut s = heading_text("News Brief", pulse_num, data.block);
    s.append("\n");
    s.append(data.top_news.as_str());
    s
}

/// A short market spark: the heading, then the top market (or "crypto
/// market" when there is none).
pub fn format_market_spark(data: &DataSnapshot, pulse_num: u64) -> (r: String)
    ensures
        r@ == heading("Market Spark"@, pulse_num, data.block) + "\n"@ + market_or(
            *data,
            "crypto market"@,
        ),
{
    let mut s = heading_text("Market Spark", pulse_num, data.block);
    s.append("\n");
    match &data.top_market {
        Some(m) => s.append(m.as_str()),
        None => s.append("crypto market"),
    }
    s
}

} // verus!
