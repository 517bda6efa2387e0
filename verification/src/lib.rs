//! Verified decision logic of the Vara Trinity programs: the data oracle
//! (bridge), the workflow orchestrator (flow), the creative pulse agent
//! (pulse) and the strategy engine (strategy).
//!
//! Every function here is a pure computation over the program state: the
//! caller, the block height and the results of sends are handed in as plain
//! values, and the messages a program would emit are handed back as values.

pub mod ids;
pub mod text;
pub mod routes;
pub mod strmap;
pub mod feeds;
pub mod bridge;
pub mod flow;
pub mod pulse;
pub mod strategy;
