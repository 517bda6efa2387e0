//! The workflow orchestrator: registers workflows of steps, runs them when
//! their triggers fire, and keeps a cache of the oracle's data.

pub mod bridge_client;
pub mod state;
pub mod workflow;
pub mod executor;
pub mod broadcast;
pub mod timeouts;
pub mod tick;
pub mod templates;
pub mod service;
