//! The creative pulse agent: turns the oracle's data into posts for the
//! Board and Chat, nudges known agents, and keeps a short history.

pub mod state;
pub mod templates;
pub mod generator;
pub mod service;
pub mod nudger;
pub mod broadcast;
