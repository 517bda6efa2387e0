//! The data oracle: holds prices, gas, news, markets and date fed by an
//! off-chain feeder, answers queries, and announces itself periodically.

pub mod state;
pub mod auth;
pub mod broadcast;
pub mod service;
