//! The strategy engine: reads the prices the pulse agent hands it and keeps
//! momentum and value recommendations.

pub mod state;
pub mod service;
