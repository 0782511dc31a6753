//! A stage: the script of its waves and the orchestrator that plays it.

pub mod generator;
pub mod laws;
pub mod model;
pub mod orchestration;
pub mod waves;
