//! The client of the orchestrator's control plane.

pub mod cli;
pub mod counts;
pub mod funcreg;
pub mod sandbox;
pub mod seed;
pub mod snapshots;
