//! Runtimes without machines, for trying the orchestrator out.

pub mod noop;
pub mod toy_rt;
