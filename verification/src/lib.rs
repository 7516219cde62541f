//! Verified core of the FaaSCell sandbox orchestrator and of its tools.

pub mod cginfo;
pub mod durations;
pub mod faasctl;
pub mod metadata;
pub mod metrics;
pub mod paths;
pub mod runtime;
pub mod status;
pub mod text;
pub mod tools;
pub mod worker;
