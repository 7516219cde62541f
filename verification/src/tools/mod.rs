//! The clients and test programs around the orchestrator.

pub mod grpc_client;
pub mod noop_faascell;
pub mod snaplace_toy;
pub mod sysinfo;
pub mod warmup;
pub mod worker_grpcli;
