//! What a worker is told, and what it tells the pool.

use vstd::prelude::*;

use crate::metadata::{FunctionId, SandboxId, SandboxStats};
use crate::worker::error::Error;
use crate::worker::ids::WorkerId;

verus! {

/// What the pool can ask of a worker besides handling invocations.
#[derive(Debug)]
pub enum ControlMessage {
    /// Retire, and keep the sandbox's snapshot if it has one.
    ShutDown,
    /// Prepare a sandbox for later, on the given CPU.
    PrepareSandbox { cpuset: u16 },
    /// Retire, and destroy the sandbox with everything that belongs to it.
    DestroySandbox,
    /// Take a snapshot of the sandbox.
    CreateSnapshot { sandbox_id: SandboxId },
}

/// What a worker tells the pool.
#[derive(Debug)]
#[allow(inconsistent_fields)]
pub enum OutboundMessage {
    /// The name of a sandbox that was just created.
    SandboxId { worker_id: WorkerId, sandbox_id: SandboxId },
    /// An invocation was handled.
    NeedWork { worker_id: WorkerId, function_id: FunctionId },
    /// The worker is ready to be joined.
    ReapMe { worker_id: WorkerId, function_id: FunctionId },
    /// The outcome of [`ControlMessage::PrepareSandbox`].
    SandboxPreparation(PrepareSandboxResult),
    /// The outcome of [`ControlMessage::CreateSnapshot`].
    SnapshotCreation(CreateSnapshotResult),
}

/// The outcome of [`ControlMessage::PrepareSandbox`]: the sandbox's name, whether it has a
/// snapshot, and its counters.
#[derive(Debug)]
pub struct PrepareSandboxResult {
    pub worker_id: WorkerId,
    pub function_id: FunctionId,
    pub result: Result<(SandboxId, bool, SandboxStats), Error>,
}

/// The outcome of [`ControlMessage::CreateSnapshot`].
#[derive(Debug)]
pub struct CreateSnapshotResult {
    pub worker_id: WorkerId,
    pub function_id: FunctionId,
    pub sandbox_id: SandboxId,
    pub result: Result<(), Error>,
}

} // verus!
