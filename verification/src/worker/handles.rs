//! What the pool keeps of a worker.

use vstd::prelude::*;

use crate::metadata::{FunctionId, SandboxId};
use crate::metrics::Nanoseconds;
use crate::runtime::Sandbox;
use crate::text::concat;
use crate::worker::error::{ChannelUse, Error, InitStage, SpawnError};
use crate::worker::ids::{show_id, WorkerId};
use crate::worker::machine::{Action, SnapshotCreationTime, Worker};
use crate::worker::types::SandboxState;

verus! {

/// Room for invocations on their way to a worker: more would weaken what the pool relies on.
pub const INVOCATION_QUEUE_SIZE: usize = 1;

/// Room for control messages on their way to a worker.
pub const CONTROL_QUEUE_SIZE: usize = 4;

/// How long a worker waits for the issuer unless it is told otherwise, in seconds.
pub const DEFAULT_ISSUER_TIMEOUT_SECS: u64 = 300;

/// A worker's entry in the pool. `M` is the pool's own memory accounting.
#[derive(Debug)]
pub struct WorkerHandle<M> {
    id: WorkerId,
    function_id: FunctionId,
    sandbox_id: Option<SandboxId>,
    mem_accounting: M,
}

impl<M: Copy> WorkerHandle<M> {
    /// The worker's unique name.
    pub closed spec fn spec_id(&self) -> WorkerId {
        self.id
    }

    /// The Function the worker serves.
    pub closed spec fn spec_function_id(&self) -> FunctionId {
        self.function_id
    }

    /// The sandbox the worker owns, as far as the pool knows.
    pub closed spec fn spec_sandbox_id(&self) -> Option<SandboxId> {
        self.sandbox_id
    }

    /// Where the pool charges the worker's memory.
    pub closed spec fn spec_memory_accounting(&self) -> M {
        self.mem_accounting
    }

    pub fn new(
        id: WorkerId,
        function_id: FunctionId,
        sandbox_id: Option<SandboxId>,
        mem_accounting: M,
    ) -> (r: WorkerHandle<M>)
        ensures
            r.spec_id() == id,
            r.spec_function_id() == function_id,
            r.spec_sandbox_id() == sandbox_id,
            r.spec_memory_accounting() == mem_accounting,
    {
        WorkerHandle { id, function_id, sandbox_id, mem_accounting }
    }

    pub fn id(&self) -> (r: WorkerId)
        ensures
            r == self.spec_id(),
    {
        self.id
    }

    pub fn function_id(&self) -> (r: &FunctionId)
        ensures
            *r == self.spec_function_id(),
    {
        &self.function_id
    }

    pub fn sandbox_id(&self) -> (r: Option<&SandboxId>)
        ensures
            match r {
                Some(id) => self.spec_sandbox_id() == Some(*id),
                None => self.spec_sandbox_id() is None,
            },
    {
        self.sandbox_id.as_ref()
    }

    /// Notes the sandbox that the worker owns from now on.
    pub fn set_sandbox_id(&mut self, sandbox_id: SandboxId)
        ensures
            final(self).spec_sandbox_id() == Some(sandbox_id),
            final(self).spec_id() == old(self).spec_id(),
            final(self).spec_function_id() == old(self).spec_function_id(),
            final(self).spec_memory_accounting() == old(self).spec_memory_accounting(),
    {
        self.sandbox_id = Some(sandbox_id);
    }

    pub fn memory_accounting(&self) -> (r: M)
        ensures
            r == self.spec_memory_accounting(),
    {
        self.mem_accounting
    }

    /// Notes where the worker's memory is charged from now on.
    pub fn set_memory_accounting(&mut self, mem_accounting: M)
        ensures
            final(self).spec_memory_accounting() == mem_accounting,
            final(self).spec_id() == old(self).spec_id(),
            final(self).spec_function_id() == old(self).spec_function_id(),
            final(self).spec_sandbox_id() == old(self).spec_sandbox_id(),
    {
        self.mem_accounting = mem_accounting;
    }

    /// A name under which invocations can be sent to the worker.
    pub fn new_ref(&self) -> (r: WorkerRef)
        ensures
            r.spec_id() == self.spec_id(),
    {
        WorkerRef { id: self.id }
    }

    /// The error of a request to retire that could not be handed to the worker.
    pub fn shutdown_error(&self, cause: String) -> (r: Error)
        ensures
            r == Error::ShutDown(self.spec_id(), cause),
    {
        Error::ShutDown(self.id, cause)
    }

    /// The error of a request for a sandbox that could not be handed to the worker.
    pub fn prepare_sandbox_error(&self, cause: String) -> (r: Error)
        ensures
            r == Error::Channel(ChannelUse::SendPrepareSandbox, cause),
    {
        Error::Channel(ChannelUse::SendPrepareSandbox, cause)
    }

    /// The error of a request for a snapshot that could not be handed to the worker.
    pub fn create_snapshot_error(&self, cause: String) -> (r: Error)
        ensures
            r == Error::Channel(ChannelUse::SendCreateSnapshot, cause),
    {
        Error::Channel(ChannelUse::SendCreateSnapshot, cause)
    }
}

/// A worker, for those who only hand it invocations.
#[derive(Clone, Copy, Debug, PartialEq, Eq)]
pub struct WorkerRef {
    id: WorkerId,
}

impl WorkerRef {
    /// The worker's unique name.
    pub closed spec fn spec_id(&self) -> WorkerId {
        self.id
    }

    pub fn id(&self) -> (r: WorkerId)
        ensures
            r == self.spec_id(),
    {
        self.id
    }

    /// The reference in words.
    pub fn message(&self) -> (r: String)
        ensures
            r@ == "WorkerRef-"@ + crate::worker::ids::shown_id(self.spec_id()),
    {
        concat("WorkerRef-", show_id(self.id).as_str())
    }

    /// The error of an invocation that could not be handed to the worker.
    pub fn forward_error(&self, cause: String) -> (r: Error)
        ensures
            r == Error::Forward(self.spec_id(), cause),
    {
        Error::Forward(self.id, cause)
    }
}

/// A worker that was just started: itself, its first action, and its entry in the pool.
#[derive(Debug)]
pub struct Spawned<S, M> {
    pub worker: Worker<S>,
    pub action: Action<S>,
    pub handle: WorkerHandle<M>,
}

/// Starts a worker once its runtime and its issuer are constructed. If either could not be,
/// the sandbox comes back with the error; the runtime is constructed first.
pub fn spawn<S: Sandbox, M: Copy>(
    id: WorkerId,
    function_id: &FunctionId,
    runtime: Result<(), String>,
    issuer: Result<(), String>,
    sandbox: Option<S>,
    mem_accounting: M,
    snapshot_creation: SnapshotCreationTime,
    issuer_timeout: Nanoseconds,
) -> (r: Result<Spawned<S, M>, SpawnError<S>>)
    ensures
        r is Ok <==> runtime is Ok && issuer is Ok,
        match r {
            Ok(spawned) => {
                &&& spawned.worker.id == id
                &&& spawned.worker.function_id == *function_id
                &&& spawned.worker.snapshot_creation == snapshot_creation
                &&& spawned.worker.issuer_timeout == issuer_timeout
                &&& spawned.worker.state == (match sandbox {
                    Some(sb) => SandboxState::Snapshot(sb),
                    None => SandboxState::Nonexistent,
                })
                &&& spawned.worker.phase is Init
                &&& crate::worker::model::wf(spawned.worker)
                &&& spawned.action == Action::<S>::InitRuntime
                &&& spawned.handle.spec_id() == id
                &&& spawned.handle.spec_function_id() == *function_id
                &&& spawned.handle.spec_sandbox_id() == (match sandbox {
                    Some(sb) => Some(sb.spec_id()),
                    None => None,
                })
                &&& spawned.handle.spec_memory_accounting() == mem_accounting
            },
            Err(failed) => {
                &&& failed.sandbox == sandbox
                &&& failed.err == (match runtime {
                    Err(source) => Error::Init { stage: InitStage::RuntimeConstruction, source },
                    Ok(_) => Error::Init {
                        stage: InitStage::IssuerConstruction,
                        source: issuer->Err_0,
                    },
                })
            },
        },
{
    if let Err(source) = runtime {
        return Err(
            SpawnError {
                err: Error::Init { stage: InitStage::RuntimeConstruction, source },
                sandbox,
            },
        );
    }
    if let Err(source) = issuer {
        return Err(
            SpawnError { err: Error::Init { stage: InitStage::IssuerConstruction, source }, sandbox },
        );
    }
    let sandbox_id = match &sandbox {
        Some(sb) => Some(sb.id().clone()),
        None => None,
    };
    let (worker, action) = Worker::new(
        id,
        function_id.clone(),
        sandbox,
        snapshot_creation,
        issuer_timeout,
    );
    let handle = WorkerHandle::new(id, function_id.clone(), sandbox_id, mem_accounting);
    Ok(Spawned { worker, action, handle })
}

} // verus!
