//! Why a worker, or something it asked for, failed.

use vstd::prelude::*;

use crate::text::{concat, concat3, show_duration, show_u128};
use crate::worker::ids::{show_id, WorkerId};
use crate::worker::machine::MAX_FWD_ATTEMPTS;
use crate::worker::types::SandboxStateRef;

verus! {

/// The part of a worker that could not be initialised.
#[derive(Clone, Copy, Debug, PartialEq, Eq, Structural)]
pub enum InitStage {
    RuntimeConstruction,
    IssuerConstruction,
    RuntimeInitialization,
}

/// The use of an internal channel that failed.
#[derive(Clone, Copy, Debug, PartialEq, Eq, Structural)]
pub enum ChannelUse {
    SendToNetworkManager,
    ReceiveFromNetworkManager,
    ForwardToSink,
    SendPrepareSandbox,
    SendCreateSnapshot,
}

/// What was asked of the snapshot manager.
#[derive(Clone, Copy, Debug, PartialEq, Eq, Structural)]
pub enum SnapshotManagerUse {
    QueryPaths,
    InitializeMonitor,
    NotifyCreation,
    NotifyRemoval,
}

/// Why a response never reached the sink.
#[derive(Debug)]
pub enum ForwardFault {
    /// The sink did not take it in as many attempts as are made.
    Exhausted,
    /// The sink's channel is closed.
    Closed(String),
}

/// A failure of a worker. A `String` holds the cause, as it was reported.
#[derive(Debug)]
pub enum Error {
    Init { stage: InitStage, source: String },
    Forward(WorkerId, String),
    ShutDown(WorkerId, String),
    Channel(ChannelUse, String),
    Network(String),
    PrepareSandbox(Box<Error>),
    CreateSandbox(String),
    LoadSandbox(String),
    PauseSandbox(String),
    ResumeSandbox(String),
    SetupCpuset(String),
    CreateSnapshot(String),
    ShutdownSandbox(String),
    DestroySandbox(String),
    SnapshotManager { what: SnapshotManagerUse, err: String },
    CreateSnapshotControl(SandboxStateRef),
    CreateState(String),
    HandleFunctionRequest(String),
    /// The issuer was given up on after so many nanoseconds.
    IssuerTimeout(u64),
    ForwardToSink(ForwardFault),
}

impl Clone for ForwardFault {
    fn clone(&self) -> (r: ForwardFault)
        ensures
            r == *self,
    {
        match self {
            ForwardFault::Exhausted => ForwardFault::Exhausted,
            ForwardFault::Closed(err) => ForwardFault::Closed(err.clone()),
        }
    }
}

impl Clone for Error {
    fn clone(&self) -> (r: Error)
        ensures
            r == *self,
        decreases self,
    {
        match self {
            Error::Init { stage, source } => Error::Init { stage: *stage, source: source.clone() },
            Error::Forward(id, err) => Error::Forward(*id, err.clone()),
            Error::ShutDown(id, err) => Error::ShutDown(*id, err.clone()),
            Error::Channel(what, err) => Error::Channel(*what, err.clone()),
            Error::Network(err) => Error::Network(err.clone()),
            Error::PrepareSandbox(err) => Error::PrepareSandbox(Box::new((&**err).clone())),
            Error::CreateSandbox(err) => Error::CreateSandbox(err.clone()),
            Error::LoadSandbox(err) => Error::LoadSandbox(err.clone()),
            Error::PauseSandbox(err) => Error::PauseSandbox(err.clone()),
            Error::ResumeSandbox(err) => Error::ResumeSandbox(err.clone()),
            Error::SetupCpuset(err) => Error::SetupCpuset(err.clone()),
            Error::CreateSnapshot(err) => Error::CreateSnapshot(err.clone()),
            Error::ShutdownSandbox(err) => Error::ShutdownSandbox(err.clone()),
            Error::DestroySandbox(err) => Error::DestroySandbox(err.clone()),
            Error::SnapshotManager { what, err } => Error::SnapshotManager {
                what: *what,
                err: err.clone(),
            },
            Error::CreateSnapshotControl(state) => Error::CreateSnapshotControl(*state),
            Error::CreateState(err) => Error::CreateState(err.clone()),
            Error::HandleFunctionRequest(err) => Error::HandleFunctionRequest(err.clone()),
            Error::IssuerTimeout(after) => Error::IssuerTimeout(*after),
            Error::ForwardToSink(fault) => Error::ForwardToSink(fault.clone()),
        }
    }
}

impl ForwardFault {
    /// What happened to the sink's channel, in words.
    pub open spec fn text(self) -> Seq<char> {
        match self {
            ForwardFault::Exhausted => "Reached maximum number of attempts ("@
                + crate::text::decimal(MAX_FWD_ATTEMPTS as nat) + ")"@,
            ForwardFault::Closed(err) => err@,
        }
    }

    /// What happened to the sink's channel, in words.
    pub fn message(&self) -> (r: String)
        ensures
            r@ == self.text(),
    {
        match self {
            ForwardFault::Exhausted => concat3(
                "Reached maximum number of attempts (",
                show_u128(MAX_FWD_ATTEMPTS as u128).as_str(),
                ")",
            ),
            ForwardFault::Closed(err) => err.clone(),
        }
    }

    /// The failure of the sink's channel that a response was lost for.
    pub fn cause(&self) -> (r: Error)
        ensures
            r is Channel,
            r->Channel_0 == ChannelUse::ForwardToSink,
            r->Channel_1@ == self.text(),
    {
        Error::Channel(ChannelUse::ForwardToSink, self.message())
    }
}

impl InitStage {
    /// The part in words.
    pub open spec fn text(self) -> Seq<char> {
        match self {
            InitStage::RuntimeConstruction => "runtime construction"@,
            InitStage::IssuerConstruction => "request issuer construction"@,
            InitStage::RuntimeInitialization => "runtime initialization"@,
        }
    }

    fn as_str(&self) -> (r: &'static str)
        ensures
            r@ == self.text(),
    {
        match self {
            InitStage::RuntimeConstruction => "runtime construction",
            InitStage::IssuerConstruction => "request issuer construction",
            InitStage::RuntimeInitialization => "runtime initialization",
        }
    }
}

impl ChannelUse {
    /// The use in words.
    pub open spec fn text(self) -> Seq<char> {
        match self {
            ChannelUse::SendToNetworkManager => "sending to NetworkManager over mpsc"@,
            ChannelUse::ReceiveFromNetworkManager =>
                "receiving from NetworkManager over oneshot"@,
            ChannelUse::ForwardToSink => "forwarding response to Sink over mpsc"@,
            ChannelUse::SendPrepareSandbox => "sending ControlMessage::PrepareSandbox to Worker"@,
            ChannelUse::SendCreateSnapshot => "sending ControlMessage::CreateSnapshot to Worker"@,
        }
    }

    fn as_str(&self) -> (r: &'static str)
        ensures
            r@ == self.text(),
    {
        match self {
            ChannelUse::SendToNetworkManager => "sending to NetworkManager over mpsc",
            ChannelUse::ReceiveFromNetworkManager => "receiving from NetworkManager over oneshot",
            ChannelUse::ForwardToSink => "forwarding response to Sink over mpsc",
            ChannelUse::SendPrepareSandbox => "sending ControlMessage::PrepareSandbox to Worker",
            ChannelUse::SendCreateSnapshot => "sending ControlMessage::CreateSnapshot to Worker",
        }
    }
}

impl SnapshotManagerUse {
    /// What failed, in words.
    pub open spec fn text(self) -> Seq<char> {
        match self {
            SnapshotManagerUse::QueryPaths => "failed to query paths"@,
            SnapshotManagerUse::InitializeMonitor => "failed to initialize PerformanceMonitor"@,
            SnapshotManagerUse::NotifyCreation =>
                "failed to notify SnapshotManager of new snapshot"@,
            SnapshotManagerUse::NotifyRemoval =>
                "failed to notify SnapshotManager of snapshot destruction"@,
        }
    }

    fn as_str(&self) -> (r: &'static str)
        ensures
            r@ == self.text(),
    {
        match self {
            SnapshotManagerUse::QueryPaths => "failed to query paths",
            SnapshotManagerUse::InitializeMonitor => "failed to initialize PerformanceMonitor",
            SnapshotManagerUse::NotifyCreation =>
                "failed to notify SnapshotManager of new snapshot",
            SnapshotManagerUse::NotifyRemoval =>
                "failed to notify SnapshotManager of snapshot destruction",
        }
    }
}

/// The name of a kind of sandbox state.
pub open spec fn state_name(state: SandboxStateRef) -> Seq<char> {
    match state {
        SandboxStateRef::Nonexistent => "Nonexistent"@,
        SandboxStateRef::Paused => "Paused"@,
        SandboxStateRef::Snapshot => "Snapshot"@,
        SandboxStateRef::Running => "Running"@,
        SandboxStateRef::Trashed => "Trashed"@,
    }
}

fn name_of_state(state: SandboxStateRef) -> (r: &'static str)
    ensures
        r@ == state_name(state),
{
    match state {
        SandboxStateRef::Nonexistent => "Nonexistent",
        SandboxStateRef::Paused => "Paused",
        SandboxStateRef::Snapshot => "Snapshot",
        SandboxStateRef::Running => "Running",
        SandboxStateRef::Trashed => "Trashed",
    }
}

impl Error {
    /// The error in words, without its cause.
    pub open spec fn text(self) -> Seq<char> {
        match self {
            Error::Init { stage, .. } => "failed to initialize Worker: "@ + stage.text(),
            Error::Forward(id, err) => "failed to forward Request to Worker `"@
                + crate::worker::ids::shown_id(id) + "`: "@ + err@,
            Error::ShutDown(id, err) => "failed to send ShutDown message to Worker `"@
                + crate::worker::ids::shown_id(id) + "`: "@ + err@,
            Error::Channel(what, _) => "internal channel failure: "@ + what.text(),
            Error::Network(_) => "error while managing networking resources"@,
            Error::PrepareSandbox(_) => "failed to prepare the sandbox"@,
            Error::CreateSandbox(_) => "runtime failed to create new sandbox"@,
            Error::LoadSandbox(_) => "runtime failed to load sandbox"@,
            Error::PauseSandbox(_) => "runtime failed to pause sandbox"@,
            Error::ResumeSandbox(_) => "runtime failed to resume sandbox"@,
            Error::SetupCpuset(_) => "runtime failed to setup cpuset"@,
            Error::CreateSnapshot(_) => "runtime failed to create snapshot for sandbox"@,
            Error::ShutdownSandbox(_) => "runtime failed to shut the sandbox down"@,
            Error::DestroySandbox(_) => "runtime failed to destroy the sandbox"@,
            Error::SnapshotManager { what, .. } => "snapshot manager error: "@ + what.text(),
            Error::CreateSnapshotControl(state) =>
                "failed to handle control-plane snapshotting request: "@
                + "cannot create snapshot of SandboxState::"@ + state_name(state),
            Error::CreateState(_) => "failed to create sandbox snapshot state"@,
            Error::HandleFunctionRequest(_) => "failed to handle the function request"@,
            Error::IssuerTimeout(after) => "stopped awaiting RequestIssuer after "@
                + crate::text::shown_duration(after),
            Error::ForwardToSink(_) => "failed to forward Function's Response to Sink"@,
        }
    }

    /// The error in words, without its cause.
    pub fn message(&self) -> (r: String)
        ensures
            r@ == self.text(),
    {
        match self {
            Error::Init { stage, .. } => concat("failed to initialize Worker: ", stage.as_str()),
            Error::Forward(id, err) => concat(
                concat3(
                    "failed to forward Request to Worker `",
                    show_id(*id).as_str(),
                    "`: ",
                ).as_str(),
                err.as_str(),
            ),
            Error::ShutDown(id, err) => concat(
                concat3(
                    "failed to send ShutDown message to Worker `",
                    show_id(*id).as_str(),
                    "`: ",
                ).as_str(),
                err.as_str(),
            ),
            Error::Channel(what, _) => concat("internal channel failure: ", what.as_str()),
            Error::Network(_) => "error while managing networking resources".to_owned(),
            Error::PrepareSandbox(_) => "failed to prepare the sandbox".to_owned(),
            Error::CreateSandbox(_) => "runtime failed to create new sandbox".to_owned(),
            Error::LoadSandbox(_) => "runtime failed to load sandbox".to_owned(),
            Error::PauseSandbox(_) => "runtime failed to pause sandbox".to_owned(),
            Error::ResumeSandbox(_) => "runtime failed to resume sandbox".to_owned(),
            Error::SetupCpuset(_) => "runtime failed to setup cpuset".to_owned(),
            Error::CreateSnapshot(_) => "runtime failed to create snapshot for sandbox".to_owned(),
            Error::ShutdownSandbox(_) => "runtime failed to shut the sandbox down".to_owned(),
            Error::DestroySandbox(_) => "runtime failed to destroy the sandbox".to_owned(),
            Error::SnapshotManager { what, .. } => concat(
                "snapshot manager error: ",
                what.as_str(),
            ),
            Error::CreateSnapshotControl(state) => concat3(
                "failed to handle control-plane snapshotting request: ",
                "cannot create snapshot of SandboxState::",
                name_of_state(*state),
            ),
            Error::CreateState(_) => "failed to create sandbox snapshot state".to_owned(),
            Error::HandleFunctionRequest(_) => "failed to handle the function request".to_owned(),
            Error::IssuerTimeout(after) => concat(
                "stopped awaiting RequestIssuer after ",
                show_duration(*after).as_str(),
            ),
            Error::ForwardToSink(_) => "failed to forward Function's Response to Sink".to_owned(),
        }
    }
}

/// A worker could not be started; the sandbox it was to own comes back.
#[derive(Debug)]
pub struct SpawnError<S> {
    pub err: Error,
    pub sandbox: Option<S>,
}

impl<S> SpawnError<S> {
    /// The error in words.
    pub fn message(&self) -> (r: String)
        ensures
            r@ == "Worker (sync) initialization error: "@ + self.err.text(),
    {
        concat("Worker (sync) initialization error: ", self.err.message().as_str())
    }
}

} // verus!
