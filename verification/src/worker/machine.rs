//! The worker as a machine: one event in, one action out.

use vstd::prelude::*;

use crate::metadata::{FunctionId, SandboxId, SandboxStats};
use crate::metrics::{Nanoseconds, Timings};
use crate::runtime::{DestroySandboxRuntimeError, Sandbox};
use crate::text::parse_u64;
use crate::worker::error::{ChannelUse, Error, ForwardFault, InitStage, SnapshotManagerUse};
use crate::worker::ids::WorkerId;
use crate::worker::messages::{
    ControlMessage, CreateSnapshotResult, OutboundMessage, PrepareSandboxResult,
};
use crate::worker::model;
use crate::worker::types::{into_sandbox, SandboxExit, SandboxState, SandboxStateRef, WorkerExit};

verus! {

/// The number of times that forwarding a response to the sink is tried.
pub const MAX_FWD_ATTEMPTS: u64 = 10;

/// How long to wait before a failed pause is tried again, in milliseconds.
pub const PAUSE_RETRY_DELAY_MS: u64 = 3000;

/// When the snapshot of a new sandbox is taken.
#[derive(Clone, Copy, Debug, PartialEq, Eq, Structural)]
pub enum SnapshotCreationTime {
    /// Not at all, unless the pool asks for it.
    Never,
    /// Before its first invocation.
    OnCreationBeforeInvoc,
    /// After its first invocation.
    OnCreationAfterInvoc,
}

/// What a sandbox is being prepared for.
#[derive(Clone, Copy, Debug, PartialEq, Eq, Structural)]
pub enum Purpose {
    /// An invocation.
    Invocation,
    /// The pool's request to have one ready.
    Control,
}

/// What a snapshot is being taken for, with what is to be reported afterwards.
#[derive(Debug)]
pub enum SnapshotPurpose {
    BeforeInvocation,
    AfterInvocation,
    Preparation { sandbox_id: SandboxId, had_snapshot: bool, stats: SandboxStats },
    Request { sandbox_id: SandboxId },
}

/// Where a worker stands: the action it waits for, and what to do next.
#[derive(Debug)]
pub enum Phase {
    /// The runtime is being initialised.
    Init,
    /// Waiting for an invocation or a control message.
    Idle,
    /// Preparation of a new sandbox: its network, itself, its CPU, its name to the pool.
    AllocateNetwork(Purpose),
    Create(Purpose),
    PinFresh(Purpose),
    Announce(Purpose),
    /// Preparation from a snapshot.
    Load(Purpose),
    PinLoaded(Purpose),
    /// Preparation of a paused sandbox.
    Resume(Purpose),
    PinResumed(Purpose),
    /// Around the snapshot that is taken before the first invocation.
    PauseForSnapshot,
    ResumeAfterSnapshot,
    /// Taking a snapshot.
    QueryPaths(SnapshotPurpose),
    TakeSnapshot(SnapshotPurpose),
    NotifySnapshot(SnapshotPurpose),
    /// Handling the invocation.
    StartMonitor,
    Issue { monitored: bool },
    Forward { monitored: bool, attempts: u64, took: Option<Nanoseconds>, err: Option<Error> },
    StopMonitor { err: Option<Error> },
    PauseAfterInvocation,
    /// Finishing the invocation, with the error it ended in if there was one.
    ReleaseSlot(Option<Error>),
    StoreTimings(Option<Error>),
    AskForWork,
    /// Answering the pool.
    PausePrepared,
    ReportPrepared,
    ReportPrepareFailure(Error),
    ReportSnapshot,
    /// Cleaning up after an error.
    CleanupPause(Error),
    CleanupShutdown(Error),
    AwaitPauseRetry(Error),
    RetryPause(Error),
    /// Retiring at the pool's request.
    Shutdown,
    /// Destroying the sandbox: what state it was in, its name if it had a snapshot, and
    /// the error that it is destroyed for, if any.
    Destroy { from: SandboxStateRef, snapshot: Option<SandboxId>, why: Option<Error> },
    NotifyRemoval { why: Option<Error> },
    ReleaseNetwork { why: Option<Error> },
    /// Leaving, with the error that the worker ends in if there is one.
    Reap(Option<Error>),
    Uncache,
    Exited,
}

/// What came of the last action.
#[derive(Debug)]
pub enum Event<S> {
    /// It succeeded.
    Done,
    /// It succeeded and took so long.
    Took(Nanoseconds),
    /// It failed, for the reason given.
    Failed(String),
    /// The network manager could not be reached, or never answered.
    NetworkManagerUnreachable(String),
    NetworkManagerSilent(String),
    /// An invocation arrived: when it got its running slot, when its source says it
    /// arrived there, and the CPU it is to run on.
    Invocation { acquired: Nanoseconds, source_ts: Option<String>, cpuset: u16 },
    /// One of the inbound channels is closed.
    Closed,
    /// A control message arrived.
    Control(ControlMessage),
    /// The runtime created a sandbox: how long that took, and what the runtime itself
    /// recorded for the creation and for setting up resources.
    Created {
        sandbox: S,
        took: Nanoseconds,
        recorded: Nanoseconds,
        setup: Nanoseconds,
    },
    /// The runtime could not create a sandbox: why, and what it recorded nevertheless.
    CreationFailed { cause: String, recorded: Nanoseconds, setup: Nanoseconds },
    /// Where the snapshot's files go.
    Paths { state: String, memory: String },
    /// No snapshot is to be taken.
    NoPaths,
    /// The Function answered: how long it took, and what the response's headers say.
    Issued {
        connection: Nanoseconds,
        invocation: Nanoseconds,
        took: Nanoseconds,
        handler: Option<String>,
        response: Option<String>,
    },
    /// The issuer failed.
    IssueFailed { cause: String, took: Nanoseconds },
    /// The issuer did not return in time.
    IssueTimedOut { took: Nanoseconds },
    /// The response that tells of a failed issuer could not be made.
    ReplyNotBuilt,
    /// The sink did not take the response in time.
    ForwardTimedOut,
    /// The sink's channel is closed.
    ForwardClosed(String),
    /// The runtime could not destroy the sandbox.
    DestroyFailed(DestroySandboxRuntimeError<S>),
    /// The pool did not take the message.
    PoolUnreachable(OutboundMessage),
}

/// Where the files of a snapshot go.
#[derive(Debug)]
pub struct SnapshotTarget {
    /// The directory of the state file.
    pub state_dir: String,
    /// The directory of the memory file.
    pub memory_dir: String,
    /// The sandbox, which both files are named after.
    pub sandbox_id: SandboxId,
}

/// What the caller of a Function is told.
#[derive(Clone, Copy, Debug, PartialEq, Eq, Structural)]
pub enum ReplyOutcome {
    /// What the Function answered.
    FromFunction,
    /// The issuer failed.
    IssuerFailed,
    /// The issuer did not return in time.
    IssuerTimedOut,
}

/// A response to be forwarded to the sink.
#[derive(Debug)]
pub struct Reply {
    pub outcome: ReplyOutcome,
    /// The source's timestamp, to be put into the response's headers.
    pub source_ts: Option<String>,
}

/// What a worker asks for.
#[derive(Debug)]
pub enum Action<S> {
    InitRuntime,
    AwaitMessage,
    AllocateNetwork,
    CreateSandbox,
    LoadSandbox,
    PauseSandbox,
    ResumeSandbox,
    SetupCpuset(u16),
    QuerySnapshotPaths,
    CreateSnapshot(SnapshotTarget),
    NotifySnapshotCreated,
    StartMonitor(SandboxStateRef),
    IssueRequest(SandboxStateRef),
    ForwardReply(Reply),
    /// Forward the same response once more.
    ForwardAgain,
    StopMonitor(SandboxStateRef, Option<Nanoseconds>),
    ReleaseSlot,
    StoreTimings(Option<SandboxId>, Timings),
    Send(OutboundMessage),
    /// Wait for so many milliseconds.
    Sleep(u64),
    ShutdownSandbox,
    DestroySandbox(S),
    NotifySnapshotRemoved(SandboxId),
    ReleaseNetwork,
    UncacheSandbox,
    Exit(WorkerExit<S>),
}

/// A worker between two actions.
#[derive(Debug)]
pub struct Worker<S> {
    pub id: WorkerId,
    /// The Function that the worker serves.
    pub function_id: FunctionId,
    /// When snapshots of new sandboxes are taken.
    pub snapshot_creation: SnapshotCreationTime,
    /// How long the issuer is waited for, in nanoseconds.
    pub issuer_timeout: Nanoseconds,
    /// The sandbox.
    pub state: SandboxState<S>,
    /// A sandbox that was created and is not yet ready.
    pub fresh: Option<S>,
    /// The state in which the current preparation started.
    pub start: SandboxStateRef,
    /// The CPU that the current preparation is for.
    pub cpuset: u16,
    /// The source's timestamp of the current invocation.
    pub source_ts: Option<String>,
    /// What was recorded for the current invocation.
    pub timings: Timings,
    pub phase: Phase,
}

/// The phase, taken out of its place.
fn take_phase(phase: &mut Phase) -> (r: Phase)
    ensures
        r == *old(phase),
{
    let mut taken = Phase::Idle;
    std::mem::swap(&mut taken, phase);
    taken
}

/// The number of nanoseconds in a header, if the header is there and holds a number.
fn header_nanos(header: &Option<String>) -> (r: Option<u64>)
    ensures
        r == model::header_nanos(*header),
{
    match header {
        None => None,
        Some(text) => parse_u64(text.as_str()),
    }
}

impl<S: Sandbox> Worker<S> {
    /// A worker that is to initialise its runtime, with the sandbox it was handed.
    pub fn new(
        id: WorkerId,
        function_id: FunctionId,
        sandbox: Option<S>,
        snapshot_creation: SnapshotCreationTime,
        issuer_timeout: Nanoseconds,
    ) -> (r: (Worker<S>, Action<S>))
        ensures
            r.0.id == id,
            r.0.function_id == function_id,
            r.0.snapshot_creation == snapshot_creation,
            r.0.issuer_timeout == issuer_timeout,
            r.0.state == (match sandbox {
                Some(sb) => SandboxState::Snapshot(sb),
                None => SandboxState::Nonexistent,
            }),
            r.0.timings == Timings::zero(),
            r.0.phase == Phase::Init,
            model::wf(r.0),
            r.1 == Action::<S>::InitRuntime,
    {
        let worker = Worker {
            id,
            function_id,
            snapshot_creation,
            issuer_timeout,
            state: SandboxState::from(sandbox),
            fresh: None,
            start: SandboxStateRef::Nonexistent,
            cpuset: 0,
            source_ts: None,
            timings: Timings::default(),
            phase: Phase::Init,
        };
        (worker, Action::InitRuntime)
    }

    /// The sandbox that the pending action is about: the one that was just created, or
    /// the one that the worker owns.
    pub fn sandbox_mut(&mut self) -> (r: Option<&mut S>)
        ensures
            match r {
                Some(sb) => if old(self).fresh is Some {
                    *sb == old(self).fresh->0 && *final(self) == (Worker {
                        fresh: Some(*final(sb)),
                        ..*old(self)
                    })
                } else {
                    old(self).state.sandbox() == Some(*sb) && *final(self) == (Worker {
                        state: SandboxState::of(old(self).state.kind(), *final(sb)),
                        ..*old(self)
                    })
                },
                None => old(self).fresh is None && old(self).state is Nonexistent && *final(self)
                    == *old(self),
            },
    {
        match &mut self.fresh {
            Some(sb) => Some(sb),
            None => match &mut self.state {
                SandboxState::Nonexistent => None,
                SandboxState::Paused(sb) => Some(sb),
                SandboxState::Snapshot(sb) => Some(sb),
                SandboxState::Running(sb) => Some(sb),
                SandboxState::Trashed(sb) => Some(sb),
            },
        }
    }

    fn take_sandbox(&mut self) -> (r: S)
        requires
            old(self).state.sandbox() is Some,
        ensures
            Some(r) == old(self).state.sandbox(),
            *final(self) == (Worker { state: SandboxState::Nonexistent, ..*old(self) }),
    {
        into_sandbox(self.state.take()).unwrap()
    }

    fn preparation(&self, result: Result<(SandboxId, bool, SandboxStats), Error>) -> (r: Action<S>)
        ensures
            r == model::preparation(*self, result),
    {
        Action::Send(
            OutboundMessage::SandboxPreparation(
                PrepareSandboxResult {
                    worker_id: self.id,
                    function_id: self.function_id.clone(),
                    result,
                },
            ),
        )
    }

    fn reap(&mut self, err: Option<Error>) -> (r: Action<S>)
        ensures
            (*final(self), r) == model::reap(*old(self), err),
    {
        self.phase = Phase::Reap(err);
        Action::Send(
            OutboundMessage::ReapMe { worker_id: self.id, function_id: self.function_id.clone() },
        )
    }

    fn exit(&mut self, err: Option<Error>) -> (r: Action<S>)
        ensures
            (*final(self), r) == model::exit(*old(self), err),
    {
        let sandbox = SandboxExit::from(self.state.take());
        self.phase = Phase::Exited;
        let result = match err {
            None => Ok(()),
            Some(err) => Err(err),
        };
        Action::Exit(WorkerExit { result, sandbox })
    }

    fn destroy(&mut self, why: Option<Error>) -> (r: Action<S>)
        ensures
            (*final(self), r) == model::destroy(*old(self), why),
    {
        let from = self.state.as_ref();
        match into_sandbox(self.state.take()) {
            None => self.reap(None),
            Some(sb) => {
                let snapshot = if sb.has_snapshot() {
                    Some(sb.id().clone())
                } else {
                    None
                };
                self.phase = Phase::Destroy { from, snapshot, why };
                Action::DestroySandbox(sb)
            },
        }
    }

    fn destroyed(&mut self, why: Option<Error>, err: Option<Error>) -> (r: Action<S>)
        ensures
            (*final(self), r) == model::destroyed(*old(self), why, err),
    {
        match err {
            None => self.reap(None),
            Some(err) => match why {
                Some(why) => self.reap(Some(why)),
                None => self.reap(Some(err)),
            },
        }
    }

    fn cleanup(&mut self, err: Error) -> (r: Action<S>)
        ensures
            (*final(self), r) == model::cleanup(*old(self), err),
    {
        if let Error::PauseSandbox(_) = &err {
            self.phase = Phase::AwaitPauseRetry(err);
            return Action::Sleep(PAUSE_RETRY_DELAY_MS);
        }
        match &self.state {
            SandboxState::Running(_) => {
                self.phase = Phase::CleanupPause(err);
                Action::PauseSandbox
            },
            SandboxState::Paused(sb) => if sb.has_snapshot() {
                self.phase = Phase::CleanupShutdown(err);
                Action::ShutdownSandbox
            } else {
                self.destroy(Some(err))
            },
            _ => self.reap(None),
        }
    }

    fn finish_request(&mut self, err: Option<Error>) -> (r: Action<S>)
        ensures
            (*final(self), r) == model::finish_request(*old(self), err),
    {
        self.phase = Phase::ReleaseSlot(err);
        Action::ReleaseSlot
    }

    fn begin_snapshot(&mut self, why: SnapshotPurpose) -> (r: Action<S>)
        ensures
            (*final(self), r) == model::begin_snapshot(*old(self), why),
    {
        self.phase = Phase::QueryPaths(why);
        Action::QuerySnapshotPaths
    }

    fn snapshot_done(&mut self, why: SnapshotPurpose, err: Option<Error>) -> (r: Action<S>)
        ensures
            (*final(self), r) == model::snapshot_done(*old(self), why, err),
    {
        match why {
            SnapshotPurpose::BeforeInvocation => {
                self.phase = Phase::ResumeAfterSnapshot;
                Action::ResumeSandbox
            },
            SnapshotPurpose::AfterInvocation => self.finish_request(None),
            SnapshotPurpose::Preparation { sandbox_id, had_snapshot, stats } => {
                self.phase = Phase::ReportPrepared;
                let has_snapshot = had_snapshot || err.is_none();
                self.preparation(Ok((sandbox_id, has_snapshot, stats)))
            },
            SnapshotPurpose::Request { sandbox_id } => {
                self.phase = Phase::ReportSnapshot;
                let result = match err {
                    None => Ok(()),
                    Some(err) => Err(err),
                };
                Action::Send(
                    OutboundMessage::SnapshotCreation(
                        CreateSnapshotResult {
                            worker_id: self.id,
                            function_id: self.function_id.clone(),
                            sandbox_id,
                            result,
                        },
                    ),
                )
            },
        }
    }

    fn prepare(&mut self, purpose: Purpose) -> (r: Action<S>)
        ensures
            (*final(self), r) == model::prepare(*old(self), purpose),
    {
        match &self.state {
            SandboxState::Nonexistent => {
                self.phase = Phase::AllocateNetwork(purpose);
                Action::AllocateNetwork
            },
            SandboxState::Snapshot(_) => {
                self.phase = Phase::Load(purpose);
                Action::LoadSandbox
            },
            _ => {
                self.phase = Phase::Resume(purpose);
                Action::ResumeSandbox
            },
        }
    }

    fn prepare_failed(&mut self, purpose: Purpose, err: Error) -> (r: Action<S>)
        ensures
            (*final(self), r) == model::prepare_failed(*old(self), purpose, err),
    {
        match purpose {
            Purpose::Invocation => self.finish_request(
                Some(Error::PrepareSandbox(Box::new(err))),
            ),
            Purpose::Control => {
                let reported = err.clone();
                self.phase = Phase::ReportPrepareFailure(Error::PrepareSandbox(Box::new(err)));
                self.preparation(Err(reported))
            },
        }
    }

    fn snapshot_due_before(&self) -> (r: bool)
        ensures
            r == model::snapshot_due_before(*self),
    {
        self.start == SandboxStateRef::Nonexistent && self.snapshot_creation
            == SnapshotCreationTime::OnCreationBeforeInvoc
    }

    fn prepared(&mut self, purpose: Purpose) -> (r: Action<S>)
        ensures
            (*final(self), r) == model::prepared(*old(self), purpose),
    {
        match purpose {
            Purpose::Control => {
                self.phase = Phase::PausePrepared;
                Action::PauseSandbox
            },
            Purpose::Invocation => if self.snapshot_due_before() {
                self.phase = Phase::PauseForSnapshot;
                Action::PauseSandbox
            } else {
                self.phase = Phase::StartMonitor;
                Action::StartMonitor(self.start)
            },
        }
    }

    fn forwarded(
        &mut self,
        monitored: bool,
        took: Option<Nanoseconds>,
        err: Option<Error>,
    ) -> (r: Action<S>)
        ensures
            (*final(self), r) == model::forwarded(*old(self), monitored, took, err),
    {
        if monitored {
            self.phase = Phase::StopMonitor { err };
            Action::StopMonitor(self.start, took)
        } else {
            self.monitor_stopped(err)
        }
    }

    fn monitor_stopped(&mut self, err: Option<Error>) -> (r: Action<S>)
        ensures
            (*final(self), r) == model::monitor_stopped(*old(self), err),
    {
        if err.is_some() {
            self.finish_request(err)
        } else {
            self.phase = Phase::PauseAfterInvocation;
            Action::PauseSandbox
        }
    }

    fn forward_failed(
        &mut self,
        monitored: bool,
        attempts: u64,
        took: Option<Nanoseconds>,
        err: Option<Error>,
        fault: Option<String>,
    ) -> (r: Action<S>)
        requires
            attempts < MAX_FWD_ATTEMPTS,
        ensures
            (*final(self), r) == model::forward_failed(
                *old(self),
                monitored,
                attempts,
                took,
                err,
                fault,
            ),
    {
        let tried: u64 = attempts + 1;
        let fault = if tried >= MAX_FWD_ATTEMPTS {
            ForwardFault::Exhausted
        } else {
            match fault {
                Some(fault) => ForwardFault::Closed(fault),
                None => {
                    self.phase = Phase::Forward { monitored, attempts: tried, took, err };
                    return Action::ForwardAgain;
                },
            }
        };
        let err = match err {
            Some(err) => err,
            None => Error::ForwardToSink(fault),
        };
        self.forwarded(monitored, took, Some(err))
    }

    fn on_idle(&mut self, e: Event<S>) -> (r: Action<S>)
        requires
            model::on_idle(*old(self), e) is Some,
        ensures
            model::on_idle(*old(self), e) == Some((*final(self), r)),
    {
        match (take_phase(&mut self.phase), e) {
            (Phase::Init, Event::Done) => {
                self.phase = Phase::Idle;
                Action::AwaitMessage
            },
            (Phase::Init, Event::Failed(source)) => self.reap(
                Some(Error::Init { stage: InitStage::RuntimeInitialization, source }),
            ),
            (Phase::Idle, Event::Invocation { acquired, source_ts, cpuset }) => {
                self.start = self.state.as_ref();
                self.cpuset = cpuset;
                self.timings.clear();
                if let Some(ts) = header_nanos(&source_ts) {
                    self.timings.queued = acquired.saturating_sub(ts);
                }
                self.source_ts = source_ts;
                self.prepare(Purpose::Invocation)
            },
            (Phase::Idle, Event::Closed) => self.reap(None),
            (Phase::Idle, Event::Control(msg)) => self.on_control(msg),
            _ => Action::AwaitMessage,
        }
    }

    fn on_control(&mut self, msg: ControlMessage) -> (r: Action<S>)
        ensures
            (*final(self), r) == model::on_control(*old(self), msg),
    {
        match msg {
            ControlMessage::ShutDown => match &self.state {
                SandboxState::Paused(sb) => if sb.has_snapshot() {
                    self.phase = Phase::Shutdown;
                    Action::ShutdownSandbox
                } else {
                    self.destroy(None)
                },
                _ => self.reap(None),
            },
            ControlMessage::DestroySandbox => self.destroy(None),
            ControlMessage::PrepareSandbox { cpuset } => {
                self.start = self.state.as_ref();
                self.cpuset = cpuset;
                self.timings.clear();
                self.prepare(Purpose::Control)
            },
            ControlMessage::CreateSnapshot { sandbox_id } => {
                self.timings.clear();
                match &self.state {
                    SandboxState::Snapshot(sb) => {
                        let sandbox_id = sb.id().clone();
                        self.snapshot_done(SnapshotPurpose::Request { sandbox_id }, None)
                    },
                    SandboxState::Paused(sb) => {
                        let sandbox_id = sb.id().clone();
                        if sb.has_snapshot() {
                            self.snapshot_done(SnapshotPurpose::Request { sandbox_id }, None)
                        } else {
                            self.begin_snapshot(SnapshotPurpose::Request { sandbox_id })
                        }
                    },
                    SandboxState::Nonexistent => self.snapshot_done(
                        SnapshotPurpose::Request { sandbox_id },
                        Some(Error::CreateSnapshotControl(SandboxStateRef::Nonexistent)),
                    ),
                    SandboxState::Running(sb) => {
                        let sandbox_id = sb.id().clone();
                        self.snapshot_done(
                            SnapshotPurpose::Request { sandbox_id },
                            Some(Error::CreateSnapshotControl(SandboxStateRef::Running)),
                        )
                    },
                    SandboxState::Trashed(sb) => {
                        let sandbox_id = sb.id().clone();
                        self.snapshot_done(
                            SnapshotPurpose::Request { sandbox_id },
                            Some(Error::CreateSnapshotControl(SandboxStateRef::Trashed)),
                        )
                    },
                }
            },
        }
    }

    fn on_create(&mut self, e: Event<S>) -> (r: Action<S>)
        requires
            model::wf(*old(self)),
            model::fits(*old(self), e),
            model::on_create(*old(self), e) is Some,
        ensures
            model::on_create(*old(self), e) == Some((*final(self), r)),
    {
        match (take_phase(&mut self.phase), e) {
            (Phase::AllocateNetwork(p), Event::Took(took)) => {
                self.timings.setup_resources = self.timings.setup_resources + took;
                self.phase = Phase::Create(p);
                Action::CreateSandbox
            },
            (Phase::AllocateNetwork(p), Event::Failed(err)) => self.prepare_failed(
                p,
                Error::Network(err),
            ),
            (Phase::AllocateNetwork(p), Event::NetworkManagerUnreachable(err)) =>
                self.prepare_failed(p, Error::Channel(ChannelUse::SendToNetworkManager, err)),
            (Phase::AllocateNetwork(p), Event::NetworkManagerSilent(err)) => self.prepare_failed(
                p,
                Error::Channel(ChannelUse::ReceiveFromNetworkManager, err),
            ),
            (Phase::Create(p), Event::Created { sandbox, took, recorded, setup }) => {
                self.fresh = Some(sandbox);
                self.timings.create_sandbox = if recorded == 0 {
                    took
                } else {
                    recorded
                };
                self.timings.setup_resources = self.timings.setup_resources + setup;
                self.phase = Phase::PinFresh(p);
                Action::SetupCpuset(self.cpuset)
            },
            (Phase::Create(p), Event::CreationFailed { cause, recorded, setup }) => {
                self.timings.create_sandbox = recorded;
                self.timings.setup_resources = self.timings.setup_resources + setup;
                self.prepare_failed(p, Error::CreateSandbox(cause))
            },
            (Phase::PinFresh(p), Event::Took(took)) => {
                self.timings.setup_resources = self.timings.setup_resources + took;
                self.phase = Phase::Announce(p);
                let sandbox_id = self.fresh.as_ref().unwrap().id().clone();
                Action::Send(OutboundMessage::SandboxId { worker_id: self.id, sandbox_id })
            },
            (Phase::PinFresh(p), Event::Failed(err)) => {
                self.fresh = None;
                self.prepare_failed(p, Error::SetupCpuset(err))
            },
            (Phase::Announce(p), Event::Done) => {
                self.state = SandboxState::Running(self.fresh.take().unwrap());
                self.prepared(p)
            },
            _ => Action::AwaitMessage,
        }
    }

    fn on_wake(&mut self, e: Event<S>) -> (r: Action<S>)
        requires
            model::wf(*old(self)),
            model::fits(*old(self), e),
            model::on_wake(*old(self), e) is Some,
        ensures
            model::on_wake(*old(self), e) == Some((*final(self), r)),
    {
        match (take_phase(&mut self.phase), e) {
            (Phase::Load(p), Event::Took(took)) => {
                let mut sb = self.take_sandbox();
                let stats = sb.stats();
                sb.set_stats(
                    SandboxStats {
                        invocations: stats.invocations,
                        restorations: stats.restorations + 1,
                    },
                );
                self.state = SandboxState::Running(sb);
                self.timings.load_sandbox = took;
                self.phase = Phase::PinLoaded(p);
                Action::SetupCpuset(self.cpuset)
            },
            (Phase::Load(p), Event::Failed(err)) => self.prepare_failed(p, Error::LoadSandbox(err)),
            (Phase::PinLoaded(p), Event::Took(took)) => {
                self.timings.setup_resources = took;
                self.prepared(p)
            },
            (Phase::PinLoaded(p), Event::Failed(err)) => self.prepare_failed(
                p,
                Error::SetupCpuset(err),
            ),
            (Phase::Resume(p), Event::Took(took)) => {
                self.timings.resume_sandbox = self.timings.resume_sandbox + took;
                self.phase = Phase::PinResumed(p);
                Action::SetupCpuset(self.cpuset)
            },
            (Phase::Resume(p), Event::Failed(err)) => self.prepare_failed(
                p,
                Error::ResumeSandbox(err),
            ),
            (Phase::PinResumed(p), Event::Took(took)) => {
                self.state = SandboxState::Running(self.take_sandbox());
                self.timings.setup_resources = self.timings.setup_resources + took;
                self.prepared(p)
            },
            (Phase::PinResumed(p), Event::Failed(err)) => self.prepare_failed(
                p,
                Error::SetupCpuset(err),
            ),
            _ => Action::AwaitMessage,
        }
    }

    fn on_snapshot(&mut self, e: Event<S>) -> (r: Action<S>)
        requires
            model::wf(*old(self)),
            model::fits(*old(self), e),
            model::on_snapshot(*old(self), e) is Some,
        ensures
            model::on_snapshot(*old(self), e) == Some((*final(self), r)),
    {
        match (take_phase(&mut self.phase), e) {
            (Phase::PauseForSnapshot, Event::Done) => {
                self.state = SandboxState::Paused(self.take_sandbox());
                self.begin_snapshot(SnapshotPurpose::BeforeInvocation)
            },
            (Phase::PauseForSnapshot, Event::Failed(err)) => self.finish_request(
                Some(Error::PauseSandbox(err)),
            ),
            (Phase::QueryPaths(why), Event::Paths { state, memory }) => {
                let sb = self.take_sandbox();
                let sandbox_id = sb.id().clone();
                self.state = SandboxState::Paused(sb);
                self.phase = Phase::TakeSnapshot(why);
                Action::CreateSnapshot(
                    SnapshotTarget { state_dir: state, memory_dir: memory, sandbox_id },
                )
            },
            (Phase::QueryPaths(why), Event::NoPaths) => self.snapshot_done(why, None),
            (Phase::QueryPaths(why), Event::Failed(err)) => self.snapshot_done(
                why,
                Some(Error::SnapshotManager { what: SnapshotManagerUse::QueryPaths, err }),
            ),
            (Phase::TakeSnapshot(why), Event::Done) => {
                self.phase = Phase::NotifySnapshot(why);
                Action::NotifySnapshotCreated
            },
            (Phase::TakeSnapshot(why), Event::Failed(err)) => self.snapshot_done(
                why,
                Some(Error::CreateSnapshot(err)),
            ),
            (Phase::NotifySnapshot(why), Event::Took(took)) => {
                self.timings.create_snapshot = took;
                self.snapshot_done(why, None)
            },
            (Phase::ResumeAfterSnapshot, Event::Took(took)) => {
                self.state = SandboxState::Running(self.take_sandbox());
                self.timings.resume_sandbox = self.timings.resume_sandbox + took;
                self.phase = Phase::StartMonitor;
                Action::StartMonitor(self.start)
            },
            (Phase::ResumeAfterSnapshot, Event::Failed(err)) => self.finish_request(
                Some(Error::PrepareSandbox(Box::new(Error::ResumeSandbox(err)))),
            ),
            _ => Action::AwaitMessage,
        }
    }

    fn on_invocation(&mut self, e: Event<S>) -> (r: Action<S>)
        requires
            model::wf(*old(self)),
            model::fits(*old(self), e),
            model::on_invocation(*old(self), e) is Some,
        ensures
            model::on_invocation(*old(self), e) == Some((*final(self), r)),
    {
        match (take_phase(&mut self.phase), e) {
            (Phase::StartMonitor, Event::Done) => {
                self.phase = Phase::Issue { monitored: true };
                Action::IssueRequest(self.start)
            },
            (Phase::StartMonitor, Event::Failed(_)) => {
                self.phase = Phase::Issue { monitored: false };
                Action::IssueRequest(self.start)
            },
            (
                Phase::Issue { monitored },
                Event::Issued { connection, invocation, took, handler, response },
            ) => {
                let mut sb = self.take_sandbox();
                let stats = sb.stats();
                sb.set_stats(
                    SandboxStats {
                        invocations: stats.invocations + 1,
                        restorations: stats.restorations,
                    },
                );
                self.state = SandboxState::Running(sb);
                self.timings.issuer_connection = connection;
                self.timings.issuer_invocation = invocation;
                self.timings.issuer = took;
                if let Some(nanos) = header_nanos(&handler) {
                    self.timings.sandbox_handler = nanos;
                }
                if let Some(nanos) = header_nanos(&response) {
                    self.timings.sandbox_response = nanos;
                }
                self.phase = Phase::Forward { monitored, attempts: 0, took: Some(took), err: None };
                self.reply(ReplyOutcome::FromFunction)
            },
            (Phase::Issue { monitored }, Event::IssueFailed { cause, took }) => {
                self.timings.issuer = took;
                self.phase = Phase::Forward {
                    monitored,
                    attempts: 0,
                    took: None,
                    err: Some(Error::HandleFunctionRequest(cause)),
                };
                self.reply(ReplyOutcome::IssuerFailed)
            },
            (Phase::Issue { monitored }, Event::IssueTimedOut { took }) => {
                self.timings.issuer = took;
                self.phase = Phase::Forward {
                    monitored,
                    attempts: 0,
                    took: None,
                    err: Some(Error::IssuerTimeout(self.issuer_timeout)),
                };
                self.reply(ReplyOutcome::IssuerTimedOut)
            },
            (Phase::Forward { monitored, attempts: _, took, err }, Event::Done) => self.forwarded(
                monitored,
                took,
                err,
            ),
            (Phase::Forward { monitored, attempts: _, took, err }, Event::ReplyNotBuilt) =>
                self.forwarded(monitored, took, err),
            (Phase::Forward { monitored, attempts, took, err }, Event::ForwardTimedOut) =>
                self.forward_failed(monitored, attempts, took, err, None),
            (Phase::Forward { monitored, attempts, took, err }, Event::ForwardClosed(fault)) =>
                self.forward_failed(monitored, attempts, took, err, Some(fault)),
            (Phase::StopMonitor { err }, Event::Done) => self.monitor_stopped(err),
            (Phase::StopMonitor { err }, Event::Failed(_)) => self.monitor_stopped(err),
            (Phase::PauseAfterInvocation, Event::Done) => {
                self.state = SandboxState::Paused(self.take_sandbox());
                if self.start == SandboxStateRef::Nonexistent && self.snapshot_creation
                    == SnapshotCreationTime::OnCreationAfterInvoc {
                    self.begin_snapshot(SnapshotPurpose::AfterInvocation)
                } else {
                    self.finish_request(None)
                }
            },
            (Phase::PauseAfterInvocation, Event::Failed(err)) => self.finish_request(
                Some(Error::PauseSandbox(err)),
            ),
            (Phase::ReleaseSlot(err), Event::Took(took)) => {
                self.timings.running_slot = took;
                self.phase = Phase::StoreTimings(err);
                Action::StoreTimings(self.sandbox_id(), self.timings)
            },
            (Phase::StoreTimings(err), Event::Done) => match err {
                Some(err) => self.cleanup(err),
                None => {
                    self.phase = Phase::AskForWork;
                    Action::Send(
                        OutboundMessage::NeedWork {
                            worker_id: self.id,
                            function_id: self.function_id.clone(),
                        },
                    )
                },
            },
            (Phase::AskForWork, Event::Done) => {
                self.phase = Phase::Idle;
                Action::AwaitMessage
            },
            _ => Action::AwaitMessage,
        }
    }

    fn reply(&self, outcome: ReplyOutcome) -> (r: Action<S>)
        ensures
            r == Action::<S>::ForwardReply(Reply { outcome, source_ts: self.source_ts }),
    {
        let source_ts = match &self.source_ts {
            None => None,
            Some(ts) => Some(ts.clone()),
        };
        Action::ForwardReply(Reply { outcome, source_ts })
    }

    fn sandbox_id(&self) -> (r: Option<SandboxId>)
        ensures
            r == (match self.state.sandbox() {
                None => None,
                Some(sb) => Some(sb.spec_id()),
            }),
    {
        match &self.state {
            SandboxState::Nonexistent => None,
            SandboxState::Paused(sb) => Some(sb.id().clone()),
            SandboxState::Snapshot(sb) => Some(sb.id().clone()),
            SandboxState::Running(sb) => Some(sb.id().clone()),
            SandboxState::Trashed(sb) => Some(sb.id().clone()),
        }
    }

    fn on_report(&mut self, e: Event<S>) -> (r: Action<S>)
        requires
            model::wf(*old(self)),
            model::on_report(*old(self), e) is Some,
        ensures
            model::on_report(*old(self), e) == Some((*final(self), r)),
    {
        match (take_phase(&mut self.phase), e) {
            (Phase::PausePrepared, Event::Done) => {
                let sb = self.take_sandbox();
                let sandbox_id = sb.id().clone();
                let had_snapshot = sb.has_snapshot();
                let stats = sb.stats();
                self.state = SandboxState::Paused(sb);
                if self.snapshot_due_before() {
                    self.begin_snapshot(
                        SnapshotPurpose::Preparation { sandbox_id, had_snapshot, stats },
                    )
                } else {
                    self.phase = Phase::ReportPrepared;
                    self.preparation(Ok((sandbox_id, had_snapshot, stats)))
                }
            },
            (Phase::PausePrepared, Event::Failed(err)) => {
                let err = Error::PauseSandbox(err);
                let reported = err.clone();
                self.phase = Phase::ReportPrepareFailure(err);
                self.preparation(Err(reported))
            },
            (Phase::ReportPrepared, Event::Done) => {
                self.phase = Phase::Idle;
                Action::AwaitMessage
            },
            (Phase::ReportPrepareFailure(err), Event::Done) => self.cleanup(err),
            (Phase::ReportSnapshot, Event::Done) => {
                self.phase = Phase::Idle;
                Action::AwaitMessage
            },
            _ => Action::AwaitMessage,
        }
    }

    fn on_teardown(&mut self, e: Event<S>) -> (r: Action<S>)
        requires
            model::wf(*old(self)),
            model::on_teardown(*old(self), e) is Some,
        ensures
            model::on_teardown(*old(self), e) == Some((*final(self), r)),
    {
        match (take_phase(&mut self.phase), e) {
            (Phase::CleanupPause(err), Event::Done) => {
                let sb = self.take_sandbox();
                let has_snapshot = sb.has_snapshot();
                self.state = SandboxState::Paused(sb);
                if has_snapshot {
                    self.phase = Phase::CleanupShutdown(err);
                    Action::ShutdownSandbox
                } else {
                    self.destroy(Some(err))
                }
            },
            (Phase::CleanupPause(err), Event::Failed(_)) => {
                self.state = SandboxState::Trashed(self.take_sandbox());
                self.reap(Some(err))
            },
            (Phase::CleanupShutdown(_), Event::Done) => {
                self.state = SandboxState::Snapshot(self.take_sandbox());
                self.reap(None)
            },
            (Phase::CleanupShutdown(err), Event::Failed(_)) => {
                self.state = SandboxState::Trashed(self.take_sandbox());
                self.reap(Some(err))
            },
            (Phase::AwaitPauseRetry(err), Event::Done) => {
                self.phase = Phase::RetryPause(err);
                Action::PauseSandbox
            },
            (Phase::RetryPause(err), Event::Done) => {
                self.state = SandboxState::Paused(self.take_sandbox());
                self.destroy(Some(err))
            },
            (Phase::RetryPause(err), Event::Failed(_)) => self.destroy(Some(err)),
            (Phase::Shutdown, Event::Done) => {
                self.state = SandboxState::Snapshot(self.take_sandbox());
                self.reap(None)
            },
            (Phase::Shutdown, Event::Failed(err)) => {
                self.state = SandboxState::Trashed(self.take_sandbox());
                self.reap(Some(Error::ShutdownSandbox(err)))
            },
            (Phase::Destroy { from: _, snapshot, why }, Event::Done) => match snapshot {
                Some(id) => {
                    self.phase = Phase::NotifyRemoval { why };
                    Action::NotifySnapshotRemoved(id)
                },
                None => {
                    self.phase = Phase::ReleaseNetwork { why };
                    Action::ReleaseNetwork
                },
            },
            (Phase::Destroy { from: _, snapshot: _, why }, Event::DestroyFailed(failed)) => {
                let (sandbox, err) = failed.into_parts();
                self.state = SandboxState::Trashed(sandbox);
                self.destroyed(why, Some(Error::DestroySandbox(err)))
            },
            (Phase::NotifyRemoval { why }, Event::Done) => {
                self.phase = Phase::ReleaseNetwork { why };
                Action::ReleaseNetwork
            },
            (Phase::NotifyRemoval { why }, Event::Failed(_)) => {
                self.phase = Phase::ReleaseNetwork { why };
                Action::ReleaseNetwork
            },
            (Phase::ReleaseNetwork { why }, Event::Done) => self.destroyed(why, None),
            (Phase::ReleaseNetwork { why }, Event::Failed(err)) => self.destroyed(
                why,
                Some(Error::Network(err)),
            ),
            (Phase::Reap(err), Event::Done) => match err {
                Some(err) => self.exit(Some(err)),
                None => match &self.state {
                    SandboxState::Snapshot(_) => {
                        self.phase = Phase::Uncache;
                        Action::UncacheSandbox
                    },
                    _ => self.exit(None),
                },
            },
            (Phase::Uncache, Event::Done) => self.exit(None),
            (Phase::Uncache, Event::Failed(_)) => self.exit(None),
            _ => Action::AwaitMessage,
        }
    }

    /// Whether an event can arrive now, and be taken: it answers the pending action, no
    /// counter overflows, and the sandbox is in a state to leave in if the worker leaves.
    pub fn accepts(&self, e: &Event<S>) -> (r: bool)
        requires
            model::wf(*self),
        ensures
            r == model::accepts(*self, *e),
    {
        match (&self.phase, e) {
            (Phase::Announce(_), Event::PoolUnreachable(_))
            | (Phase::AskForWork, Event::PoolUnreachable(_))
            | (Phase::ReportPrepared, Event::PoolUnreachable(_))
            | (Phase::ReportPrepareFailure(_), Event::PoolUnreachable(_))
            | (Phase::ReportSnapshot, Event::PoolUnreachable(_))
            | (Phase::Reap(_), Event::PoolUnreachable(_)) => true,
            (Phase::Init, Event::Done)
            | (Phase::AskForWork, Event::Done)
            | (Phase::PauseForSnapshot, Event::Done)
            | (Phase::TakeSnapshot(_), Event::Done)
            | (Phase::StartMonitor, Event::Done)
            | (Phase::Forward { .. }, Event::Done)
            | (Phase::StopMonitor { .. }, Event::Done)
            | (Phase::PauseAfterInvocation, Event::Done)
            | (Phase::StoreTimings(_), Event::Done)
            | (Phase::PausePrepared, Event::Done)
            | (Phase::ReportPrepared, Event::Done)
            | (Phase::ReportPrepareFailure(_), Event::Done)
            | (Phase::ReportSnapshot, Event::Done)
            | (Phase::CleanupPause(_), Event::Done)
            | (Phase::CleanupShutdown(_), Event::Done)
            | (Phase::AwaitPauseRetry(_), Event::Done)
            | (Phase::RetryPause(_), Event::Done)
            | (Phase::Shutdown, Event::Done)
            | (Phase::Destroy { .. }, Event::Done)
            | (Phase::NotifyRemoval { .. }, Event::Done)
            | (Phase::ReleaseNetwork { .. }, Event::Done)
            | (Phase::Uncache, Event::Done) => true,
            (Phase::Init, Event::Failed(_))
            | (Phase::AllocateNetwork(_), Event::Failed(_))
            | (Phase::PinFresh(_), Event::Failed(_))
            | (Phase::Load(_), Event::Failed(_))
            | (Phase::PinLoaded(_), Event::Failed(_))
            | (Phase::Resume(_), Event::Failed(_))
            | (Phase::PinResumed(_), Event::Failed(_))
            | (Phase::PauseForSnapshot, Event::Failed(_))
            | (Phase::ResumeAfterSnapshot, Event::Failed(_))
            | (Phase::QueryPaths(_), Event::Failed(_))
            | (Phase::TakeSnapshot(_), Event::Failed(_))
            | (Phase::StartMonitor, Event::Failed(_))
            | (Phase::StopMonitor { .. }, Event::Failed(_))
            | (Phase::PauseAfterInvocation, Event::Failed(_))
            | (Phase::PausePrepared, Event::Failed(_))
            | (Phase::CleanupPause(_), Event::Failed(_))
            | (Phase::CleanupShutdown(_), Event::Failed(_))
            | (Phase::RetryPause(_), Event::Failed(_))
            | (Phase::Shutdown, Event::Failed(_))
            | (Phase::NotifyRemoval { .. }, Event::Failed(_))
            | (Phase::ReleaseNetwork { .. }, Event::Failed(_))
            | (Phase::Uncache, Event::Failed(_)) => true,
            (Phase::AllocateNetwork(_), Event::NetworkManagerUnreachable(_))
            | (Phase::AllocateNetwork(_), Event::NetworkManagerSilent(_))
            | (Phase::QueryPaths(_), Event::Paths { .. })
            | (Phase::QueryPaths(_), Event::NoPaths)
            | (Phase::Issue { .. }, Event::IssueFailed { .. })
            | (Phase::Issue { .. }, Event::IssueTimedOut { .. })
            | (Phase::Forward { .. }, Event::ForwardTimedOut)
            | (Phase::Forward { .. }, Event::ForwardClosed(_))
            | (Phase::PinLoaded(_), Event::Took(_))
            | (Phase::NotifySnapshot(_), Event::Took(_))
            | (Phase::ReleaseSlot(_), Event::Took(_))
            | (Phase::Destroy { .. }, Event::DestroyFailed(_))
            | (Phase::Idle, Event::Invocation { .. })
            | (Phase::Idle, Event::Closed)
            | (Phase::Idle, Event::Control(_)) => true,
            (Phase::AllocateNetwork(_), Event::Took(took))
            | (Phase::PinFresh(_), Event::Took(took))
            | (Phase::PinResumed(_), Event::Took(took)) => self.timings.setup_resources
                <= u64::MAX - *took,
            (Phase::Create(_), Event::Created { setup, .. })
            | (Phase::Create(_), Event::CreationFailed { setup, .. }) => self.timings.setup_resources
                <= u64::MAX - *setup,
            (Phase::Resume(_), Event::Took(took))
            | (Phase::ResumeAfterSnapshot, Event::Took(took)) => self.timings.resume_sandbox
                <= u64::MAX - *took,
            (Phase::Load(_), Event::Took(_)) => match &self.state {
                SandboxState::Snapshot(sb) => sb.stats().restorations < u64::MAX,
                _ => false,
            },
            (Phase::Issue { .. }, Event::Issued { .. }) => match &self.state {
                SandboxState::Running(sb) => sb.stats().invocations < u64::MAX,
                _ => false,
            },
            (Phase::Announce(Purpose::Control), Event::Done) => true,
            (Phase::Announce(Purpose::Invocation), Event::Done) => !self.snapshot_due_before()
                || match &self.fresh {
                Some(sb) => !sb.has_snapshot(),
                None => false,
            },
            (Phase::Forward { attempts, err, .. }, Event::ReplyNotBuilt) => err.is_some()
                && *attempts == 0,
            (Phase::Reap(Some(_)), Event::Done) => true,
            (Phase::Reap(None), Event::Done) => match &self.state {
                SandboxState::Nonexistent => true,
                SandboxState::Snapshot(sb) => sb.has_snapshot(),
                _ => false,
            },
            _ => false,
        }
    }

    /// Takes what came of the last action, and returns the next one.
    pub fn step(&mut self, e: Event<S>) -> (r: Action<S>)
        requires
            model::wf(*old(self)),
            model::accepts(*old(self), e),
        ensures
            model::next(*old(self), e) == Some((*final(self), r)),
            model::wf(*final(self)),
    {
        proof {
            crate::worker::laws::lemma_next_is_wf(*self, e);
        }
        if let Event::PoolUnreachable(msg) = e {
            return Action::Send(msg);
        }
        match &self.phase {
            Phase::Init | Phase::Idle => self.on_idle(e),
            Phase::AllocateNetwork(_)
            | Phase::Create(_)
            | Phase::PinFresh(_)
            | Phase::Announce(_) => self.on_create(e),
            Phase::Load(_)
            | Phase::PinLoaded(_)
            | Phase::Resume(_)
            | Phase::PinResumed(_) => self.on_wake(e),
            Phase::PauseForSnapshot
            | Phase::ResumeAfterSnapshot
            | Phase::QueryPaths(_)
            | Phase::TakeSnapshot(_)
            | Phase::NotifySnapshot(_) => self.on_snapshot(e),
            Phase::StartMonitor
            | Phase::Issue { .. }
            | Phase::Forward { .. }
            | Phase::StopMonitor { .. }
            | Phase::PauseAfterInvocation
            | Phase::ReleaseSlot(_)
            | Phase::StoreTimings(_)
            | Phase::AskForWork => self.on_invocation(e),
            Phase::PausePrepared
            | Phase::ReportPrepared
            | Phase::ReportPrepareFailure(_)
            | Phase::ReportSnapshot => self.on_report(e),
            _ => self.on_teardown(e),
        }
    }
}

} // verus!
