//! What each step of a worker does.

use vstd::prelude::*;

use crate::metadata::{SandboxId, SandboxStats};
use crate::metrics::{Nanoseconds, Timings};
use crate::runtime::Sandbox;
use crate::worker::error::{ChannelUse, Error, ForwardFault, InitStage, SnapshotManagerUse};
use crate::worker::machine::{
    Action, Event, Phase, Purpose, Reply, ReplyOutcome, SnapshotCreationTime, SnapshotPurpose,
    SnapshotTarget, Worker, MAX_FWD_ATTEMPTS, PAUSE_RETRY_DELAY_MS,
};
use crate::worker::messages::{
    ControlMessage, CreateSnapshotResult, OutboundMessage, PrepareSandboxResult,
};
use crate::worker::types::{SandboxExit, SandboxState, SandboxStateRef, WorkerExit};

verus! {

/// A worker after a step, and the action it asks for.
pub type Next<S> = (Worker<S>, Action<S>);

/// The worker goes on to `phase`.
pub open spec fn enter<S>(w: Worker<S>, phase: Phase) -> Worker<S> {
    Worker { phase, ..w }
}

/// The worker tells the pool what came of a preparation.
pub open spec fn preparation<S>(
    w: Worker<S>,
    result: Result<(SandboxId, bool, SandboxStats), Error>,
) -> Action<S> {
    Action::Send(
        OutboundMessage::SandboxPreparation(
            PrepareSandboxResult { worker_id: w.id, function_id: w.function_id, result },
        ),
    )
}

/// The worker asks the pool for work.
pub open spec fn need_work<S>(w: Worker<S>) -> OutboundMessage {
    OutboundMessage::NeedWork { worker_id: w.id, function_id: w.function_id }
}

/// The worker leaves, and first tells the pool.
pub open spec fn reap<S>(w: Worker<S>, err: Option<Error>) -> Next<S> {
    (
        enter(w, Phase::Reap(err)),
        Action::Send(OutboundMessage::ReapMe { worker_id: w.id, function_id: w.function_id }),
    )
}

/// The worker is gone; what state its sandbox is in decides what becomes of it.
pub open spec fn exit<S>(w: Worker<S>, err: Option<Error>) -> Next<S> {
    (
        Worker { state: SandboxState::Nonexistent, phase: Phase::Exited, ..w },
        Action::Exit(
            WorkerExit {
                result: match err {
                    None => Ok(()),
                    Some(err) => Err(err),
                },
                sandbox: SandboxExit::of(w.state),
            },
        ),
    )
}

/// The sandbox is destroyed, for the error `why` or at the pool's request. If there is
/// none the worker leaves at once.
pub open spec fn destroy<S: Sandbox>(w: Worker<S>, why: Option<Error>) -> Next<S> {
    match w.state.sandbox() {
        None => reap(w, None),
        Some(sb) => (
            Worker {
                state: SandboxState::Nonexistent,
                phase: Phase::Destroy {
                    from: w.state.kind(),
                    snapshot: if sb.spec_has_snapshot() {
                        Some(sb.spec_id())
                    } else {
                        None
                    },
                    why,
                },
                ..w
            },
            Action::DestroySandbox(sb),
        ),
    }
}

/// The destruction is over. The error that it was done for outlives its own.
pub open spec fn destroyed<S>(w: Worker<S>, why: Option<Error>, err: Option<Error>) -> Next<S> {
    reap(
        w,
        if err is None {
            None
        } else if why is Some {
            why
        } else {
            err
        },
    )
}

/// What is done about an error that an invocation or a preparation ended in: the sandbox
/// is brought to a snapshot if it has one, and destroyed otherwise.
pub open spec fn cleanup<S: Sandbox>(w: Worker<S>, err: Error) -> Next<S> {
    match err {
        Error::PauseSandbox(_) => (
            enter(w, Phase::AwaitPauseRetry(err)),
            Action::Sleep(PAUSE_RETRY_DELAY_MS),
        ),
        _ => match w.state {
            SandboxState::Running(_) => (enter(w, Phase::CleanupPause(err)), Action::PauseSandbox),
            SandboxState::Paused(sb) => if sb.spec_has_snapshot() {
                (enter(w, Phase::CleanupShutdown(err)), Action::ShutdownSandbox)
            } else {
                destroy(w, Some(err))
            },
            _ => reap(w, None),
        },
    }
}

/// The invocation is over: its running slot is released, whatever it ended in.
pub open spec fn finish_request<S>(w: Worker<S>, err: Option<Error>) -> Next<S> {
    (enter(w, Phase::ReleaseSlot(err)), Action::ReleaseSlot)
}

/// A snapshot is taken.
pub open spec fn begin_snapshot<S>(w: Worker<S>, why: SnapshotPurpose) -> Next<S> {
    (enter(w, Phase::QueryPaths(why)), Action::QuerySnapshotPaths)
}

/// Taking a snapshot is over, or was not wanted; an error is never fatal.
pub open spec fn snapshot_done<S>(w: Worker<S>, why: SnapshotPurpose, err: Option<Error>) -> Next<
    S,
> {
    match why {
        SnapshotPurpose::BeforeInvocation => (
            enter(w, Phase::ResumeAfterSnapshot),
            Action::ResumeSandbox,
        ),
        SnapshotPurpose::AfterInvocation => finish_request(w, None),
        SnapshotPurpose::Preparation { sandbox_id, had_snapshot, stats } => (
            enter(w, Phase::ReportPrepared),
            preparation(w, Ok((sandbox_id, had_snapshot || err is None, stats))),
        ),
        SnapshotPurpose::Request { sandbox_id } => (
            enter(w, Phase::ReportSnapshot),
            Action::Send(
                OutboundMessage::SnapshotCreation(
                    CreateSnapshotResult {
                        worker_id: w.id,
                        function_id: w.function_id,
                        sandbox_id,
                        result: match err {
                            None => Ok(()),
                            Some(err) => Err(err),
                        },
                    },
                ),
            ),
        ),
    }
}

/// Preparation starts: a sandbox is created, loaded or resumed, as the state has it.
pub open spec fn prepare<S>(w: Worker<S>, purpose: Purpose) -> Next<S> {
    match w.state {
        SandboxState::Nonexistent => (
            enter(w, Phase::AllocateNetwork(purpose)),
            Action::AllocateNetwork,
        ),
        SandboxState::Snapshot(_) => (enter(w, Phase::Load(purpose)), Action::LoadSandbox),
        _ => (enter(w, Phase::Resume(purpose)), Action::ResumeSandbox),
    }
}

/// Preparation failed.
pub open spec fn prepare_failed<S>(w: Worker<S>, purpose: Purpose, err: Error) -> Next<S> {
    match purpose {
        Purpose::Invocation => finish_request(w, Some(Error::PrepareSandbox(Box::new(err)))),
        Purpose::Control => (
            enter(w, Phase::ReportPrepareFailure(Error::PrepareSandbox(Box::new(err)))),
            preparation(w, Err(err)),
        ),
    }
}

/// The sandbox was just created, and a snapshot is due before its first invocation.
pub open spec fn snapshot_due_before<S>(w: Worker<S>) -> bool {
    w.start == SandboxStateRef::Nonexistent && w.snapshot_creation
        == SnapshotCreationTime::OnCreationBeforeInvoc
}

/// The sandbox was just created, and a snapshot is due after its first invocation.
pub open spec fn snapshot_due_after<S>(w: Worker<S>) -> bool {
    w.start == SandboxStateRef::Nonexistent && w.snapshot_creation
        == SnapshotCreationTime::OnCreationAfterInvoc
}

/// Preparation succeeded, and the sandbox is running.
pub open spec fn prepared<S>(w: Worker<S>, purpose: Purpose) -> Next<S> {
    match purpose {
        Purpose::Control => (enter(w, Phase::PausePrepared), Action::PauseSandbox),
        Purpose::Invocation => if snapshot_due_before(w) {
            (enter(w, Phase::PauseForSnapshot), Action::PauseSandbox)
        } else {
            (enter(w, Phase::StartMonitor), Action::StartMonitor(w.start))
        },
    }
}

/// The response was forwarded, or given up on.
pub open spec fn forwarded<S>(
    w: Worker<S>,
    monitored: bool,
    took: Option<Nanoseconds>,
    err: Option<Error>,
) -> Next<S> {
    if monitored {
        (enter(w, Phase::StopMonitor { err }), Action::StopMonitor(w.start, took))
    } else {
        monitor_stopped(w, err)
    }
}

/// The monitor is off. Only a faultless invocation has its sandbox paused.
pub open spec fn monitor_stopped<S>(w: Worker<S>, err: Option<Error>) -> Next<S> {
    if err is Some {
        finish_request(w, err)
    } else {
        (enter(w, Phase::PauseAfterInvocation), Action::PauseSandbox)
    }
}

/// An attempt to forward the response failed; `fault` tells why if the sink is closed.
pub open spec fn forward_failed<S>(
    w: Worker<S>,
    monitored: bool,
    attempts: u64,
    took: Option<Nanoseconds>,
    err: Option<Error>,
    fault: Option<String>,
) -> Next<S> {
    let tried = attempts + 1;
    if tried < MAX_FWD_ATTEMPTS && fault is None {
        (
            enter(w, Phase::Forward { monitored, attempts: tried as u64, took, err }),
            Action::ForwardAgain,
        )
    } else {
        forwarded(
            w,
            monitored,
            took,
            if err is Some {
                err
            } else if tried >= MAX_FWD_ATTEMPTS {
                Some(Error::ForwardToSink(ForwardFault::Exhausted))
            } else {
                Some(Error::ForwardToSink(ForwardFault::Closed(fault->0)))
            },
        )
    }
}

/// The number of nanoseconds in a header, if the header is there and holds a number.
pub open spec fn header_nanos(header: Option<String>) -> Option<u64> {
    match header {
        None => None,
        Some(text) => crate::text::u64_of_text(text@),
    }
}

/// How long an invocation was queued: from its source's timestamp, if that is valid,
/// until it got its running slot.
pub open spec fn queued_for(acquired: Nanoseconds, source_ts: Option<String>) -> Nanoseconds {
    match header_nanos(source_ts) {
        None => 0,
        Some(ts) => if acquired >= ts {
            (acquired - ts) as u64
        } else {
            0
        },
    }
}

/// The sandbox in the state, with its counters changed.
pub open spec fn with_stats<S: Sandbox>(
    sb: S,
    more_invocations: int,
    more_restorations: int,
) -> S {
    sb.spec_with_stats(
        crate::metadata::SandboxStats {
            invocations: (sb.spec_stats().invocations + more_invocations) as u64,
            restorations: (sb.spec_stats().restorations + more_restorations) as u64,
        },
    )
}

/// A message of the pool's.
pub open spec fn on_control<S: Sandbox>(w: Worker<S>, msg: ControlMessage) -> Next<S> {
    match msg {
        ControlMessage::ShutDown => match w.state {
            SandboxState::Paused(sb) => if sb.spec_has_snapshot() {
                (enter(w, Phase::Shutdown), Action::ShutdownSandbox)
            } else {
                destroy(w, None)
            },
            _ => reap(w, None),
        },
        ControlMessage::DestroySandbox => destroy(w, None),
        ControlMessage::PrepareSandbox { cpuset } => prepare(
            Worker { start: w.state.kind(), cpuset, timings: Timings::zero(), ..w },
            Purpose::Control,
        ),
        ControlMessage::CreateSnapshot { sandbox_id } => {
            let sandbox_id = match w.state.sandbox() {
                None => sandbox_id,
                Some(sb) => sb.spec_id(),
            };
            let w = Worker { timings: Timings::zero(), ..w };
            let why = SnapshotPurpose::Request { sandbox_id };
            match w.state {
                SandboxState::Snapshot(_) => snapshot_done(w, why, None),
                SandboxState::Paused(sb) => if sb.spec_has_snapshot() {
                    snapshot_done(w, why, None)
                } else {
                    begin_snapshot(w, why)
                },
                _ => snapshot_done(w, why, Some(Error::CreateSnapshotControl(w.state.kind()))),
            }
        },
    }
}

/// An event that arrives while a new sandbox is being created.
pub open spec fn on_create<S: Sandbox>(w: Worker<S>, e: Event<S>) -> Option<Next<S>> {
    match (w.phase, e) {
        (Phase::AllocateNetwork(p), Event::Took(took)) => Some((
            Worker {
                timings: Timings {
                    setup_resources: (w.timings.setup_resources + took) as u64,
                    ..w.timings
                },
                phase: Phase::Create(p),
                ..w
            },
            Action::CreateSandbox,
        )),
        (Phase::AllocateNetwork(p), Event::Failed(err)) => Some(
            prepare_failed(w, p, Error::Network(err)),
        ),
        (Phase::AllocateNetwork(p), Event::NetworkManagerUnreachable(err)) => Some(
            prepare_failed(w, p, Error::Channel(ChannelUse::SendToNetworkManager, err)),
        ),
        (Phase::AllocateNetwork(p), Event::NetworkManagerSilent(err)) => Some(
            prepare_failed(w, p, Error::Channel(ChannelUse::ReceiveFromNetworkManager, err)),
        ),
        (Phase::Create(p), Event::Created { sandbox, took, recorded, setup }) => Some((
            Worker {
                fresh: Some(sandbox),
                timings: Timings {
                    create_sandbox: if recorded == 0 {
                        took
                    } else {
                        recorded
                    },
                    setup_resources: (w.timings.setup_resources + setup) as u64,
                    ..w.timings
                },
                phase: Phase::PinFresh(p),
                ..w
            },
            Action::SetupCpuset(w.cpuset),
        )),
        (Phase::Create(p), Event::CreationFailed { cause, recorded, setup }) => Some(
            prepare_failed(
                Worker {
                    timings: Timings {
                        create_sandbox: recorded,
                        setup_resources: (w.timings.setup_resources + setup) as u64,
                        ..w.timings
                    },
                    ..w
                },
                p,
                Error::CreateSandbox(cause),
            ),
        ),
        (Phase::PinFresh(p), Event::Took(took)) => Some((
            Worker {
                timings: Timings {
                    setup_resources: (w.timings.setup_resources + took) as u64,
                    ..w.timings
                },
                phase: Phase::Announce(p),
                ..w
            },
            Action::Send(
                OutboundMessage::SandboxId { worker_id: w.id, sandbox_id: w.fresh->0.spec_id() },
            ),
        )),
        (Phase::PinFresh(p), Event::Failed(err)) => Some(
            prepare_failed(Worker { fresh: None, ..w }, p, Error::SetupCpuset(err)),
        ),
        (Phase::Announce(p), Event::Done) => Some(
            prepared(Worker { state: SandboxState::Running(w.fresh->0), fresh: None, ..w }, p),
        ),
        _ => None,
    }
}

/// An event that arrives while an existing sandbox is being brought back.
pub open spec fn on_wake<S: Sandbox>(w: Worker<S>, e: Event<S>) -> Option<Next<S>> {
    match (w.phase, e) {
        (Phase::Load(p), Event::Took(took)) => Some((
            Worker {
                state: SandboxState::Running(with_stats(w.state.sandbox()->0, 0, 1)),
                timings: Timings { load_sandbox: took, ..w.timings },
                phase: Phase::PinLoaded(p),
                ..w
            },
            Action::SetupCpuset(w.cpuset),
        )),
        (Phase::Load(p), Event::Failed(err)) => Some(
            prepare_failed(w, p, Error::LoadSandbox(err)),
        ),
        (Phase::PinLoaded(p), Event::Took(took)) => Some(
            prepared(
                Worker { timings: Timings { setup_resources: took, ..w.timings }, ..w },
                p,
            ),
        ),
        (Phase::PinLoaded(p), Event::Failed(err)) => Some(
            prepare_failed(w, p, Error::SetupCpuset(err)),
        ),
        (Phase::Resume(p), Event::Took(took)) => Some((
            Worker {
                timings: Timings {
                    resume_sandbox: (w.timings.resume_sandbox + took) as u64,
                    ..w.timings
                },
                phase: Phase::PinResumed(p),
                ..w
            },
            Action::SetupCpuset(w.cpuset),
        )),
        (Phase::Resume(p), Event::Failed(err)) => Some(
            prepare_failed(w, p, Error::ResumeSandbox(err)),
        ),
        (Phase::PinResumed(p), Event::Took(took)) => Some(
            prepared(
                Worker {
                    state: SandboxState::Running(w.state.sandbox()->0),
                    timings: Timings {
                        setup_resources: (w.timings.setup_resources + took) as u64,
                        ..w.timings
                    },
                    ..w
                },
                p,
            ),
        ),
        (Phase::PinResumed(p), Event::Failed(err)) => Some(
            prepare_failed(w, p, Error::SetupCpuset(err)),
        ),
        _ => None,
    }
}

/// An event that arrives while a snapshot is being taken, or around the one that is taken
/// before the first invocation.
pub open spec fn on_snapshot<S: Sandbox>(w: Worker<S>, e: Event<S>) -> Option<Next<S>> {
    match (w.phase, e) {
        (Phase::PauseForSnapshot, Event::Done) => Some(
            begin_snapshot(
                Worker { state: SandboxState::Paused(w.state.sandbox()->0), ..w },
                SnapshotPurpose::BeforeInvocation,
            ),
        ),
        (Phase::PauseForSnapshot, Event::Failed(err)) => Some(
            finish_request(w, Some(Error::PauseSandbox(err))),
        ),
        (Phase::QueryPaths(why), Event::Paths { state, memory }) => Some((
            enter(w, Phase::TakeSnapshot(why)),
            Action::CreateSnapshot(
                SnapshotTarget {
                    state_dir: state,
                    memory_dir: memory,
                    sandbox_id: w.state.sandbox()->0.spec_id(),
                },
            ),
        )),
        (Phase::QueryPaths(why), Event::NoPaths) => Some(snapshot_done(w, why, None)),
        (Phase::QueryPaths(why), Event::Failed(err)) => Some(
            snapshot_done(
                w,
                why,
                Some(Error::SnapshotManager { what: SnapshotManagerUse::QueryPaths, err }),
            ),
        ),
        (Phase::TakeSnapshot(why), Event::Done) => Some((
            enter(w, Phase::NotifySnapshot(why)),
            Action::NotifySnapshotCreated,
        )),
        (Phase::TakeSnapshot(why), Event::Failed(err)) => Some(
            snapshot_done(w, why, Some(Error::CreateSnapshot(err))),
        ),
        (Phase::NotifySnapshot(why), Event::Took(took)) => Some(
            snapshot_done(
                Worker { timings: Timings { create_snapshot: took, ..w.timings }, ..w },
                why,
                None,
            ),
        ),
        (Phase::ResumeAfterSnapshot, Event::Took(took)) => Some((
            Worker {
                state: SandboxState::Running(w.state.sandbox()->0),
                timings: Timings {
                    resume_sandbox: (w.timings.resume_sandbox + took) as u64,
                    ..w.timings
                },
                phase: Phase::StartMonitor,
                ..w
            },
            Action::StartMonitor(w.start),
        )),
        (Phase::ResumeAfterSnapshot, Event::Failed(err)) => Some(
            finish_request(
                w,
                Some(Error::PrepareSandbox(Box::new(Error::ResumeSandbox(err)))),
            ),
        ),
        _ => None,
    }
}

/// An event that arrives while an invocation is being handled in a running sandbox.
pub open spec fn on_invocation<S: Sandbox>(w: Worker<S>, e: Event<S>) -> Option<Next<S>> {
    match (w.phase, e) {
        (Phase::StartMonitor, Event::Done) => Some((
            enter(w, Phase::Issue { monitored: true }),
            Action::IssueRequest(w.start),
        )),
        (Phase::StartMonitor, Event::Failed(_)) => Some((
            enter(w, Phase::Issue { monitored: false }),
            Action::IssueRequest(w.start),
        )),
        (
            Phase::Issue { monitored },
            Event::Issued { connection, invocation, took, handler, response },
        ) => Some((
            Worker {
                state: SandboxState::Running(with_stats(w.state.sandbox()->0, 1, 0)),
                timings: Timings {
                    issuer_connection: connection,
                    issuer_invocation: invocation,
                    issuer: took,
                    sandbox_handler: match header_nanos(handler) {
                        Some(nanos) => nanos,
                        None => w.timings.sandbox_handler,
                    },
                    sandbox_response: match header_nanos(response) {
                        Some(nanos) => nanos,
                        None => w.timings.sandbox_response,
                    },
                    ..w.timings
                },
                phase: Phase::Forward { monitored, attempts: 0, took: Some(took), err: None },
                ..w
            },
            Action::ForwardReply(
                Reply { outcome: ReplyOutcome::FromFunction, source_ts: w.source_ts },
            ),
        )),
        (Phase::Issue { monitored }, Event::IssueFailed { cause, took }) => Some((
            Worker {
                timings: Timings { issuer: took, ..w.timings },
                phase: Phase::Forward {
                    monitored,
                    attempts: 0,
                    took: None,
                    err: Some(Error::HandleFunctionRequest(cause)),
                },
                ..w
            },
            Action::ForwardReply(
                Reply { outcome: ReplyOutcome::IssuerFailed, source_ts: w.source_ts },
            ),
        )),
        (Phase::Issue { monitored }, Event::IssueTimedOut { took }) => Some((
            Worker {
                timings: Timings { issuer: took, ..w.timings },
                phase: Phase::Forward {
                    monitored,
                    attempts: 0,
                    took: None,
                    err: Some(Error::IssuerTimeout(w.issuer_timeout)),
                },
                ..w
            },
            Action::ForwardReply(
                Reply { outcome: ReplyOutcome::IssuerTimedOut, source_ts: w.source_ts },
            ),
        )),
        (Phase::Forward { monitored, attempts, took, err }, Event::Done) => Some(
            forwarded(w, monitored, took, err),
        ),
        (Phase::Forward { monitored, attempts, took, err }, Event::ReplyNotBuilt) => if err is Some
            && attempts == 0 {
            Some(forwarded(w, monitored, took, err))
        } else {
            None
        },
        (Phase::Forward { monitored, attempts, took, err }, Event::ForwardTimedOut) => Some(
            forward_failed(w, monitored, attempts, took, err, None),
        ),
        (Phase::Forward { monitored, attempts, took, err }, Event::ForwardClosed(fault)) => Some(
            forward_failed(w, monitored, attempts, took, err, Some(fault)),
        ),
        (Phase::StopMonitor { err }, Event::Done) => Some(monitor_stopped(w, err)),
        (Phase::StopMonitor { err }, Event::Failed(_)) => Some(monitor_stopped(w, err)),
        (Phase::PauseAfterInvocation, Event::Done) => {
            let w = Worker { state: SandboxState::Paused(w.state.sandbox()->0), ..w };
            if snapshot_due_after(w) {
                Some(begin_snapshot(w, SnapshotPurpose::AfterInvocation))
            } else {
                Some(finish_request(w, None))
            }
        },
        (Phase::PauseAfterInvocation, Event::Failed(err)) => Some(
            finish_request(w, Some(Error::PauseSandbox(err))),
        ),
        (Phase::ReleaseSlot(err), Event::Took(took)) => {
            let timings = Timings { running_slot: took, ..w.timings };
            Some((
                Worker { timings, phase: Phase::StoreTimings(err), ..w },
                Action::StoreTimings(
                    match w.state.sandbox() {
                        None => None,
                        Some(sb) => Some(sb.spec_id()),
                    },
                    timings,
                ),
            ))
        },
        (Phase::StoreTimings(err), Event::Done) => match err {
            Some(err) => Some(cleanup(w, err)),
            None => Some((enter(w, Phase::AskForWork), Action::Send(need_work(w)))),
        },
        (Phase::AskForWork, Event::Done) => Some((enter(w, Phase::Idle), Action::AwaitMessage)),
        _ => None,
    }
}

/// An event that arrives while the pool is being answered.
pub open spec fn on_report<S: Sandbox>(w: Worker<S>, e: Event<S>) -> Option<Next<S>> {
    match (w.phase, e) {
        (Phase::PausePrepared, Event::Done) => {
            let sb = w.state.sandbox()->0;
            let w = Worker { state: SandboxState::Paused(sb), ..w };
            let why = SnapshotPurpose::Preparation {
                sandbox_id: sb.spec_id(),
                had_snapshot: sb.spec_has_snapshot(),
                stats: sb.spec_stats(),
            };
            if snapshot_due_before(w) {
                Some(begin_snapshot(w, why))
            } else {
                Some((
                    enter(w, Phase::ReportPrepared),
                    preparation(
                        w,
                        Ok((sb.spec_id(), sb.spec_has_snapshot(), sb.spec_stats())),
                    ),
                ))
            }
        },
        (Phase::PausePrepared, Event::Failed(err)) => Some((
            enter(w, Phase::ReportPrepareFailure(Error::PauseSandbox(err))),
            preparation(w, Err(Error::PauseSandbox(err))),
        )),
        (Phase::ReportPrepared, Event::Done) => Some((enter(w, Phase::Idle), Action::AwaitMessage)),
        (Phase::ReportPrepareFailure(err), Event::Done) => Some(cleanup(w, err)),
        (Phase::ReportSnapshot, Event::Done) => Some((enter(w, Phase::Idle), Action::AwaitMessage)),
        _ => None,
    }
}

/// An event that arrives while the worker cleans up or retires.
pub open spec fn on_teardown<S: Sandbox>(w: Worker<S>, e: Event<S>) -> Option<Next<S>> {
    match (w.phase, e) {
        (Phase::CleanupPause(err), Event::Done) => {
            let sb = w.state.sandbox()->0;
            let w = Worker { state: SandboxState::Paused(sb), ..w };
            if sb.spec_has_snapshot() {
                Some((enter(w, Phase::CleanupShutdown(err)), Action::ShutdownSandbox))
            } else {
                Some(destroy(w, Some(err)))
            }
        },
        (Phase::CleanupPause(err), Event::Failed(_)) => Some(
            reap(Worker { state: SandboxState::Trashed(w.state.sandbox()->0), ..w }, Some(err)),
        ),
        (Phase::CleanupShutdown(err), Event::Done) => Some(
            reap(Worker { state: SandboxState::Snapshot(w.state.sandbox()->0), ..w }, None),
        ),
        (Phase::CleanupShutdown(err), Event::Failed(_)) => Some(
            reap(Worker { state: SandboxState::Trashed(w.state.sandbox()->0), ..w }, Some(err)),
        ),
        (Phase::AwaitPauseRetry(err), Event::Done) => Some((
            enter(w, Phase::RetryPause(err)),
            Action::PauseSandbox,
        )),
        (Phase::RetryPause(err), Event::Done) => Some(
            destroy(
                Worker { state: SandboxState::Paused(w.state.sandbox()->0), ..w },
                Some(err),
            ),
        ),
        (Phase::RetryPause(err), Event::Failed(_)) => Some(destroy(w, Some(err))),
        (Phase::Shutdown, Event::Done) => Some(
            reap(Worker { state: SandboxState::Snapshot(w.state.sandbox()->0), ..w }, None),
        ),
        (Phase::Shutdown, Event::Failed(err)) => Some(
            reap(
                Worker { state: SandboxState::Trashed(w.state.sandbox()->0), ..w },
                Some(Error::ShutdownSandbox(err)),
            ),
        ),
        (Phase::Destroy { from, snapshot, why }, Event::Done) => match snapshot {
            Some(id) => Some((
                enter(w, Phase::NotifyRemoval { why }),
                Action::NotifySnapshotRemoved(id),
            )),
            None => Some((enter(w, Phase::ReleaseNetwork { why }), Action::ReleaseNetwork)),
        },
        (Phase::Destroy { from, snapshot, why }, Event::DestroyFailed(failed)) => Some(
            destroyed(
                Worker { state: SandboxState::Trashed(failed.sandbox), ..w },
                why,
                Some(Error::DestroySandbox(failed.err)),
            ),
        ),
        (Phase::NotifyRemoval { why }, Event::Done) => Some((
            enter(w, Phase::ReleaseNetwork { why }),
            Action::ReleaseNetwork,
        )),
        (Phase::NotifyRemoval { why }, Event::Failed(_)) => Some((
            enter(w, Phase::ReleaseNetwork { why }),
            Action::ReleaseNetwork,
        )),
        (Phase::ReleaseNetwork { why }, Event::Done) => Some(destroyed(w, why, None)),
        (Phase::ReleaseNetwork { why }, Event::Failed(err)) => Some(
            destroyed(w, why, Some(Error::Network(err))),
        ),
        (Phase::Reap(err), Event::Done) => if err is Some || w.state is Nonexistent {
            Some(exit(w, err))
        } else if w.state is Snapshot && w.state.snapshotted() {
            Some((enter(w, Phase::Uncache), Action::UncacheSandbox))
        } else {
            None
        },
        (Phase::Uncache, Event::Done) => Some(exit(w, None)),
        (Phase::Uncache, Event::Failed(_)) => Some(exit(w, None)),
        _ => None,
    }
}

/// An event that arrives while the worker starts, or waits for something to do.
pub open spec fn on_idle<S: Sandbox>(w: Worker<S>, e: Event<S>) -> Option<Next<S>> {
    match (w.phase, e) {
        (Phase::Init, Event::Done) => Some((enter(w, Phase::Idle), Action::AwaitMessage)),
        (Phase::Init, Event::Failed(source)) => Some(
            reap(w, Some(Error::Init { stage: InitStage::RuntimeInitialization, source })),
        ),
        (Phase::Idle, Event::Invocation { acquired, source_ts, cpuset }) => Some(
            prepare(
                Worker {
                    start: w.state.kind(),
                    cpuset,
                    source_ts,
                    timings: Timings {
                        queued: queued_for(acquired, source_ts),
                        ..Timings::zero()
                    },
                    ..w
                },
                Purpose::Invocation,
            ),
        ),
        (Phase::Idle, Event::Closed) => Some(reap(w, None)),
        (Phase::Idle, Event::Control(msg)) => Some(on_control(w, msg)),
        _ => None,
    }
}

/// The message that a worker in `phase` is sending to the pool is sent again.
pub open spec fn sending(phase: Phase) -> bool {
    phase is Announce || phase is AskForWork || phase is ReportPrepared || phase
        is ReportPrepareFailure || phase is ReportSnapshot || phase is Reap
}

/// What a worker does about an event, if the event is one that can arrive.
pub open spec fn next<S: Sandbox>(w: Worker<S>, e: Event<S>) -> Option<Next<S>> {
    match e {
        Event::PoolUnreachable(msg) => if sending(w.phase) {
            Some((w, Action::Send(msg)))
        } else {
            None
        },
        _ => match w.phase {
            Phase::Init | Phase::Idle => on_idle(w, e),
            Phase::AllocateNetwork(_)
            | Phase::Create(_)
            | Phase::PinFresh(_)
            | Phase::Announce(_) => on_create(w, e),
            Phase::Load(_)
            | Phase::PinLoaded(_)
            | Phase::Resume(_)
            | Phase::PinResumed(_) => on_wake(w, e),
            Phase::PauseForSnapshot
            | Phase::ResumeAfterSnapshot
            | Phase::QueryPaths(_)
            | Phase::TakeSnapshot(_)
            | Phase::NotifySnapshot(_) => on_snapshot(w, e),
            Phase::StartMonitor
            | Phase::Issue { .. }
            | Phase::Forward { .. }
            | Phase::StopMonitor { .. }
            | Phase::PauseAfterInvocation
            | Phase::ReleaseSlot(_)
            | Phase::StoreTimings(_)
            | Phase::AskForWork => on_invocation(w, e),
            Phase::PausePrepared
            | Phase::ReportPrepared
            | Phase::ReportPrepareFailure(_)
            | Phase::ReportSnapshot => on_report(w, e),
            _ => on_teardown(w, e),
        },
    }
}

/// An error that can be cleaned up after when the sandbox is in a state of the given kind.
pub open spec fn cleanable(err: Error, kind: SandboxStateRef) -> bool {
    match err {
        Error::PrepareSandbox(_) => kind != SandboxStateRef::Trashed,
        Error::PauseSandbox(_)
        | Error::HandleFunctionRequest(_)
        | Error::IssuerTimeout(_)
        | Error::ForwardToSink(_) => kind == SandboxStateRef::Running,
        _ => false,
    }
}

/// An error that an invocation in a running sandbox can have met so far.
pub open spec fn issue_error(err: Option<Error>) -> bool {
    match err {
        None => true,
        Some(Error::HandleFunctionRequest(_)) => true,
        Some(Error::IssuerTimeout(_)) => true,
        _ => false,
    }
}

/// The phase of a worker and the state of its sandbox fit together.
pub open spec fn wf<S>(w: Worker<S>) -> bool {
    let kind = w.state.kind();
    &&& w.fresh is Some <==> (w.phase is PinFresh || w.phase is Announce)
    &&& match w.phase {
        Phase::Init => kind == SandboxStateRef::Nonexistent || kind == SandboxStateRef::Snapshot,
        Phase::Idle => kind == SandboxStateRef::Nonexistent || kind == SandboxStateRef::Snapshot
            || kind == SandboxStateRef::Paused,
        Phase::AllocateNetwork(_)
        | Phase::Create(_)
        | Phase::PinFresh(_)
        | Phase::Announce(_) => kind == SandboxStateRef::Nonexistent && w.start == kind,
        Phase::Load(_) => kind == SandboxStateRef::Snapshot,
        Phase::Resume(_)
        | Phase::PinResumed(_)
        | Phase::ResumeAfterSnapshot
        | Phase::QueryPaths(_)
        | Phase::TakeSnapshot(_)
        | Phase::NotifySnapshot(_)
        | Phase::AskForWork
        | Phase::ReportPrepared
        | Phase::CleanupShutdown(_)
        | Phase::Shutdown => kind == SandboxStateRef::Paused,
        Phase::PinLoaded(_)
        | Phase::PauseForSnapshot
        | Phase::StartMonitor
        | Phase::Issue { .. }
        | Phase::PauseAfterInvocation
        | Phase::PausePrepared => kind == SandboxStateRef::Running,
        Phase::Forward { attempts, err, .. } => kind == SandboxStateRef::Running && attempts
            < MAX_FWD_ATTEMPTS && issue_error(err),
        Phase::StopMonitor { err } => kind == SandboxStateRef::Running && (err is Some
            ==> cleanable(err->0, kind)),
        Phase::ReleaseSlot(err) | Phase::StoreTimings(err) => match err {
            None => kind == SandboxStateRef::Paused,
            Some(err) => cleanable(err, kind),
        },
        Phase::ReportPrepareFailure(err) => cleanable(err, kind),
        Phase::ReportSnapshot => kind != SandboxStateRef::Running && kind
            != SandboxStateRef::Trashed,
        Phase::CleanupPause(_) | Phase::AwaitPauseRetry(_) | Phase::RetryPause(_) => kind
            == SandboxStateRef::Running,
        Phase::Destroy { from, .. } => kind == SandboxStateRef::Nonexistent && from
            != SandboxStateRef::Nonexistent && from != SandboxStateRef::Trashed,
        Phase::NotifyRemoval { .. } | Phase::ReleaseNetwork { .. } | Phase::Exited => kind
            == SandboxStateRef::Nonexistent,
        Phase::Reap(None) => kind != SandboxStateRef::Running && kind != SandboxStateRef::Trashed,
        Phase::Reap(Some(_)) => kind != SandboxStateRef::Running && kind != SandboxStateRef::Paused,
        Phase::Uncache => kind == SandboxStateRef::Snapshot,
    }
}

/// No counter overflows, and a sandbox that was just created has no snapshot yet when one
/// is due before its first invocation.
pub open spec fn fits<S: Sandbox>(w: Worker<S>, e: Event<S>) -> bool {
    match (w.phase, e) {
        (Phase::AllocateNetwork(_), Event::Took(took))
        | (Phase::PinFresh(_), Event::Took(took))
        | (Phase::PinResumed(_), Event::Took(took)) => w.timings.setup_resources + took
            <= u64::MAX,
        (Phase::Create(_), Event::Created { setup, .. })
        | (Phase::Create(_), Event::CreationFailed { setup, .. }) => w.timings.setup_resources + setup
            <= u64::MAX,
        (Phase::Resume(_), Event::Took(took))
        | (Phase::ResumeAfterSnapshot, Event::Took(took)) => w.timings.resume_sandbox + took
            <= u64::MAX,
        (Phase::Load(_), Event::Took(_)) => w.state.sandbox()->0.spec_stats().restorations
            < u64::MAX,
        (Phase::Issue { .. }, Event::Issued { .. }) =>
            w.state.sandbox()->0.spec_stats().invocations < u64::MAX,
        (Phase::Announce(Purpose::Invocation), Event::Done) => snapshot_due_before(w)
            ==> !w.fresh->0.spec_has_snapshot(),
        _ => true,
    }
}

/// The event can arrive now, and the worker can take it.
pub open spec fn accepts<S: Sandbox>(w: Worker<S>, e: Event<S>) -> bool {
    next(w, e) is Some && fits(w, e)
}

} // verus!
