use faascell::metadata::SandboxStats;
use faascell::runtime::fc::sandbox::{MicroVm, SnapshotFiles};
use faascell::runtime::net::{Ipv4Addr, TapInfo};
use faascell::runtime::toy::noop::NoOpSandbox;
use faascell::runtime::{DestroySandboxRuntimeError, Sandbox};
use faascell::status::StatusCode;
use faascell::worker::error::{ChannelUse, Error, ForwardFault, InitStage, SnapshotManagerUse};
use faascell::worker::handles::{spawn, WorkerHandle};
use faascell::worker::machine::{
    Action, Event, Phase, Reply, ReplyOutcome, SnapshotCreationTime, SnapshotTarget, Worker,
    MAX_FWD_ATTEMPTS, PAUSE_RETRY_DELAY_MS,
};
use faascell::worker::messages::{
    ControlMessage, CreateSnapshotResult, OutboundMessage, PrepareSandboxResult,
};
use faascell::worker::reply::{
    make_issuer_error_response, IssuerErrorResponse, IssuerErrorResponseContext,
};
use faascell::worker::types::{into_sandbox, SandboxExit, SandboxState, SandboxStateRef};

fn vm(name: &str, snapshot: bool) -> MicroVm {
    MicroVm {
        stats: SandboxStats { invocations: 0, restorations: 0 },
        function_id: "chameleon-1".to_string(),
        tap: TapInfo {
            name: name.to_string(),
            ip_addr: Ipv4Addr { a: 10, b: 0, c: 0, d: 2 },
            gateway: Ipv4Addr { a: 10, b: 0, c: 0, d: 1 },
            prefix_len: 24,
        },
        process: None,
        snapshot: if snapshot {
            Some(SnapshotFiles::new("/s/x.state".to_string(), "/m/x.memory".to_string()))
        } else {
            None
        },
    }
}

const ID: u128 = 0xa1a2a3a4b1b2c1c2d1d2d3d4d5d6d7d8;

fn function() -> String {
    "chameleon-1".to_string()
}

fn reap_me() -> OutboundMessage {
    OutboundMessage::ReapMe { worker_id: ID, function_id: function() }
}

fn need_work() -> OutboundMessage {
    OutboundMessage::NeedWork { worker_id: ID, function_id: function() }
}

fn idle(sandbox: Option<MicroVm>, when: SnapshotCreationTime) -> Worker<MicroVm> {
    let (mut worker, action) = Worker::new(ID, function(), sandbox, when, 1_000_000_000);
    assert!(matches!(action, Action::InitRuntime));
    assert!(matches!(step(&mut worker, Event::Done), Action::AwaitMessage));
    worker
}

fn step(worker: &mut Worker<MicroVm>, e: Event<MicroVm>) -> Action<MicroVm> {
    assert!(worker.accepts(&e), "{:?} in {:?}", e, worker.phase);
    worker.step(e)
}

fn invocation(source_ts: Option<&str>) -> Event<MicroVm> {
    Event::Invocation { acquired: 500, source_ts: source_ts.map(str::to_string), cpuset: 3 }
}

fn issued(took: u64) -> Event<MicroVm> {
    Event::Issued {
        connection: 5,
        invocation: 70,
        took,
        handler: Some("60".to_string()),
        response: Some("sixty".to_string()),
    }
}

/// Brings a worker without a sandbox to a running one.
fn run_fresh(worker: &mut Worker<MicroVm>) -> Action<MicroVm> {
    assert!(matches!(step(worker, invocation(Some("400"))), Action::AllocateNetwork));
    assert!(matches!(step(worker, Event::Took(7)), Action::CreateSandbox));
    let created = Event::Created { sandbox: vm("tap0", false), took: 30, recorded: 0, setup: 2 };
    assert!(matches!(step(worker, created), Action::SetupCpuset(3)));
    match step(worker, Event::Took(1)) {
        Action::Send(OutboundMessage::SandboxId { worker_id, sandbox_id }) => {
            assert_eq!(worker_id, ID);
            assert_eq!(sandbox_id, "tap0");
        }
        other => panic!("{other:?}"),
    }
    step(worker, Event::Done)
}

#[test]
fn first_invocation_creates_a_sandbox() {
    let mut w = idle(None, SnapshotCreationTime::Never);
    let action = run_fresh(&mut w);
    assert!(matches!(action, Action::StartMonitor(SandboxStateRef::Nonexistent)));
    assert_eq!(w.timings.queued, 100);
    assert_eq!(w.timings.setup_resources, 10);
    assert_eq!(w.timings.create_sandbox, 30);
    let action = step(&mut w, Event::Done);
    assert!(matches!(action, Action::IssueRequest(SandboxStateRef::Nonexistent)));
    match step(&mut w, issued(80)) {
        Action::ForwardReply(Reply { outcome, source_ts }) => {
            assert_eq!(outcome, ReplyOutcome::FromFunction);
            assert_eq!(source_ts.as_deref(), Some("400"));
        }
        other => panic!("{other:?}"),
    }
    assert_eq!(w.timings.sandbox_handler, 60);
    assert_eq!(w.timings.sandbox_response, 0);
    assert_eq!(w.timings.issuer, 80);
    let action = step(&mut w, Event::Done);
    assert!(matches!(action, Action::StopMonitor(SandboxStateRef::Nonexistent, Some(80))));
    assert!(matches!(step(&mut w, Event::Done), Action::PauseSandbox));
    assert!(matches!(step(&mut w, Event::Done), Action::ReleaseSlot));
    match step(&mut w, Event::Took(900)) {
        Action::StoreTimings(id, timings) => {
            assert_eq!(id.as_deref(), Some("tap0"));
            assert_eq!(timings.running_slot, 900);
            assert_eq!(timings.issuer_connection, 5);
            assert_eq!(timings.issuer_invocation, 70);
        }
        other => panic!("{other:?}"),
    }
    assert!(matches!(step(&mut w, Event::Done), Action::Send(OutboundMessage::NeedWork { .. })));
    assert!(matches!(step(&mut w, Event::Done), Action::AwaitMessage));
    assert_eq!(w.state.as_ref(), SandboxStateRef::Paused);
    match &w.state {
        SandboxState::Paused(sb) => assert_eq!(sb.stats().invocations, 1),
        other => panic!("{other:?}"),
    }
}

#[test]
fn snapshot_is_taken_before_the_first_invocation() {
    let mut w = idle(None, SnapshotCreationTime::OnCreationBeforeInvoc);
    assert!(matches!(run_fresh(&mut w), Action::PauseSandbox));
    assert!(matches!(step(&mut w, Event::Done), Action::QuerySnapshotPaths));
    let paths = Event::Paths { state: "/pmem/state".to_string(), memory: "/pmem/mem".to_string() };
    match step(&mut w, paths) {
        Action::CreateSnapshot(target) => {
            assert_eq!(target.state_path(), "/pmem/state/tap0.state");
            assert_eq!(target.memory_path(), "/pmem/mem/tap0.memory");
        }
        other => panic!("{other:?}"),
    }
    assert!(matches!(step(&mut w, Event::Done), Action::NotifySnapshotCreated));
    assert!(matches!(step(&mut w, Event::Took(11)), Action::ResumeSandbox));
    assert_eq!(w.timings.create_snapshot, 11);
    assert!(matches!(step(&mut w, Event::Took(2)), Action::StartMonitor(_)));
    assert_eq!(w.timings.resume_sandbox, 2);
}

#[test]
fn snapshot_is_taken_after_the_first_invocation() {
    let mut w = idle(None, SnapshotCreationTime::OnCreationAfterInvoc);
    run_fresh(&mut w);
    step(&mut w, Event::Failed("no monitor".to_string()));
    step(&mut w, issued(80));
    // no monitor runs, so none is stopped
    assert!(matches!(step(&mut w, Event::Done), Action::PauseSandbox));
    assert!(matches!(step(&mut w, Event::Done), Action::QuerySnapshotPaths));
    // a failed snapshot does not fail the invocation
    assert!(matches!(step(&mut w, Event::Failed("full".to_string())), Action::ReleaseSlot));
    step(&mut w, Event::Took(1));
    assert!(matches!(step(&mut w, Event::Done), Action::Send(OutboundMessage::NeedWork { .. })));
}

#[test]
fn second_invocation_resumes_the_sandbox() {
    let mut w = idle(None, SnapshotCreationTime::OnCreationBeforeInvoc);
    w.state = SandboxState::Paused(vm("tap0", false));
    assert!(matches!(step(&mut w, invocation(None)), Action::ResumeSandbox));
    assert_eq!(w.timings.queued, 0);
    assert!(matches!(step(&mut w, Event::Took(4)), Action::SetupCpuset(3)));
    // the sandbox is not new, so no snapshot is due
    assert!(matches!(step(&mut w, Event::Took(4)), Action::StartMonitor(SandboxStateRef::Paused)));
}

#[test]
fn restored_sandbox_is_loaded_and_counted() {
    let mut w = idle(Some(vm("tap1", true)), SnapshotCreationTime::Never);
    assert!(matches!(step(&mut w, invocation(Some("900"))), Action::LoadSandbox));
    assert_eq!(w.timings.queued, 0);
    assert!(matches!(step(&mut w, Event::Took(40)), Action::SetupCpuset(3)));
    assert!(matches!(step(&mut w, Event::Took(4)), Action::StartMonitor(SandboxStateRef::Snapshot)));
    match &w.state {
        SandboxState::Running(sb) => assert_eq!(sb.stats().restorations, 1),
        other => panic!("{other:?}"),
    }
    assert_eq!(w.timings.load_sandbox, 40);
}

#[test]
fn forwarding_is_given_up_after_so_many_attempts() {
    let mut w = idle(None, SnapshotCreationTime::Never);
    run_fresh(&mut w);
    step(&mut w, Event::Done);
    step(&mut w, issued(80));
    let mut attempts = 1;
    while matches!(step(&mut w, Event::ForwardTimedOut), Action::ForwardAgain) {
        attempts += 1;
    }
    assert_eq!(attempts, MAX_FWD_ATTEMPTS);
    match step(&mut w, Event::Done) {
        Action::ReleaseSlot => {}
        other => panic!("{other:?}"),
    }
    step(&mut w, Event::Took(1));
    // the sandbox has no snapshot: it is paused and destroyed
    assert!(matches!(step(&mut w, Event::Done), Action::PauseSandbox));
    assert!(matches!(step(&mut w, Event::Done), Action::DestroySandbox(_)));
    assert!(matches!(step(&mut w, Event::Done), Action::ReleaseNetwork));
    assert!(matches!(step(&mut w, Event::Done), Action::Send(OutboundMessage::ReapMe { .. })));
    match step(&mut w, Event::Done) {
        Action::Exit(exit) => {
            assert!(exit.result.is_ok());
            assert!(matches!(exit.sandbox, SandboxExit::Absent));
        }
        other => panic!("{other:?}"),
    }
}

#[test]
fn closed_sink_ends_the_forwarding() {
    let mut w = idle(None, SnapshotCreationTime::Never);
    run_fresh(&mut w);
    step(&mut w, Event::Failed(String::new()));
    step(&mut w, issued(80));
    let action = step(&mut w, Event::ForwardClosed("closed".to_string()));
    assert!(matches!(action, Action::ReleaseSlot));
    match &w.phase {
        Phase::ReleaseSlot(Some(Error::ForwardToSink(ForwardFault::Closed(why)))) => {
            assert_eq!(why, "closed");
            let fault = ForwardFault::Closed(why.clone());
            match fault.cause() {
                Error::Channel(ChannelUse::ForwardToSink, source) => assert_eq!(source, "closed"),
                other => panic!("{other:?}"),
            }
        }
        other => panic!("{other:?}"),
    }
}

#[test]
fn failed_issuer_is_answered() {
    for (event, outcome, code, payload) in [
        (
            Event::IssueFailed { cause: "refused".to_string(), took: 9 },
            ReplyOutcome::IssuerFailed,
            StatusCode::Unavailable,
            "request issuer failed",
        ),
        (
            Event::IssueTimedOut { took: 9 },
            ReplyOutcome::IssuerTimedOut,
            StatusCode::DeadlineExceeded,
            "request issuer timed out",
        ),
    ] {
        let mut w = idle(Some(vm("tap1", true)), SnapshotCreationTime::Never);
        step(&mut w, invocation(None));
        step(&mut w, Event::Took(1));
        step(&mut w, Event::Took(1));
        step(&mut w, Event::Done);
        match step(&mut w, event) {
            Action::ForwardReply(reply) => {
                assert_eq!(reply.outcome, outcome);
                assert_eq!(reply.outcome.issuer_error(), Some((code, payload)));
            }
            other => panic!("{other:?}"),
        }
        // the answer could not even be made
        assert!(matches!(step(&mut w, Event::ReplyNotBuilt), Action::StopMonitor(_, None)));
        step(&mut w, Event::Done);
        step(&mut w, Event::Took(1));
        // the sandbox has a snapshot, to which it is brought back
        assert!(matches!(step(&mut w, Event::Done), Action::PauseSandbox));
        assert!(matches!(step(&mut w, Event::Done), Action::ShutdownSandbox));
        assert!(matches!(step(&mut w, Event::Done), Action::Send(OutboundMessage::ReapMe { .. })));
        assert!(matches!(step(&mut w, Event::Done), Action::UncacheSandbox));
        match step(&mut w, Event::Failed("busy".to_string())) {
            Action::Exit(exit) => {
                assert!(exit.result.is_ok());
                assert!(matches!(exit.sandbox, SandboxExit::Reusable(sb) if sb.id() == "tap1"));
            }
            other => panic!("{other:?}"),
        }
    }
    assert!(ReplyOutcome::FromFunction.issuer_error().is_none());
}

#[test]
fn failed_issuer_is_answered_in_full() {
    let ctx = |ts: Option<&str>| IssuerErrorResponseContext {
        invocation_id: "inv".to_string(),
        function_id: function(),
        source_timestamp_ns: ts.map(str::to_string),
    };
    assert_eq!(
        make_issuer_error_response(ctx(Some("17 ~\t")), ReplyOutcome::IssuerTimedOut),
        Some(IssuerErrorResponse {
            invocation_id: "inv".to_string(),
            function_id: function(),
            status_code: StatusCode::DeadlineExceeded,
            source_timestamp_ns: Some("17 ~\t".to_string()),
            payload: "request issuer timed out",
        })
    );
    for ts in [None, Some("1\n"), Some("caf\u{e9}"), Some("\u{7f}")] {
        let resp = make_issuer_error_response(ctx(ts), ReplyOutcome::IssuerFailed).unwrap();
        assert_eq!(resp.status_code, StatusCode::Unavailable);
        assert_eq!(resp.source_timestamp_ns, None);
        assert_eq!(resp.payload, "request issuer failed");
    }
    assert!(make_issuer_error_response(ctx(None), ReplyOutcome::FromFunction).is_none());
}

#[test]
fn failed_pause_is_tried_again_later() {
    let mut w = idle(None, SnapshotCreationTime::Never);
    run_fresh(&mut w);
    step(&mut w, Event::Done);
    step(&mut w, issued(80));
    step(&mut w, Event::Done);
    step(&mut w, Event::Done);
    step(&mut w, Event::Failed("busy".to_string()));
    step(&mut w, Event::Took(1));
    assert!(matches!(step(&mut w, Event::Done), Action::Sleep(PAUSE_RETRY_DELAY_MS)));
    assert!(matches!(step(&mut w, Event::Done), Action::PauseSandbox));
    assert!(matches!(step(&mut w, Event::Failed(String::new())), Action::DestroySandbox(_)));
    let failed = DestroySandboxRuntimeError { sandbox: vm("tap0", false), err: "gone".to_string() };
    let action = step(&mut w, Event::DestroyFailed(failed));
    assert!(matches!(action, Action::Send(OutboundMessage::ReapMe { .. })));
    match step(&mut w, Event::Done) {
        Action::Exit(exit) => {
            assert!(matches!(exit.result, Err(Error::PauseSandbox(why)) if why == "busy"));
            assert!(matches!(exit.sandbox, SandboxExit::Trashed(_)));
        }
        other => panic!("{other:?}"),
    }
}

#[test]
fn sandbox_is_prepared_at_request() {
    let mut w = idle(None, SnapshotCreationTime::OnCreationBeforeInvoc);
    let prepare = Event::Control(ControlMessage::PrepareSandbox { cpuset: 9 });
    assert!(matches!(step(&mut w, prepare), Action::AllocateNetwork));
    step(&mut w, Event::Took(1));
    let created = Event::Created { sandbox: vm("tap0", false), took: 30, recorded: 25, setup: 0 };
    assert!(matches!(step(&mut w, created), Action::SetupCpuset(9)));
    assert_eq!(w.timings.create_sandbox, 25);
    step(&mut w, Event::Took(1));
    assert!(matches!(step(&mut w, Event::Done), Action::PauseSandbox));
    assert!(matches!(step(&mut w, Event::Done), Action::QuerySnapshotPaths));
    match step(&mut w, Event::Failed("none".to_string())) {
        Action::Send(OutboundMessage::SandboxPreparation(PrepareSandboxResult {
            worker_id,
            function_id,
            result: Ok((id, has, stats)),
        })) => {
            assert_eq!(worker_id, ID);
            assert_eq!(function_id, "chameleon-1");
            assert_eq!(id, "tap0");
            assert!(!has);
            assert_eq!(stats, SandboxStats { invocations: 0, restorations: 0 });
        }
        other => panic!("{other:?}"),
    }
    assert!(matches!(step(&mut w, Event::Done), Action::AwaitMessage));
}

#[test]
fn failed_preparation_is_reported() {
    for (event, shown) in [
        (Event::Failed("taken".to_string()), "error while managing networking resources"),
        (
            Event::NetworkManagerUnreachable("down".to_string()),
            "internal channel failure: sending to NetworkManager over mpsc",
        ),
        (
            Event::NetworkManagerSilent("mute".to_string()),
            "internal channel failure: receiving from NetworkManager over oneshot",
        ),
    ] {
        let mut w = idle(None, SnapshotCreationTime::Never);
        step(&mut w, Event::Control(ControlMessage::PrepareSandbox { cpuset: 9 }));
        match step(&mut w, event) {
            Action::Send(OutboundMessage::SandboxPreparation(PrepareSandboxResult {
                result: Err(err),
                ..
            })) => assert_eq!(err.message(), shown),
            other => panic!("{other:?}"),
        }
        // there is nothing to clean up
        assert!(matches!(step(&mut w, Event::Done), Action::Send(OutboundMessage::ReapMe { .. })));
    }
}

#[test]
fn snapshot_is_taken_at_request() {
    let ask = || Event::Control(ControlMessage::CreateSnapshot { sandbox_id: "asked".to_string() });

    let mut w = idle(None, SnapshotCreationTime::Never);
    match step(&mut w, ask()) {
        Action::Send(OutboundMessage::SnapshotCreation(CreateSnapshotResult {
            worker_id: ID,
            sandbox_id,
            result: Err(err),
            ..
        })) => {
            assert_eq!(sandbox_id, "asked");
            assert_eq!(
                err.message(),
                "failed to handle control-plane snapshotting request: \
                 cannot create snapshot of SandboxState::Nonexistent"
            );
        }
        other => panic!("{other:?}"),
    }

    let mut w = idle(Some(vm("tap1", true)), SnapshotCreationTime::Never);
    match step(&mut w, ask()) {
        Action::Send(OutboundMessage::SnapshotCreation(CreateSnapshotResult {
            worker_id: ID,
            sandbox_id,
            result: Ok(()),
            ..
        })) => {
            assert_eq!(sandbox_id, "tap1")
        }
        other => panic!("{other:?}"),
    }

    let mut w = idle(None, SnapshotCreationTime::Never);
    w.state = SandboxState::Paused(vm("tap0", false));
    assert!(matches!(step(&mut w, ask()), Action::QuerySnapshotPaths));
    step(&mut w, Event::Paths { state: "/s".to_string(), memory: "/m".to_string() });
    match step(&mut w, Event::Failed("full".to_string())) {
        Action::Send(OutboundMessage::SnapshotCreation(CreateSnapshotResult {
            worker_id: ID,
            sandbox_id,
            result: Err(err),
            ..
        })) => {
            assert_eq!(sandbox_id, "tap0");
            assert_eq!(err.message(), "runtime failed to create snapshot for sandbox");
        }
        other => panic!("{other:?}"),
    }
    assert!(matches!(step(&mut w, Event::Done), Action::AwaitMessage));
}

#[test]
fn shutdown_keeps_a_snapshot_and_drops_the_rest() {
    let mut w = idle(None, SnapshotCreationTime::Never);
    w.state = SandboxState::Paused(vm("tap0", true));
    let action = step(&mut w, Event::Control(ControlMessage::ShutDown));
    assert!(matches!(action, Action::ShutdownSandbox));
    step(&mut w, Event::Failed("stuck".to_string()));
    match step(&mut w, Event::Done) {
        Action::Exit(exit) => {
            assert!(matches!(exit.result, Err(Error::ShutdownSandbox(_))));
            assert!(matches!(exit.sandbox, SandboxExit::Trashed(_)));
        }
        other => panic!("{other:?}"),
    }

    let mut w = idle(None, SnapshotCreationTime::Never);
    w.state = SandboxState::Paused(vm("tap0", false));
    let action = step(&mut w, Event::Control(ControlMessage::ShutDown));
    assert!(matches!(action, Action::DestroySandbox(_)));

    let mut w = idle(Some(vm("tap1", true)), SnapshotCreationTime::Never);
    assert!(matches!(step(&mut w, Event::Closed), Action::Send(OutboundMessage::ReapMe { .. })));
}

#[test]
fn destruction_tells_of_the_removed_snapshot() {
    let mut w = idle(Some(vm("tap1", true)), SnapshotCreationTime::Never);
    let action = step(&mut w, Event::Control(ControlMessage::DestroySandbox));
    assert!(matches!(action, Action::DestroySandbox(sb) if sb.id() == "tap1"));
    let action = step(&mut w, Event::Done);
    assert!(matches!(action, Action::NotifySnapshotRemoved(id) if id == "tap1"));
    assert!(matches!(step(&mut w, Event::Failed(String::new())), Action::ReleaseNetwork));
    step(&mut w, Event::Failed("leak".to_string()));
    match step(&mut w, Event::Done) {
        Action::Exit(exit) => assert!(matches!(exit.result, Err(Error::Network(why)) if why == "leak")),
        other => panic!("{other:?}"),
    }
}

#[test]
fn message_to_the_pool_is_sent_again() {
    let mut w = idle(None, SnapshotCreationTime::Never);
    step(&mut w, Event::Closed);
    let action = step(&mut w, Event::PoolUnreachable(reap_me()));
    assert!(matches!(action, Action::Send(OutboundMessage::ReapMe { .. })));
    assert!(matches!(w.phase, Phase::Reap(None)));
}

#[test]
fn worker_refuses_what_cannot_arrive() {
    let w = idle(None, SnapshotCreationTime::Never);
    assert!(!w.accepts(&Event::Done));
    assert!(!w.accepts(&Event::PoolUnreachable(need_work())));
    let mut w = idle(Some(vm("tap1", true)), SnapshotCreationTime::Never);
    if let SandboxState::Snapshot(sb) = &mut w.state {
        sb.stats.restorations = u64::MAX;
    }
    step(&mut w, invocation(None));
    assert!(!w.accepts(&Event::Took(1)));
    assert!(w.accepts(&Event::Failed(String::new())));
}

#[test]
fn failed_initialization_ends_the_worker() {
    let (mut w, _) =
        Worker::new(ID, function(), Some(vm("tap1", true)), SnapshotCreationTime::Never, 1);
    let action = step(&mut w, Event::Failed("no kernel".to_string()));
    assert!(matches!(action, Action::Send(OutboundMessage::ReapMe { .. })));
    match step(&mut w, Event::Done) {
        Action::Exit(exit) => {
            assert!(matches!(exit.sandbox, SandboxExit::Reusable(_)));
            let err = exit.result.unwrap_err();
            assert_eq!(err.message(), "failed to initialize Worker: runtime initialization");
        }
        other => panic!("{other:?}"),
    }
}

#[test]
fn worker_is_spawned_with_its_sandbox() {
    let never = SnapshotCreationTime::Never;
    let f = function();
    let spawned =
        spawn(ID, &f, Ok(()), Ok(()), Some(vm("tap1", true)), 64u64, never, 5).unwrap();
    assert_eq!(spawned.handle.id(), ID);
    assert_eq!(spawned.handle.function_id(), &f);
    assert_eq!(spawned.handle.sandbox_id().map(String::as_str), Some("tap1"));
    assert_eq!(spawned.handle.memory_accounting(), 64);
    assert_eq!(spawned.worker.id, ID);
    assert_eq!(spawned.worker.function_id, f);
    assert_eq!(spawned.worker.state.id(), Some("tap1"));
    assert_eq!(spawned.worker.issuer_timeout, 5);
    assert!(matches!(spawned.action, Action::InitRuntime));

    let (rt, iss) = (Err("rt".to_string()), Err("iss".to_string()));
    let failed = spawn(ID, &f, rt, iss, Some(vm("tap1", true)), 64u64, never, 5).err().unwrap();
    assert_eq!(
        failed.message(),
        "Worker (sync) initialization error: failed to initialize Worker: runtime construction"
    );
    assert_eq!(failed.err.message(), "failed to initialize Worker: runtime construction");
    assert!(failed.sandbox.is_some());
    let failed = spawn::<MicroVm, u64>(ID, &f, Ok(()), Err("iss".to_string()), None, 64, never, 5)
        .err()
        .unwrap();
    assert!(matches!(
        failed.err,
        Error::Init { stage: InitStage::IssuerConstruction, source } if source == "iss"
    ));
}

#[test]
fn worker_handle_keeps_its_fields() {
    let mut h = WorkerHandle::new(ID, "f-1".to_string(), None, 128u64);
    assert_eq!(h.id(), ID);
    assert_eq!(h.function_id(), "f-1");
    assert_eq!(h.sandbox_id(), None);
    h.set_sandbox_id("tap0".to_string());
    h.set_memory_accounting(256);
    assert_eq!(h.sandbox_id().map(String::as_str), Some("tap0"));
    assert_eq!(h.memory_accounting(), 256);
    assert_eq!(
        h.new_ref().forward_error("full".to_string()).message(),
        "failed to forward Request to Worker `a1a2a3a4-b1b2-c1c2-d1d2-d3d4d5d6d7d8`: full"
    );
    assert_eq!(h.new_ref().id(), ID);
    assert_eq!(h.new_ref().message(), "WorkerRef-a1a2a3a4-b1b2-c1c2-d1d2-d3d4d5d6d7d8");
    assert_eq!(
        h.shutdown_error("closed".to_string()).message(),
        "failed to send ShutDown message to Worker `a1a2a3a4-b1b2-c1c2-d1d2-d3d4d5d6d7d8`: closed"
    );
    assert_eq!(
        h.prepare_sandbox_error(String::new()).message(),
        "internal channel failure: sending ControlMessage::PrepareSandbox to Worker"
    );
    assert_eq!(
        h.create_snapshot_error(String::new()).message(),
        "internal channel failure: sending ControlMessage::CreateSnapshot to Worker"
    );
}

#[test]
fn lost_responses_have_a_cause() {
    let cause = ForwardFault::Exhausted.cause();
    assert_eq!(
        cause.message(),
        "internal channel failure: forwarding response to Sink over mpsc"
    );
    match cause {
        Error::Channel(ChannelUse::ForwardToSink, source) => {
            assert_eq!(source, "Reached maximum number of attempts (10)")
        }
        other => panic!("{other:?}"),
    }
    assert_eq!(ForwardFault::Closed("channel closed".to_string()).message(), "channel closed");
}

#[test]
fn errors_are_shown_in_words() {
    let s = String::new;
    for (err, shown) in [
        (Error::PrepareSandbox(Box::new(Error::Network(s()))), "failed to prepare the sandbox"),
        (Error::CreateSandbox(s()), "runtime failed to create new sandbox"),
        (Error::LoadSandbox(s()), "runtime failed to load sandbox"),
        (Error::PauseSandbox(s()), "runtime failed to pause sandbox"),
        (Error::ResumeSandbox(s()), "runtime failed to resume sandbox"),
        (Error::SetupCpuset(s()), "runtime failed to setup cpuset"),
        (Error::ShutdownSandbox(s()), "runtime failed to shut the sandbox down"),
        (Error::DestroySandbox(s()), "runtime failed to destroy the sandbox"),
        (Error::CreateState(s()), "failed to create sandbox snapshot state"),
        (Error::HandleFunctionRequest(s()), "failed to handle the function request"),
        (Error::IssuerTimeout(1_500_000_000), "stopped awaiting RequestIssuer after 1.5s"),
        (
            Error::ForwardToSink(ForwardFault::Exhausted),
            "failed to forward Function's Response to Sink",
        ),
        (
            Error::Channel(ChannelUse::ForwardToSink, s()),
            "internal channel failure: forwarding response to Sink over mpsc",
        ),
        (
            Error::SnapshotManager { what: SnapshotManagerUse::QueryPaths, err: s() },
            "snapshot manager error: failed to query paths",
        ),
        (
            Error::SnapshotManager { what: SnapshotManagerUse::InitializeMonitor, err: s() },
            "snapshot manager error: failed to initialize PerformanceMonitor",
        ),
        (
            Error::SnapshotManager { what: SnapshotManagerUse::NotifyCreation, err: s() },
            "snapshot manager error: failed to notify SnapshotManager of new snapshot",
        ),
        (
            Error::SnapshotManager { what: SnapshotManagerUse::NotifyRemoval, err: s() },
            "snapshot manager error: failed to notify SnapshotManager of snapshot destruction",
        ),
    ] {
        assert_eq!(err.message(), shown);
        assert_eq!(err.clone().message(), shown);
    }
}

#[test]
fn sandbox_states_convert() {
    let sb = || NoOpSandbox {
        id: "7".to_string(),
        function_id: "f".to_string(),
        stats: SandboxStats::default(),
    };
    let mut state = SandboxState::from(Some(sb()));
    assert_eq!(state.as_ref(), SandboxStateRef::Snapshot);
    assert_eq!(state.id(), Some("7"));
    let taken = state.take();
    assert_eq!(state.as_ref(), SandboxStateRef::Nonexistent);
    assert_eq!(state.id(), None);
    assert_eq!(into_sandbox(taken).map(|sb| sb.id), Some("7".to_string()));
    assert!(into_sandbox(SandboxState::<NoOpSandbox>::Nonexistent).is_none());
    assert!(matches!(SandboxExit::from(SandboxState::Trashed(sb())), SandboxExit::Trashed(_)));
    assert!(matches!(SandboxExit::from(SandboxState::Snapshot(sb())), SandboxExit::Reusable(_)));
    let none = SandboxState::<NoOpSandbox>::from(None);
    assert!(matches!(SandboxExit::from(none), SandboxExit::Absent));
    let failed = DestroySandboxRuntimeError { sandbox: sb(), err: "busy".to_string() };
    let (sandbox, err) = failed.into_parts();
    assert_eq!(sandbox.id, "7");
    assert_eq!(err, "busy");
}

#[test]
fn snapshot_files_are_named_after_the_sandbox() {
    let target = SnapshotTarget {
        state_dir: "/a/".to_string(),
        memory_dir: "b".to_string(),
        sandbox_id: "tap7".to_string(),
    };
    assert_eq!(target.state_path(), "/a/tap7.state");
    assert_eq!(target.memory_path(), "b/tap7.memory");
}

#[test]
fn timings_of_a_failed_creation_are_stored() {
    let mut w = idle(None, SnapshotCreationTime::Never);
    step(&mut w, invocation(Some("400")));
    step(&mut w, Event::Took(7));
    let failed = Event::CreationFailed { cause: "no image".to_string(), recorded: 21, setup: 4 };
    assert!(matches!(step(&mut w, failed), Action::ReleaseSlot));
    match step(&mut w, Event::Took(900)) {
        Action::StoreTimings(None, timings) => {
            assert_eq!(timings.create_sandbox, 21);
            assert_eq!(timings.setup_resources, 11);
            assert_eq!(timings.queued, 100);
        }
        other => panic!("{other:?}"),
    }
}
