//! What comes of everything that a worker is asked for, step by step.
//!
//! A worker is at `w` when the event `e` arrives, and at `v` then; `a` is the action that it asks
//! for next.

use vstd::prelude::*;

use crate::metrics::Timings;
use crate::runtime::Sandbox;
use crate::worker::error::{ChannelUse, Error, ForwardFault, InitStage, SnapshotManagerUse};
use crate::worker::machine::{
    Action, Event, Phase, Purpose, SnapshotPurpose, Worker,
};
use crate::worker::messages::{ControlMessage, OutboundMessage};
use crate::worker::model;
use crate::worker::types::{SandboxExit, SandboxState, SandboxStateRef};

verus! {

/// The event arrives at `w`, which is `v` then and asks for `a`.
pub open spec fn goes<S: Sandbox>(w: Worker<S>, e: Event<S>, v: Worker<S>, a: Action<S>) -> bool {
    model::next(w, e) == Some((v, a))
}

/// The message that a worker says goodbye with.
pub open spec fn goodbye<S: Sandbox>(w: Worker<S>) -> Action<S> {
    Action::Send(OutboundMessage::ReapMe { worker_id: w.id, function_id: w.function_id })
}

/// An event that can come of what a worker waits for.
pub open spec fn can_come<S: Sandbox>(w: Worker<S>, e: Event<S>) -> bool {
    match w.phase {
        Phase::Idle => e is Invocation || e is Closed || e is Control,
        Phase::AllocateNetwork(_) => e is Took || e is Failed || e is NetworkManagerUnreachable || e
            is NetworkManagerSilent,
        Phase::Create(_) => e is Created || e is CreationFailed,
        Phase::PinFresh(_)
        | Phase::Load(_)
        | Phase::PinLoaded(_)
        | Phase::Resume(_)
        | Phase::PinResumed(_)
        | Phase::ResumeAfterSnapshot => e is Took || e is Failed,
        Phase::QueryPaths(_) => e is Paths || e is NoPaths || e is Failed,
        Phase::NotifySnapshot(_) | Phase::ReleaseSlot(_) => e is Took,
        Phase::Issue { .. } => e is Issued || e is IssueFailed || e is IssueTimedOut,
        Phase::Forward { attempts, err, .. } => e is Done || e is ForwardTimedOut || e
            is ForwardClosed || (e is ReplyNotBuilt && err is Some && attempts == 0),
        Phase::Announce(_)
        | Phase::AskForWork
        | Phase::ReportPrepared
        | Phase::ReportPrepareFailure(_)
        | Phase::ReportSnapshot => e is Done || e is PoolUnreachable,
        Phase::StoreTimings(_) | Phase::AwaitPauseRetry(_) => e is Done,
        Phase::Destroy { .. } => e is Done || e is DestroyFailed,
        Phase::Reap(err) => e is PoolUnreachable || (e is Done && (err is Some || w.state
            is Nonexistent || (w.state matches SandboxState::Snapshot(sb)
            && sb.spec_has_snapshot()))),
        Phase::Exited => false,
        _ => e is Done || e is Failed,
    }
}

/// The time that an event adds to what was recorded.
pub open spec fn time_of<S>(e: Event<S>) -> int {
    match e {
        Event::Took(took) => took as int,
        Event::Created { setup, .. } => setup as int,
        Event::CreationFailed { setup, .. } => setup as int,
        _ => 0,
    }
}

/// A worker takes every event that can come of what it waits for, and no other, as long as its
/// counters have room and a sandbox that was just created has no snapshot.
#[verifier::rlimit(40)]
pub proof fn law_what_can_come_is_taken<S: Sandbox>(w: Worker<S>, e: Event<S>)
    requires
        model::wf(w),
        w.timings.setup_resources + time_of(e) <= u64::MAX,
        w.timings.resume_sandbox + time_of(e) <= u64::MAX,
        w.state.sandbox() is Some ==> w.state.sandbox()->0.spec_stats().invocations < u64::MAX,
        w.state.sandbox() is Some ==> w.state.sandbox()->0.spec_stats().restorations < u64::MAX,
        w.fresh is Some ==> !w.fresh->0.spec_has_snapshot(),
    ensures
        model::accepts(w, e) <==> can_come(w, e),
{
}

/// The worker waits for what it asked for: each phase has its action.
pub open spec fn awaits<S: Sandbox>(v: Worker<S>, a: Action<S>) -> bool {
    match v.phase {
        Phase::Init => a is InitRuntime,
        Phase::Idle => a is AwaitMessage,
        Phase::AllocateNetwork(_) => a is AllocateNetwork,
        Phase::Create(_) => a is CreateSandbox,
        Phase::PinFresh(_) | Phase::PinLoaded(_) | Phase::PinResumed(_) => a
            == Action::<S>::SetupCpuset(v.cpuset),
        Phase::Announce(_) => v.fresh is Some && a == Action::<S>::Send(
            OutboundMessage::SandboxId { worker_id: v.id, sandbox_id: v.fresh->0.spec_id() },
        ),
        Phase::Load(_) => a is LoadSandbox,
        Phase::Resume(_) | Phase::ResumeAfterSnapshot => a is ResumeSandbox,
        Phase::PauseForSnapshot
        | Phase::PauseAfterInvocation
        | Phase::PausePrepared
        | Phase::CleanupPause(_)
        | Phase::RetryPause(_) => a is PauseSandbox,
        Phase::QueryPaths(_) => a is QuerySnapshotPaths,
        Phase::TakeSnapshot(_) => a matches Action::CreateSnapshot(target) && v.state.sandbox()
            is Some && target.sandbox_id == v.state.sandbox()->0.spec_id(),
        Phase::NotifySnapshot(_) => a is NotifySnapshotCreated,
        Phase::StartMonitor => a == Action::<S>::StartMonitor(v.start),
        Phase::Issue { .. } => a == Action::<S>::IssueRequest(v.start),
        Phase::Forward { attempts, .. } => if attempts == 0 {
            a is ForwardReply
        } else {
            a is ForwardAgain
        },
        Phase::StopMonitor { .. } => a matches Action::StopMonitor(start, _) && start == v.start,
        Phase::ReleaseSlot(_) => a is ReleaseSlot,
        Phase::StoreTimings(_) => a == Action::<S>::StoreTimings(
            match v.state.sandbox() {
                Some(sb) => Some(sb.spec_id()),
                None => None,
            },
            v.timings,
        ),
        Phase::AskForWork => a == Action::<S>::Send(
            OutboundMessage::NeedWork { worker_id: v.id, function_id: v.function_id },
        ),
        Phase::ReportPrepared => a matches Action::Send(OutboundMessage::SandboxPreparation(r))
            && r.result is Ok,
        Phase::ReportPrepareFailure(_) => a matches Action::Send(
            OutboundMessage::SandboxPreparation(r),
        ) && r.result is Err,
        Phase::ReportSnapshot => a matches Action::Send(OutboundMessage::SnapshotCreation(_)),
        Phase::CleanupShutdown(_) | Phase::Shutdown => a is ShutdownSandbox,
        Phase::AwaitPauseRetry(_) => a == Action::<S>::Sleep(3000),
        Phase::Destroy { .. } => a is DestroySandbox,
        Phase::NotifyRemoval { .. } => a is NotifySnapshotRemoved,
        Phase::ReleaseNetwork { .. } => a is ReleaseNetwork,
        Phase::Reap(_) => a == goodbye(v),
        Phase::Uncache => a is UncacheSandbox,
        Phase::Exited => a is Exit,
    }
}

/// A worker always waits for the action that it asked for, and asks with what it knows: the
/// processor it was given, the state that it started from, and its own sandbox and timings.
#[verifier::rlimit(40)]
pub proof fn law_worker_awaits_what_it_asked<S: Sandbox>(
    w: Worker<S>,
    e: Event<S>,
    v: Worker<S>,
    a: Action<S>,
)
    requires
        model::wf(w),
        goes(w, e, v, a),
        !(e is PoolUnreachable),
    ensures
        awaits(v, a),
{
}

/// What a worker is made with never changes. What it remembers of an invocation or of a
/// preparation is written down when that arrives, and kept until the next one does.
#[verifier::rlimit(40)]
pub proof fn law_what_is_remembered<S: Sandbox>(
    w: Worker<S>,
    e: Event<S>,
    v: Worker<S>,
    a: Action<S>,
)
    requires
        model::wf(w),
        goes(w, e, v, a),
    ensures
        v.id == w.id,
        v.function_id == w.function_id,
        v.snapshot_creation == w.snapshot_creation,
        v.issuer_timeout == w.issuer_timeout,
        match e {
            Event::Invocation { acquired, source_ts, cpuset } => v.start == w.state.kind() && v.cpuset
                == cpuset && v.source_ts == source_ts,
            Event::Control(ControlMessage::PrepareSandbox { cpuset }) => v.start == w.state.kind()
                && v.cpuset == cpuset && v.source_ts == w.source_ts,
            _ => v.start == w.start && v.cpuset == w.cpuset && v.source_ts == w.source_ts,
        },
        v.fresh is Some ==> v.fresh == w.fresh || (e matches Event::Created { sandbox, .. }
            && v.fresh == Some(sandbox)),
{
}

/// A sandbox is made if there is none, loaded if it is a snapshot, and resumed if it is paused;
/// and the sandbox itself is left as it is until that has been done.
pub proof fn law_how_a_sandbox_is_prepared<S: Sandbox>(w: Worker<S>, e: Event<S>, purpose: Purpose)
    requires
        model::wf(w),
        w.phase is Idle,
        match purpose {
            Purpose::Invocation => e is Invocation,
            Purpose::Control => e matches Event::Control(ControlMessage::PrepareSandbox { .. }),
        },
    ensures
        model::next(w, e) is Some,
        ({
            let (v, a) = model::next(w, e)->0;
            &&& v.state == w.state
            &&& w.state is Nonexistent ==> a is AllocateNetwork && v.phase
                == Phase::AllocateNetwork(purpose)
            &&& w.state is Snapshot ==> a is LoadSandbox && v.phase == Phase::Load(purpose)
            &&& w.state is Paused ==> a is ResumeSandbox && v.phase == Phase::Resume(purpose)
        }),
{
}

/// What each successful step of a preparation leads to, up to a running sandbox: the one that
/// was made, or the one that was there.
pub proof fn law_preparation_goes_on<S: Sandbox>(w: Worker<S>, e: Event<S>, p: Purpose)
    requires
        model::wf(w),
        model::fits(w, e),
    ensures
        w.phase == Phase::AllocateNetwork(p) && e is Took ==> {
            let (v, a) = model::next(w, e)->0;
            model::next(w, e) is Some && v.phase == Phase::Create(p) && v.state is Nonexistent
        },
        w.phase == Phase::Create(p) && e is Created ==> {
            let (v, a) = model::next(w, e)->0;
            model::next(w, e) is Some && v.phase == Phase::PinFresh(p) && v.fresh == Some(
                e->Created_sandbox,
            )
        },
        w.phase == Phase::PinFresh(p) && e is Took ==> {
            let (v, a) = model::next(w, e)->0;
            model::next(w, e) is Some && v.phase == Phase::Announce(p) && v.fresh == w.fresh
        },
        w.phase == Phase::Announce(p) && e is Done ==> {
            let (v, a) = model::next(w, e)->0;
            model::next(w, e) is Some && v.state == SandboxState::Running(w.fresh->0) && v.fresh
                is None && is_ready(v, p)
        },
        w.phase == Phase::Load(p) && e is Took ==> {
            let (v, a) = model::next(w, e)->0;
            model::next(w, e) is Some && v.phase == Phase::PinLoaded(p) && v.state is Running
        },
        w.phase == Phase::PinLoaded(p) && e is Took ==> {
            let (v, a) = model::next(w, e)->0;
            model::next(w, e) is Some && v.state == w.state && is_ready(v, p)
        },
        w.phase == Phase::Resume(p) && e is Took ==> {
            let (v, a) = model::next(w, e)->0;
            model::next(w, e) is Some && v.phase == Phase::PinResumed(p) && v.state == w.state
        },
        w.phase == Phase::PinResumed(p) && e is Took ==> {
            let (v, a) = model::next(w, e)->0;
            model::next(w, e) is Some && v.state == SandboxState::Running(w.state.sandbox()->0)
                && is_ready(v, p)
        },
{
}

/// A worker with a running sandbox that was prepared: it is paused for the pool. For an
/// invocation it is used at once, unless it was just made and a snapshot comes before that.
pub open spec fn is_ready<S>(v: Worker<S>, p: Purpose) -> bool {
    match p {
        Purpose::Control => v.phase is PausePrepared,
        Purpose::Invocation => if v.start is Nonexistent && v.snapshot_creation
            is OnCreationBeforeInvoc {
            v.phase is PauseForSnapshot
        } else {
            v.phase is StartMonitor
        },
    }
}

/// Why a preparation failed.
pub open spec fn is_preparation_error<S>(phase: Phase, e: Event<S>, err: Error) -> bool {
    match e {
        Event::Failed(cause) => match phase {
            Phase::AllocateNetwork(_) => err == Error::Network(cause),
            Phase::Load(_) => err == Error::LoadSandbox(cause),
            Phase::Resume(_) => err == Error::ResumeSandbox(cause),
            Phase::PinFresh(_) | Phase::PinLoaded(_) | Phase::PinResumed(_) => err
                == Error::SetupCpuset(cause),
            _ => false,
        },
        Event::NetworkManagerUnreachable(cause) => err == Error::Channel(
            ChannelUse::SendToNetworkManager,
            cause,
        ),
        Event::NetworkManagerSilent(cause) => err == Error::Channel(
            ChannelUse::ReceiveFromNetworkManager,
            cause,
        ),
        Event::CreationFailed { cause, .. } => err == Error::CreateSandbox(cause),
        _ => false,
    }
}

/// What a worker prepares a sandbox for.
pub open spec fn prepares(phase: Phase) -> Option<Purpose> {
    match phase {
        Phase::AllocateNetwork(p)
        | Phase::Create(p)
        | Phase::PinFresh(p)
        | Phase::Load(p)
        | Phase::PinLoaded(p)
        | Phase::Resume(p)
        | Phase::PinResumed(p) => Some(p),
        _ => None,
    }
}

/// A preparation that fails leaves the state of the sandbox alone. An invocation ends in that
/// failure, and the pool is told of it if it had asked.
pub proof fn law_failed_preparation<S: Sandbox>(w: Worker<S>, e: Event<S>, err: Error)
    requires
        model::wf(w),
        model::accepts(w, e),
        prepares(w.phase) is Some,
        is_preparation_error(w.phase, e, err),
    ensures
        ({
            let (v, a) = model::next(w, e)->0;
            let wrapped = Error::PrepareSandbox(Box::new(err));
            &&& v.state == w.state
            &&& v.fresh is None
            &&& prepares(w.phase) == Some(Purpose::Invocation) ==> v.phase == Phase::ReleaseSlot(
                Some(wrapped),
            )
            &&& prepares(w.phase) == Some(Purpose::Control) ==> v.phase
                == Phase::ReportPrepareFailure(wrapped) && (a matches Action::Send(
                OutboundMessage::SandboxPreparation(r),
            ) && r.result is Err && r.result->Err_0 == err)
        }),
{
}

/// A snapshot that belongs to an invocation is taken only of a sandbox that did not exist when
/// the invocation arrived, and at the moment that the worker's policy names. With any other
/// sandbox, or under any other policy, a faultless invocation goes from its pause straight to
/// the release of its slot.
#[verifier::rlimit(40)]
pub proof fn law_only_new_sandboxes_are_snapshotted<S: Sandbox>(
    w: Worker<S>,
    e: Event<S>,
    v: Worker<S>,
    a: Action<S>,
)
    requires
        model::wf(w),
        goes(w, e, v, a),
    ensures
        v.phase == Phase::QueryPaths(SnapshotPurpose::AfterInvocation) ==> {
            &&& w.phase is PauseAfterInvocation
            &&& e is Done
            &&& w.start is Nonexistent
            &&& w.snapshot_creation is OnCreationAfterInvoc
        },
        v.phase == Phase::QueryPaths(SnapshotPurpose::BeforeInvocation) ==> {
            &&& w.phase is PauseForSnapshot
            &&& e is Done
        },
        v.phase is PauseForSnapshot ==> {
            &&& w.start is Nonexistent
            &&& w.snapshot_creation is OnCreationBeforeInvoc
            &&& v.state is Running
        },
        w.phase is PauseAfterInvocation && e is Done ==> {
            &&& v.state == SandboxState::Paused(w.state.sandbox()->0)
            &&& !(w.start is Nonexistent) || !(w.snapshot_creation is OnCreationAfterInvoc)
                ==> v.phase == Phase::ReleaseSlot(None) && a is ReleaseSlot
            &&& w.start is Nonexistent && w.snapshot_creation is OnCreationAfterInvoc ==> v.phase
                == Phase::QueryPaths(SnapshotPurpose::AfterInvocation) && a is QuerySnapshotPaths
        },
        w.phase is PauseForSnapshot && e is Done ==> {
            &&& v.state == SandboxState::Paused(w.state.sandbox()->0)
            &&& v.phase == Phase::QueryPaths(SnapshotPurpose::BeforeInvocation)
        },
{
}

/// The snapshot that a worker takes or has taken for an invocation is one that its policy
/// names, of a sandbox that the invocation made.
pub open spec fn snapshots_by_policy<S>(w: Worker<S>) -> bool {
    let why = match w.phase {
        Phase::QueryPaths(why) => Some(why),
        Phase::TakeSnapshot(why) => Some(why),
        Phase::NotifySnapshot(why) => Some(why),
        _ => None,
    };
    let before = w.phase is PauseForSnapshot || w.phase is ResumeAfterSnapshot || why == Some(
        SnapshotPurpose::BeforeInvocation,
    );
    let after = why == Some(SnapshotPurpose::AfterInvocation);
    let prepared = why is Some && why->0 is Preparation;
    &&& before || prepared ==> w.start is Nonexistent && w.snapshot_creation
        is OnCreationBeforeInvoc
    &&& after ==> w.start is Nonexistent && w.snapshot_creation is OnCreationAfterInvoc
}

/// Over a worker's whole life, a snapshot is taken for an invocation or a preparation only of a
/// sandbox that it made, and only as the worker's policy has it.
pub proof fn law_snapshots_follow_the_policy<S: Sandbox>(
    first: Worker<S>,
    before: Seq<Worker<S>>,
    events: Seq<Event<S>>,
    after: Seq<Worker<S>>,
)
    requires
        model::wf(first),
        first.phase is Init,
        crate::worker::laws::is_life(first, before, events, after),
    ensures
        forall|i: int| 0 <= i < after.len() ==> snapshots_by_policy(#[trigger] after[i]),
        forall|i: int| 0 <= i < before.len() ==> snapshots_by_policy(#[trigger] before[i]),
        forall|i: int|
            0 <= i < after.len() ==> (#[trigger] after[i]).snapshot_creation
                == first.snapshot_creation,
    decreases events.len(),
{
    if events.len() > 0 {
        let n = events.len() - 1;
        let (b, es, af) = (before.drop_last(), events.drop_last(), after.drop_last());
        assert(crate::worker::laws::is_life(first, b, es, af)) by {
            assert forall|i: int| 0 <= i < es.len() implies crate::worker::laws::is_life_step(
                crate::worker::laws::asker(first, af, i),
                #[trigger] b[i],
                es[i],
                af[i],
            ) by {
                assert(crate::worker::laws::is_life_step(
                    crate::worker::laws::asker(first, after, i),
                    before[i],
                    events[i],
                    after[i],
                ));
                assert(crate::worker::laws::asker(first, af, i) == crate::worker::laws::asker(
                    first,
                    after,
                    i,
                ));
            }
        }
        law_snapshots_follow_the_policy(first, b, es, af);
        crate::worker::laws::law_life(first, b, es, af);
        let asked = crate::worker::laws::asker(first, after, n);
        assert(crate::worker::laws::is_life_step(asked, before[n], events[n], after[n]));
        assert(n > 0 ==> asked == af[n - 1]);
        assert(snapshots_by_policy(asked));
        assert(snapshots_by_policy(before[n]));
        lemma_policy_is_kept(before[n], events[n]);
        assert forall|i: int| 0 <= i < after.len() implies snapshots_by_policy(
            #[trigger] after[i],
        ) && after[i].snapshot_creation == first.snapshot_creation by {
            if i < n {
                assert(after[i] == af[i]);
            }
        }
        assert forall|i: int| 0 <= i < before.len() implies snapshots_by_policy(
            #[trigger] before[i],
        ) by {
            if i < n {
                assert(before[i] == b[i]);
            }
        }
    }
}

proof fn lemma_policy_on_idle<S: Sandbox>(w: Worker<S>, e: Event<S>)
    requires
        snapshots_by_policy(w),
        model::on_idle(w, e) is Some,
    ensures
        snapshots_by_policy((model::on_idle(w, e)->0).0),
        (model::on_idle(w, e)->0).0.snapshot_creation == w.snapshot_creation,
{
}

proof fn lemma_policy_on_create<S: Sandbox>(w: Worker<S>, e: Event<S>)
    requires
        snapshots_by_policy(w),
        model::on_create(w, e) is Some,
    ensures
        snapshots_by_policy((model::on_create(w, e)->0).0),
        (model::on_create(w, e)->0).0.snapshot_creation == w.snapshot_creation,
{
}

proof fn lemma_policy_on_wake<S: Sandbox>(w: Worker<S>, e: Event<S>)
    requires
        snapshots_by_policy(w),
        model::on_wake(w, e) is Some,
    ensures
        snapshots_by_policy((model::on_wake(w, e)->0).0),
        (model::on_wake(w, e)->0).0.snapshot_creation == w.snapshot_creation,
{
}

proof fn lemma_policy_on_snapshot<S: Sandbox>(w: Worker<S>, e: Event<S>)
    requires
        snapshots_by_policy(w),
        model::on_snapshot(w, e) is Some,
    ensures
        snapshots_by_policy((model::on_snapshot(w, e)->0).0),
        (model::on_snapshot(w, e)->0).0.snapshot_creation == w.snapshot_creation,
{
}

proof fn lemma_policy_on_invocation<S: Sandbox>(w: Worker<S>, e: Event<S>)
    requires
        snapshots_by_policy(w),
        model::on_invocation(w, e) is Some,
    ensures
        snapshots_by_policy((model::on_invocation(w, e)->0).0),
        (model::on_invocation(w, e)->0).0.snapshot_creation == w.snapshot_creation,
{
}

proof fn lemma_policy_on_report<S: Sandbox>(w: Worker<S>, e: Event<S>)
    requires
        snapshots_by_policy(w),
        model::on_report(w, e) is Some,
    ensures
        snapshots_by_policy((model::on_report(w, e)->0).0),
        (model::on_report(w, e)->0).0.snapshot_creation == w.snapshot_creation,
{
}

proof fn lemma_policy_on_teardown<S: Sandbox>(w: Worker<S>, e: Event<S>)
    requires
        snapshots_by_policy(w),
        model::on_teardown(w, e) is Some,
    ensures
        snapshots_by_policy((model::on_teardown(w, e)->0).0),
        (model::on_teardown(w, e)->0).0.snapshot_creation == w.snapshot_creation,
{
}

proof fn lemma_policy_is_kept<S: Sandbox>(w: Worker<S>, e: Event<S>)
    requires
        snapshots_by_policy(w),
        model::next(w, e) is Some,
    ensures
        snapshots_by_policy((model::next(w, e)->0).0),
        (model::next(w, e)->0).0.snapshot_creation == w.snapshot_creation,
{
    if !(e is PoolUnreachable) {
        match w.phase {
            Phase::Init | Phase::Idle => lemma_policy_on_idle(w, e),
            Phase::AllocateNetwork(_)
            | Phase::Create(_)
            | Phase::PinFresh(_)
            | Phase::Announce(_) => lemma_policy_on_create(w, e),
            Phase::Load(_)
            | Phase::PinLoaded(_)
            | Phase::Resume(_)
            | Phase::PinResumed(_) => lemma_policy_on_wake(w, e),
            Phase::PauseForSnapshot
            | Phase::ResumeAfterSnapshot
            | Phase::QueryPaths(_)
            | Phase::TakeSnapshot(_)
            | Phase::NotifySnapshot(_) => lemma_policy_on_snapshot(w, e),
            Phase::StartMonitor
            | Phase::Issue { .. }
            | Phase::Forward { .. }
            | Phase::StopMonitor { .. }
            | Phase::PauseAfterInvocation
            | Phase::ReleaseSlot(_)
            | Phase::StoreTimings(_)
            | Phase::AskForWork => lemma_policy_on_invocation(w, e),
            Phase::PausePrepared
            | Phase::ReportPrepared
            | Phase::ReportPrepareFailure(_)
            | Phase::ReportSnapshot => lemma_policy_on_report(w, e),
            _ => lemma_policy_on_teardown(w, e),
        }
    }
}

/// Taking a snapshot goes from the paths to the files to the snapshot manager, for one purpose
/// and with the sandbox left as it is. The files are named after the sandbox and go where the
/// snapshot manager says.
pub proof fn law_how_a_snapshot_is_taken<S: Sandbox>(w: Worker<S>, e: Event<S>, why: SnapshotPurpose)
    requires
        model::wf(w),
    ensures
        w.phase == Phase::QueryPaths(why) && e is Paths ==> model::next(w, e) is Some && ({
            let (v, a) = model::next(w, e)->0;
            &&& v.phase == Phase::TakeSnapshot(why)
            &&& v.state == w.state
            &&& a matches Action::CreateSnapshot(target) && target.state_dir == e->state
                && target.memory_dir == e->memory && target.sandbox_id
                == w.state.sandbox()->0.spec_id()
        }),
        w.phase == Phase::TakeSnapshot(why) && e is Done ==> model::next(w, e) is Some && ({
            let (v, a) = model::next(w, e)->0;
            v.phase == Phase::NotifySnapshot(why) && v.state == w.state && a
                is NotifySnapshotCreated
        }),
        (w.phase == Phase::QueryPaths(why) && (e is NoPaths || e is Failed)) || (w.phase
            == Phase::TakeSnapshot(why) && e is Failed) || (w.phase == Phase::NotifySnapshot(why)
            && e is Took) ==> model::next(w, e) is Some && ({
            let (v, a) = model::next(w, e)->0;
            &&& v.state == w.state
            &&& why is BeforeInvocation ==> v.phase is ResumeAfterSnapshot
            &&& why is AfterInvocation ==> v.phase == Phase::ReleaseSlot(None)
            &&& why is Preparation ==> v.phase is ReportPrepared
            &&& why is Request ==> v.phase is ReportSnapshot
        }),
        w.phase is ResumeAfterSnapshot && e is Took && model::fits(w, e) ==> model::next(w, e)
            is Some && ({
            let (v, a) = model::next(w, e)->0;
            v.phase is StartMonitor && v.state == SandboxState::Running(w.state.sandbox()->0)
        }),
        w.phase is ResumeAfterSnapshot && e is Failed ==> model::next(w, e) is Some && ({
            let (v, a) = model::next(w, e)->0;
            v.state == w.state && v.phase == Phase::ReleaseSlot(
                Some(Error::PrepareSandbox(Box::new(Error::ResumeSandbox(e->Failed_0)))),
            )
        }),
        w.phase is PauseForSnapshot && e is Failed ==> model::next(w, e) is Some && ({
            let (v, a) = model::next(w, e)->0;
            v.state == w.state && v.phase == Phase::ReleaseSlot(
                Some(Error::PauseSandbox(e->Failed_0)),
            )
        }),
{
}

/// A request for a snapshot is answered with success exactly if the sandbox had one already, or
/// if nothing failed while one was taken: on any event but a failure. An answer that tells of a
/// failure comes of one, and names it, or there is no sandbox that a snapshot can be taken of.
pub proof fn law_answer_to_a_snapshot_request<S: Sandbox>(
    w: Worker<S>,
    e: Event<S>,
    v: Worker<S>,
    a: Action<S>,
)
    requires
        model::wf(w),
        goes(w, e, v, a),
        !(e is PoolUnreachable),
        a matches Action::Send(OutboundMessage::SnapshotCreation(_)),
    ensures
        ({
            let answer = a->Send_0->SnapshotCreation_0;
            let request = match e {
                Event::Control(ControlMessage::CreateSnapshot { sandbox_id }) => Some(sandbox_id),
                _ => None,
            };
            let why = match w.phase {
                Phase::QueryPaths(why) => Some(why),
                Phase::TakeSnapshot(why) => Some(why),
                Phase::NotifySnapshot(why) => Some(why),
                _ => None,
            };
            &&& answer.worker_id == w.id
            &&& answer.function_id == w.function_id
            &&& v.state == w.state
            &&& request is Some || (why is Some && why->0 is Request)
            &&& request is Some ==> {
                &&& answer.sandbox_id == match w.state.sandbox() {
                    Some(sb) => sb.spec_id(),
                    None => request->0,
                }
                &&& answer.result is Ok <==> (w.state is Snapshot || w.state is Paused)
                &&& answer.result is Err ==> answer.result->Err_0 == Error::CreateSnapshotControl(
                    w.state.kind(),
                )
            }
            &&& request is None ==> {
                &&& answer.sandbox_id == why->0->Request_sandbox_id
                &&& answer.result is Ok <==> e is Took || e is NoPaths
                &&& answer.result is Err <==> e is Failed
                &&& w.phase is QueryPaths && e is Failed ==> answer.result->Err_0
                    == (Error::SnapshotManager {
                    what: SnapshotManagerUse::QueryPaths,
                    err: e->Failed_0,
                })
                &&& w.phase is TakeSnapshot && e is Failed ==> answer.result->Err_0
                    == Error::CreateSnapshot(e->Failed_0)
            }
        }),
{
}

/// A request for a snapshot is answered at once if the sandbox has one or if there is none to
/// take it of; a paused sandbox without a snapshot has one taken.
pub proof fn law_snapshot_request<S: Sandbox>(w: Worker<S>, e: Event<S>)
    requires
        model::wf(w),
        w.phase is Idle,
        e matches Event::Control(ControlMessage::CreateSnapshot { .. }),
    ensures
        model::next(w, e) is Some,
        ({
            let (v, a) = model::next(w, e)->0;
            let bare = w.state is Paused && !w.state.sandbox()->0.spec_has_snapshot();
            &&& v.state == w.state
            &&& v.timings == Timings::zero()
            &&& bare ==> v.phase == Phase::QueryPaths(
                SnapshotPurpose::Request { sandbox_id: w.state.sandbox()->0.spec_id() },
            )
            &&& !bare ==> v.phase is ReportSnapshot
        }),
{
}

/// The pool's request for a sandbox is answered with its name, whether it has a snapshot, and
/// its counters. It has one if it had one when it was paused, or if taking one did not fail.
/// A failure to pause it is what the pool is told of.
pub proof fn law_answer_to_a_preparation<S: Sandbox>(
    w: Worker<S>,
    e: Event<S>,
    why: SnapshotPurpose,
)
    requires
        model::wf(w),
    ensures
        w.phase is PausePrepared && e is Done ==> model::next(w, e) is Some && ({
            let (v, a) = model::next(w, e)->0;
            let sb = w.state.sandbox()->0;
            &&& v.state == SandboxState::Paused(sb)
            &&& w.start is Nonexistent && w.snapshot_creation is OnCreationBeforeInvoc ==> v.phase
                == Phase::QueryPaths(
                SnapshotPurpose::Preparation {
                    sandbox_id: sb.spec_id(),
                    had_snapshot: sb.spec_has_snapshot(),
                    stats: sb.spec_stats(),
                },
            )
            &&& !(w.start is Nonexistent) || !(w.snapshot_creation is OnCreationBeforeInvoc)
                ==> v.phase is ReportPrepared && (a matches Action::Send(
                OutboundMessage::SandboxPreparation(r),
            ) && r.result == Ok::<_, Error>(
                (sb.spec_id(), sb.spec_has_snapshot(), sb.spec_stats()),
            ))
        }),
        w.phase is PausePrepared && e is Failed ==> model::next(w, e) is Some && ({
            let (v, a) = model::next(w, e)->0;
            let err = Error::PauseSandbox(e->Failed_0);
            v.state == w.state && v.phase == Phase::ReportPrepareFailure(err) && (a matches
                Action::Send(OutboundMessage::SandboxPreparation(r)) && r.result is Err && r.result->Err_0 == err)
        }),
        why is Preparation && ((w.phase == Phase::QueryPaths(why) && (e is NoPaths || e is Failed))
            || (w.phase == Phase::TakeSnapshot(why) && e is Failed) || (w.phase
            == Phase::NotifySnapshot(why) && e is Took)) ==> model::next(w, e) is Some && ({
            let (v, a) = model::next(w, e)->0;
            a matches Action::Send(OutboundMessage::SandboxPreparation(r)) && r.result == Ok::<
                _,
                Error,
            >((why->Preparation_sandbox_id, why->had_snapshot || !(e is Failed), why->stats))
        }),
{
}

/// A worker that answered the pool waits for the next message, with the sandbox as it is. If a
/// preparation failed, it cleans up after that instead.
pub proof fn law_after_an_answer<S: Sandbox>(w: Worker<S>, e: Event<S>)
    requires
        model::wf(w),
        e is Done,
    ensures
        w.phase is ReportPrepared || w.phase is ReportSnapshot || w.phase is AskForWork || w.phase
            is Init ==> model::next(w, e) is Some && ({
            let (v, a) = model::next(w, e)->0;
            v.phase is Idle && a is AwaitMessage && v.state == w.state && v.timings == w.timings
        }),
        w.phase == Phase::StoreTimings(None) ==> model::next(w, e) is Some && ({
            let (v, a) = model::next(w, e)->0;
            v.phase is AskForWork && v.state == w.state
        }),
{
}

/// A request is issued once the monitor was started, whether or not that worked; the monitor is
/// stopped only if it was started.
pub proof fn law_monitor<S: Sandbox>(w: Worker<S>, e: Event<S>, v: Worker<S>, a: Action<S>)
    requires
        model::wf(w),
        goes(w, e, v, a),
    ensures
        w.phase is StartMonitor ==> v.phase == (Phase::Issue { monitored: e is Done }) && v.state
            == w.state,
        w.phase matches Phase::Issue { monitored } ==> (v.phase matches Phase::Forward {
            monitored: kept,
            attempts,
            ..
        } && kept == monitored && attempts == 0),
        w.phase matches Phase::Forward { monitored, took, .. } ==> {
            &&& v.phase matches Phase::Forward { monitored: kept, took: same, .. } ==> kept
                == monitored && same == took
            &&& !(v.phase is Forward) ==> (v.phase is StopMonitor <==> monitored)
            &&& v.phase is StopMonitor ==> a == Action::<S>::StopMonitor(w.start, took)
        },
        a is StopMonitor ==> w.phase matches Phase::Forward { monitored: true, .. },
{
}

/// The outcome of a request is what its issuer says: the response comes with how long it took
/// if the Function answered, and with the error that the invocation ends in otherwise.
pub proof fn law_issued_request<S: Sandbox>(w: Worker<S>, e: Event<S>, v: Worker<S>, a: Action<S>)
    requires
        model::wf(w),
        goes(w, e, v, a),
        w.phase is Issue,
    ensures
        a is ForwardReply,
        a->ForwardReply_0.source_ts == w.source_ts,
        v.phase is Forward,
        match e {
            Event::Issued { took, .. } => v.phase->Forward_took == Some(took)
                && v.phase->Forward_err is None && a->ForwardReply_0.outcome
                is FromFunction && v.state is Running,
            Event::IssueFailed { cause, .. } => v.phase->Forward_took is None
                && v.phase->Forward_err == Some(Error::HandleFunctionRequest(cause))
                && a->ForwardReply_0.outcome is IssuerFailed && v.state == w.state,
            _ => v.phase->Forward_took is None && v.phase->Forward_err == Some(
                Error::IssuerTimeout(w.issuer_timeout),
            ) && a->ForwardReply_0.outcome is IssuerTimedOut && v.state == w.state,
        },
{
}

/// The error that an invocation has met once its response was forwarded or given up on.
pub open spec fn met<S>(v: Worker<S>) -> Option<Error> {
    match v.phase {
        Phase::StopMonitor { err } => err,
        Phase::ReleaseSlot(err) => err,
        _ => None,
    }
}

/// A response is forwarded again after each of the first nine timeouts, and given up on after
/// the tenth or when the sink is closed. That is the error of an invocation which had none
/// before, and one which had keeps its own.
pub proof fn law_forwarding<S: Sandbox>(w: Worker<S>, e: Event<S>, v: Worker<S>, a: Action<S>)
    requires
        model::wf(w),
        goes(w, e, v, a),
        w.phase is Forward,
    ensures
        v.state == w.state,
        ({
            let attempts = w.phase->Forward_attempts;
            let err = w.phase->Forward_err;
            &&& v.phase is Forward <==> e is ForwardTimedOut && attempts < 9
            &&& v.phase is Forward ==> a is ForwardAgain && v.phase->Forward_attempts == attempts + 1
                && v.phase->Forward_err == err
            &&& !(v.phase is Forward) && err is Some ==> met(v) == err
            &&& err is None && (e is Done || e is ReplyNotBuilt) ==> met(v) is None
            &&& err is None && e is ForwardTimedOut && attempts >= 9 ==> met(v) == Some(
                Error::ForwardToSink(ForwardFault::Exhausted),
            )
            &&& err is None && e is ForwardClosed && attempts < 9 ==> met(v) == Some(
                Error::ForwardToSink(ForwardFault::Closed(e->ForwardClosed_0)),
            )
            &&& err is None && e is ForwardClosed && attempts >= 9 ==> met(v) == Some(
                Error::ForwardToSink(ForwardFault::Exhausted),
            )
            &&& !(v.phase is Forward) && !(v.phase is StopMonitor) ==> (if met(v) is Some {
                v.phase is ReleaseSlot
            } else {
                v.phase is PauseAfterInvocation
            })
        }),
{
}

/// The sandbox of a faultless invocation is paused; one that met an error has its slot released
/// at once. The slot is released with the error that was met, which stays until it is dealt
/// with.
pub proof fn law_end_of_an_invocation<S: Sandbox>(
    w: Worker<S>,
    e: Event<S>,
    v: Worker<S>,
    a: Action<S>,
)
    requires
        model::wf(w),
        goes(w, e, v, a),
    ensures
        w.phase matches Phase::StopMonitor { err } ==> v.state == w.state && (if err is Some {
            v.phase == Phase::ReleaseSlot(err)
        } else {
            v.phase is PauseAfterInvocation
        }),
        w.phase is PauseAfterInvocation && e is Failed ==> v.state == w.state && v.phase
            == Phase::ReleaseSlot(Some(Error::PauseSandbox(e->Failed_0))),
        w.phase matches Phase::ReleaseSlot(err) ==> v.state == w.state && v.phase
            == Phase::StoreTimings(err),
{
}

/// What is done about an error, once the slot of its invocation is free or the pool was told: a
/// pause that failed is tried again after a while; a running sandbox is paused; a paused one is
/// shut down if it has a snapshot, and destroyed otherwise; and if there is none, or only a
/// snapshot, the worker leaves as if nothing had happened.
pub proof fn law_what_is_done_about_an_error<S: Sandbox>(w: Worker<S>, e: Event<S>, err: Error)
    requires
        model::wf(w),
        w.phase == Phase::StoreTimings(Some(err)) || w.phase == Phase::ReportPrepareFailure(err),
        e is Done,
    ensures
        model::next(w, e) is Some,
        ({
            let (v, a) = model::next(w, e)->0;
            &&& err is PauseSandbox ==> v.phase == Phase::AwaitPauseRetry(err) && v.state == w.state
            &&& !(err is PauseSandbox) ==> match w.state {
                SandboxState::Running(_) => v.phase == Phase::CleanupPause(err) && v.state
                    == w.state,
                SandboxState::Paused(sb) => if sb.spec_has_snapshot() {
                    v.phase == Phase::CleanupShutdown(err) && v.state == w.state
                } else {
                    &&& v.phase == (Phase::Destroy {
                        from: SandboxStateRef::Paused,
                        snapshot: None,
                        why: Some(err),
                    })
                    &&& a == Action::DestroySandbox(sb)
                    &&& v.state is Nonexistent
                },
                _ => v.phase == Phase::Reap(None) && v.state == w.state,
            }
        }),
{
}

/// How cleaning up after an error goes on. A sandbox that could be paused is shut down if it has
/// a snapshot, and destroyed otherwise; one that was shut down is a snapshot again, and the
/// worker ends well. A sandbox that could not be paused or shut down is trashed, and the worker
/// ends in the error that it cleaned up after. One whose pause had failed before is destroyed
/// in any case.
pub proof fn law_cleaning_up<S: Sandbox>(
    w: Worker<S>,
    e: Event<S>,
    v: Worker<S>,
    a: Action<S>,
    err: Error,
)
    requires
        model::wf(w),
        goes(w, e, v, a),
    ensures
        w.phase == Phase::CleanupPause(err) && e is Done ==> {
            let sb = w.state.sandbox()->0;
            if sb.spec_has_snapshot() {
                v.phase == Phase::CleanupShutdown(err) && v.state == SandboxState::Paused(sb)
            } else {
                v.phase == (Phase::Destroy {
                    from: SandboxStateRef::Paused,
                    snapshot: None,
                    why: Some(err),
                }) && a == Action::DestroySandbox(sb)
            }
        },
        (w.phase == Phase::CleanupPause(err) || w.phase == Phase::CleanupShutdown(err)) && e
            is Failed ==> v.phase == Phase::Reap(Some(err)) && v.state == SandboxState::Trashed(
            w.state.sandbox()->0,
        ),
        w.phase == Phase::CleanupShutdown(err) && e is Done ==> v.phase == Phase::Reap(None)
            && v.state == SandboxState::Snapshot(w.state.sandbox()->0),
        w.phase == Phase::AwaitPauseRetry(err) ==> v.phase == Phase::RetryPause(err) && v.state
            == w.state,
        w.phase == Phase::RetryPause(err) ==> {
            &&& a == Action::DestroySandbox(w.state.sandbox()->0)
            &&& v.phase is Destroy
            &&& v.phase->Destroy_why == Some(err)
            &&& v.phase->from == if e is Done {
                SandboxStateRef::Paused
            } else {
                SandboxStateRef::Running
            }
        },
{
}

/// What a worker does when it is told to shut down: a paused sandbox with a snapshot is shut
/// down, one without is destroyed, and in any other state the worker leaves at once. A snapshot
/// outlives the shutdown: if that succeeds the sandbox is that snapshot, and the worker leaves
/// without an error. If it fails the sandbox is trashed, and the worker leaves with the error.
pub proof fn law_shutdown_keeps_the_snapshot<S: Sandbox>(
    w: Worker<S>,
    e: Event<S>,
    v: Worker<S>,
    a: Action<S>,
)
    requires
        model::wf(w),
        goes(w, e, v, a),
    ensures
        e == Event::<S>::Control(ControlMessage::ShutDown) ==> match w.state {
            SandboxState::Paused(sb) => if sb.spec_has_snapshot() {
                v.phase is Shutdown && a is ShutdownSandbox && v.state == w.state
            } else {
                a == Action::DestroySandbox(sb) && v.phase == (Phase::Destroy {
                    from: SandboxStateRef::Paused,
                    snapshot: None,
                    why: None,
                })
            },
            _ => v.phase == Phase::Reap(None) && v.state == w.state,
        },
        w.phase is Shutdown && e is Done ==> {
            &&& v.state == SandboxState::Snapshot(w.state.sandbox()->0)
            &&& v.phase == Phase::Reap(None)
            &&& a == goodbye(w)
        },
        w.phase is Shutdown && e is Failed ==> {
            &&& v.state == SandboxState::Trashed(w.state.sandbox()->0)
            &&& v.phase == Phase::Reap(Some(Error::ShutdownSandbox(e->Failed_0)))
            &&& a == goodbye(w)
        },
{
}

/// A sandbox is destroyed together with its snapshot only at the pool's express request, or
/// because it could not be paused.
#[verifier::rlimit(40)]
pub proof fn law_snapshots_are_not_destroyed_lightly<S: Sandbox>(
    w: Worker<S>,
    e: Event<S>,
    v: Worker<S>,
    a: Action<S>,
)
    requires
        model::wf(w),
        goes(w, e, v, a),
    ensures
        a matches Action::DestroySandbox(sb) ==> {
            &&& w.state.sandbox() == Some(sb)
            &&& v.state is Nonexistent
            &&& v.phase is Destroy
            &&& v.phase->snapshot == if sb.spec_has_snapshot() {
                Some(sb.spec_id())
            } else {
                None
            }
            &&& sb.spec_has_snapshot() ==> e == Event::<S>::Control(ControlMessage::DestroySandbox)
                || w.phase is RetryPause
        },
{
}

/// What a worker does when it is told to destroy its sandbox, and what comes of that. The
/// snapshot manager is told if there was a snapshot, and the network is given back. Whether the
/// snapshot manager takes note does not matter; a worker whose sandbox is gone leaves without an
/// error if its network could be given back. Otherwise, it leaves with the error that the
/// sandbox was destroyed for, or with the new one if there was none. A sandbox that could not be
/// destroyed is trashed, as the runtime left it.
pub proof fn law_destruction<S: Sandbox>(w: Worker<S>, e: Event<S>, v: Worker<S>, a: Action<S>)
    requires
        model::wf(w),
        goes(w, e, v, a),
        !(e is PoolUnreachable),
    ensures
        e == Event::<S>::Control(ControlMessage::DestroySandbox) ==> match w.state.sandbox() {
            Some(sb) => a == Action::DestroySandbox(sb) && v.phase is Destroy && v.phase->Destroy_why
                is None && v.phase->from == w.state.kind(),
            None => v.phase == Phase::Reap(None) && v.state == w.state,
        },
        w.phase matches Phase::Destroy { snapshot, why, .. } ==> {
            &&& e is Done && snapshot is Some ==> v.phase == (Phase::NotifyRemoval { why }) && a
                == Action::<S>::NotifySnapshotRemoved(snapshot->0) && v.state is Nonexistent
            &&& e is Done && snapshot is None ==> v.phase == (Phase::ReleaseNetwork { why })
                && v.state is Nonexistent
            &&& e is DestroyFailed ==> v.state == SandboxState::Trashed(
                e->DestroyFailed_0.sandbox,
            ) && v.phase == Phase::Reap(
                Some(
                    if why is Some {
                        why->0
                    } else {
                        Error::DestroySandbox(e->DestroyFailed_0.err)
                    },
                ),
            )
        },
        w.phase matches Phase::NotifyRemoval { why } ==> v.phase == (Phase::ReleaseNetwork { why })
            && v.state is Nonexistent,
        w.phase matches Phase::ReleaseNetwork { why } ==> {
            &&& v.state is Nonexistent
            &&& e is Done ==> v.phase == Phase::Reap(None)
            &&& e is Failed ==> v.phase == Phase::Reap(
                Some(
                    if why is Some {
                        why->0
                    } else {
                        Error::Network(e->Failed_0)
                    },
                ),
            )
        },
{
}

/// How a worker leaves: with an error or without a sandbox it is gone as soon as the pool knows;
/// a snapshot is dropped from the page cache first, whether or not that works. It is gone with
/// the error that it left with, and hands over the snapshot that it leaves as reusable.
pub proof fn law_leaving<S: Sandbox>(w: Worker<S>, e: Event<S>, v: Worker<S>, a: Action<S>)
    requires
        model::wf(w),
        goes(w, e, v, a),
        !(e is PoolUnreachable),
    ensures
        w.phase is Idle && e is Closed ==> v.phase == Phase::Reap(None) && v.state == w.state,
        w.phase is Init && e is Failed ==> v.state == w.state && v.phase == Phase::Reap(
            Some(Error::Init { stage: InitStage::RuntimeInitialization, source: e->Failed_0 }),
        ),
        w.phase matches Phase::Reap(err) ==> if err is None && w.state is Snapshot {
            v.phase is Uncache && a is UncacheSandbox && v.state == w.state
        } else {
            v.phase is Exited && a is Exit
        },
        w.phase is Uncache ==> v.phase is Exited && a is Exit && a->Exit_0.result is Ok,
        a matches Action::Exit(x) ==> {
            &&& w.phase == Phase::Reap(None) ==> x.result is Ok
            &&& w.phase is Reap && w.phase->Reap_0 is Some ==> x.result == Err::<(), _>(
                w.phase->Reap_0->0,
            )
            &&& match w.state {
                SandboxState::Nonexistent => x.sandbox is Absent,
                SandboxState::Snapshot(sb) => x.sandbox == SandboxExit::Reusable(sb),
                SandboxState::Paused(sb) => x.sandbox == SandboxExit::Trashed(sb),
                SandboxState::Running(sb) => x.sandbox == SandboxExit::Trashed(sb),
                SandboxState::Trashed(sb) => x.sandbox == SandboxExit::Trashed(sb),
            }
        },
{
}

/// A worker that is told to shut down while its sandbox is paused and has a snapshot hands that
/// very sandbox back as reusable and ends well, if the sandbox can be shut down; whatever the
/// runtime does to the sandbox meanwhile, as long as the snapshot stays.
pub proof fn law_shutdown_hands_the_snapshot_back<S: Sandbox>(
    w0: Worker<S>,
    w1: Worker<S>,
    w2: Worker<S>,
    w3: Worker<S>,
    uncached: Event<S>,
)
    requires
        model::wf(w0),
        w0.phase is Idle,
        w0.state matches SandboxState::Paused(sb) && sb.spec_has_snapshot(),
        model::next(w0, Event::Control(ControlMessage::ShutDown)) is Some ==> {
            let v0 = (model::next(w0, Event::Control(ControlMessage::ShutDown))->0).0;
            crate::worker::laws::acted_on(v0, w1)
        },
        w1.state.sandbox() is Some && w1.state.sandbox()->0.spec_has_snapshot(),
        model::next(w1, Event::Done) is Some ==> w2 == (model::next(w1, Event::Done)->0).0,
        model::next(w2, Event::Done) is Some ==> w3 == (model::next(w2, Event::Done)->0).0,
        uncached is Done || uncached is Failed,
    ensures
        model::next(w0, Event::Control(ControlMessage::ShutDown)) is Some,
        (model::next(w0, Event::Control(ControlMessage::ShutDown))->0).1 is ShutdownSandbox,
        model::next(w1, Event::Done) is Some,
        (model::next(w1, Event::Done)->0).1 == goodbye(w0),
        model::next(w2, Event::Done) is Some,
        (model::next(w2, Event::Done)->0).1 is UncacheSandbox,
        model::next(w3, uncached) is Some,
        (model::next(w3, uncached)->0).1 matches Action::Exit(x) && x.result is Ok && x.sandbox
            == SandboxExit::Reusable(w1.state.sandbox()->0),
{
}

/// The timings that an event adds to, given what was recorded before.
pub open spec fn is_recorded<S: Sandbox>(w: Worker<S>, e: Event<S>, t: Timings) -> bool {
    let old = w.timings;
    // setting up resources adds up
    &&& t.setup_resources == match (w.phase, e) {
        (Phase::AllocateNetwork(_), Event::Took(took))
        | (Phase::PinFresh(_), Event::Took(took))
        | (Phase::PinResumed(_), Event::Took(took)) => old.setup_resources + took,
        (Phase::PinLoaded(_), Event::Took(took)) => took as int,
        (_, Event::Created { setup, .. }) | (_, Event::CreationFailed { setup, .. }) =>
            old.setup_resources + setup,
        _ => old.setup_resources as int,
    }
    &&& t.create_sandbox == match e {
        Event::Created { took, recorded, .. } => if recorded > 0 {
            recorded
        } else {
            took
        },
        Event::CreationFailed { recorded, .. } => recorded,
        _ => old.create_sandbox,
    }
    &&& t.load_sandbox == match (w.phase, e) {
        (Phase::Load(_), Event::Took(took)) => took,
        _ => old.load_sandbox,
    }
    // resuming adds up
    &&& t.resume_sandbox == match (w.phase, e) {
        (Phase::Resume(_), Event::Took(took)) | (Phase::ResumeAfterSnapshot, Event::Took(took)) =>
            old.resume_sandbox + took,
        _ => old.resume_sandbox as int,
    }
    &&& t.create_snapshot == match (w.phase, e) {
        (Phase::NotifySnapshot(_), Event::Took(took)) => took,
        _ => old.create_snapshot,
    }
    &&& t.running_slot == match (w.phase, e) {
        (Phase::ReleaseSlot(_), Event::Took(took)) => took,
        _ => old.running_slot,
    }
    &&& t.issuer == match e {
        Event::Issued { took, .. } => took,
        Event::IssueFailed { took, .. } => took,
        Event::IssueTimedOut { took } => took,
        _ => old.issuer,
    }
    &&& t.issuer_connection == match e {
        Event::Issued { connection, .. } => connection,
        _ => old.issuer_connection,
    }
    &&& t.issuer_invocation == match e {
        Event::Issued { invocation, .. } => invocation,
        _ => old.issuer_invocation,
    }
    &&& t.queued == old.queued
    &&& match e {
        Event::Issued { handler, .. } => is_header(handler, old.sandbox_handler, t.sandbox_handler),
        _ => t.sandbox_handler == old.sandbox_handler,
    }
    &&& match e {
        Event::Issued { response, .. } => is_header(
            response,
            old.sandbox_response,
            t.sandbox_response,
        ),
        _ => t.sandbox_response == old.sandbox_response,
    }
}

/// `t` is the number in a header, or what it was before if there is none.
pub open spec fn is_header(header: Option<String>, before: u64, t: u64) -> bool {
    match header {
        Some(text) => match crate::text::u64_of_text(text@) {
            Some(n) => t == n,
            None => t == before,
        },
        None => t == before,
    }
}

/// What is recorded after a step.
pub open spec fn is_recorded_after<S: Sandbox>(w: Worker<S>, e: Event<S>, t: Timings) -> bool {
    match e {
        Event::Invocation { acquired, source_ts, .. } => {
            &&& t == (Timings { queued: t.queued, ..Timings::zero() })
            &&& match source_ts {
                Some(text) => match crate::text::u64_of_text(text@) {
                    Some(ts) => t.queued == if ts < acquired {
                        acquired - ts
                    } else {
                        0
                    },
                    None => t.queued == 0,
                },
                None => t.queued == 0,
            }
        },
        Event::Control(ControlMessage::PrepareSandbox { .. }) => t == Timings::zero(),
        Event::Control(ControlMessage::CreateSnapshot { .. }) => t == Timings::zero(),
        _ => is_recorded(w, e, t),
    }
}

proof fn lemma_timings_on_idle<S: Sandbox>(w: Worker<S>, e: Event<S>)
    requires
        model::fits(w, e),
        model::on_idle(w, e) is Some,
    ensures
        is_recorded_after(w, e, (model::on_idle(w, e)->0).0.timings),
{
}

proof fn lemma_timings_on_create<S: Sandbox>(w: Worker<S>, e: Event<S>)
    requires
        model::fits(w, e),
        model::on_create(w, e) is Some,
    ensures
        is_recorded_after(w, e, (model::on_create(w, e)->0).0.timings),
{
}

proof fn lemma_timings_on_wake<S: Sandbox>(w: Worker<S>, e: Event<S>)
    requires
        model::fits(w, e),
        model::on_wake(w, e) is Some,
    ensures
        is_recorded_after(w, e, (model::on_wake(w, e)->0).0.timings),
{
}

proof fn lemma_timings_on_snapshot<S: Sandbox>(w: Worker<S>, e: Event<S>)
    requires
        model::fits(w, e),
        model::on_snapshot(w, e) is Some,
    ensures
        is_recorded_after(w, e, (model::on_snapshot(w, e)->0).0.timings),
{
}

proof fn lemma_timings_on_invocation<S: Sandbox>(w: Worker<S>, e: Event<S>)
    requires
        model::fits(w, e),
        model::on_invocation(w, e) is Some,
    ensures
        is_recorded_after(w, e, (model::on_invocation(w, e)->0).0.timings),
{
}

proof fn lemma_timings_on_report<S: Sandbox>(w: Worker<S>, e: Event<S>)
    requires
        model::fits(w, e),
        model::on_report(w, e) is Some,
    ensures
        is_recorded_after(w, e, (model::on_report(w, e)->0).0.timings),
{
}

proof fn lemma_timings_on_teardown<S: Sandbox>(w: Worker<S>, e: Event<S>)
    requires
        model::fits(w, e),
        model::on_teardown(w, e) is Some,
    ensures
        is_recorded_after(w, e, (model::on_teardown(w, e)->0).0.timings),
{
}

/// Each step records its own duration, and no other. What was recorded before is forgotten when
/// an invocation or a request of the pool arrives; an invocation then has how long it was
/// queued, from its source's timestamp until it got its slot.
pub proof fn law_timings<S: Sandbox>(w: Worker<S>, e: Event<S>, v: Worker<S>, a: Action<S>)
    requires
        model::fits(w, e),
        goes(w, e, v, a),
    ensures
        is_recorded_after(w, e, v.timings),
{
    if !(e is PoolUnreachable) {
        match w.phase {
            Phase::Init | Phase::Idle => lemma_timings_on_idle(w, e),
            Phase::AllocateNetwork(_)
            | Phase::Create(_)
            | Phase::PinFresh(_)
            | Phase::Announce(_) => lemma_timings_on_create(w, e),
            Phase::Load(_)
            | Phase::PinLoaded(_)
            | Phase::Resume(_)
            | Phase::PinResumed(_) => lemma_timings_on_wake(w, e),
            Phase::PauseForSnapshot
            | Phase::ResumeAfterSnapshot
            | Phase::QueryPaths(_)
            | Phase::TakeSnapshot(_)
            | Phase::NotifySnapshot(_) => lemma_timings_on_snapshot(w, e),
            Phase::StartMonitor
            | Phase::Issue { .. }
            | Phase::Forward { .. }
            | Phase::StopMonitor { .. }
            | Phase::PauseAfterInvocation
            | Phase::ReleaseSlot(_)
            | Phase::StoreTimings(_)
            | Phase::AskForWork => lemma_timings_on_invocation(w, e),
            Phase::PausePrepared
            | Phase::ReportPrepared
            | Phase::ReportPrepareFailure(_)
            | Phase::ReportSnapshot => lemma_timings_on_report(w, e),
            _ => lemma_timings_on_teardown(w, e),
        }
    }
}

/// The sandbox that a worker owns changes only in its counters: restored once more when it was
/// loaded, invoked once more when its Function answered. Every other step keeps it as it is,
/// whatever state it comes to be in, until it is given up to be destroyed or handed over.
#[verifier::rlimit(40)]
pub proof fn law_what_becomes_of_the_sandbox<S: Sandbox>(
    w: Worker<S>,
    e: Event<S>,
    v: Worker<S>,
    a: Action<S>,
)
    requires
        model::wf(w),
        model::fits(w, e),
        goes(w, e, v, a),
    ensures
        ({
            let before = w.state.sandbox();
            let after = v.state.sandbox();
            &&& before is Some && after is Some && !(w.phase is Load && e is Took) && !(e
                is Issued) ==> after == before
            &&& w.phase is Load && e is Took ==> after is Some && after->0
                == before->0.spec_with_stats(
                crate::metadata::SandboxStats {
                    invocations: before->0.spec_stats().invocations,
                    restorations: (before->0.spec_stats().restorations + 1) as u64,
                },
            )
            &&& e is Issued ==> after is Some && after->0 == before->0.spec_with_stats(
                crate::metadata::SandboxStats {
                    invocations: (before->0.spec_stats().invocations + 1) as u64,
                    restorations: before->0.spec_stats().restorations,
                },
            )
            &&& before is Some && after is None ==> a is Exit || a == Action::DestroySandbox(
                before->0,
            )
            &&& before is None && after is Some ==> (after == w.fresh && w.phase is Announce) || e
                is DestroyFailed
        }),
{
}

/// The error that a worker carries with it.
pub open spec fn carried(phase: Phase) -> Option<Error> {
    match phase {
        Phase::Forward { err, .. } => err,
        Phase::StopMonitor { err } => err,
        Phase::ReleaseSlot(err) | Phase::StoreTimings(err) | Phase::Reap(err) => err,
        Phase::ReportPrepareFailure(err)
        | Phase::CleanupPause(err)
        | Phase::CleanupShutdown(err)
        | Phase::AwaitPauseRetry(err)
        | Phase::RetryPause(err) => Some(err),
        Phase::Destroy { why, .. } => why,
        Phase::NotifyRemoval { why } | Phase::ReleaseNetwork { why } => why,
        _ => None,
    }
}

/// Something that the worker asked for did not come about.
pub open spec fn is_failure<S>(e: Event<S>) -> bool {
    match e {
        Event::Failed(_)
        | Event::NetworkManagerUnreachable(_)
        | Event::NetworkManagerSilent(_)
        | Event::CreationFailed { .. }
        | Event::IssueFailed { .. }
        | Event::IssueTimedOut { .. }
        | Event::ForwardTimedOut
        | Event::ForwardClosed(_)
        | Event::DestroyFailed(_) => true,
        _ => false,
    }
}

/// An error comes of a failure and of nothing else, and a worker carries the first that it met
/// until it leaves: with it, or without any once nothing is left to be done about it.
#[verifier::rlimit(40)]
pub proof fn law_errors_come_of_failures<S: Sandbox>(
    w: Worker<S>,
    e: Event<S>,
    v: Worker<S>,
    a: Action<S>,
)
    requires
        model::wf(w),
        goes(w, e, v, a),
    ensures
        carried(w.phase) is None && carried(v.phase) is Some ==> is_failure(e),
        carried(w.phase) is Some ==> carried(v.phase) == carried(w.phase) || v.phase == Phase::Reap(
            None,
        ) || v.phase is Exited,
        carried(w.phase) is Some && is_failure(e) && v.phase == Phase::Reap(None) ==> false,
        v.phase is Idle ==> carried(w.phase) is None,
{
}

} // verus!
