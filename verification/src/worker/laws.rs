//! What holds of every step of a worker.

use vstd::prelude::*;

use crate::runtime::Sandbox;
use crate::worker::machine::{Action, Event, Phase, SnapshotPurpose, Worker, MAX_FWD_ATTEMPTS};
use crate::worker::error::Error;
use crate::worker::messages::{ControlMessage, OutboundMessage};
use crate::worker::model;
use crate::worker::types::{SandboxExit, SandboxState, SandboxStateRef};

verus! {

/// The transitions between sandbox states that can ever be seen, besides staying put.
pub open spec fn allowed_transition(from: SandboxStateRef, to: SandboxStateRef) -> bool {
    match (from, to) {
        (SandboxStateRef::Nonexistent, SandboxStateRef::Running) => true,
        (SandboxStateRef::Snapshot, SandboxStateRef::Running) => true,
        (SandboxStateRef::Paused, SandboxStateRef::Running) => true,
        (SandboxStateRef::Running, SandboxStateRef::Paused) => true,
        (SandboxStateRef::Paused, SandboxStateRef::Snapshot) => true,
        (SandboxStateRef::Paused, SandboxStateRef::Nonexistent) => true,
        (SandboxStateRef::Snapshot, SandboxStateRef::Nonexistent) => true,
        (SandboxStateRef::Running, SandboxStateRef::Nonexistent) => true,
        (SandboxStateRef::Paused, SandboxStateRef::Trashed) => true,
        (SandboxStateRef::Snapshot, SandboxStateRef::Trashed) => true,
        (SandboxStateRef::Running, SandboxStateRef::Trashed) => true,
        _ => false,
    }
}

/// The state of the sandbox as an observer sees it: while it is being destroyed, the state
/// that it is destroyed from.
pub open spec fn observed<S>(w: Worker<S>) -> SandboxStateRef {
    match w.phase {
        Phase::Destroy { from, .. } => from,
        _ => w.state.kind(),
    }
}

/// The action is one on the sandbox itself.
pub open spec fn touches_sandbox<S>(a: Action<S>) -> bool {
    a is LoadSandbox || a is PauseSandbox || a is ResumeSandbox || a is SetupCpuset || a
        is CreateSnapshot || a is IssueRequest || a is ShutdownSandbox || a is DestroySandbox || a
        is UncacheSandbox
}

/// The action asks the pool for work.
pub open spec fn asks_for_work<S>(a: Action<S>) -> bool {
    a matches Action::Send(msg) && msg is NeedWork
}

/// The action tells the pool that the worker is ready to be joined.
pub open spec fn says_goodbye<S>(a: Action<S>) -> bool {
    a matches Action::Send(msg) && msg is ReapMe
}

/// The message names the worker that it comes from, and the Function that the worker serves.
pub open spec fn is_signed<S>(msg: OutboundMessage, w: Worker<S>) -> bool {
    match msg {
        OutboundMessage::SandboxId { worker_id, .. } => worker_id == w.id,
        OutboundMessage::NeedWork { worker_id, function_id }
        | OutboundMessage::ReapMe { worker_id, function_id } => worker_id == w.id && function_id
            == w.function_id,
        OutboundMessage::SandboxPreparation(r) => r.worker_id == w.id && r.function_id
            == w.function_id,
        OutboundMessage::SnapshotCreation(r) => r.worker_id == w.id && r.function_id
            == w.function_id,
    }
}

/// The snapshot belongs to an invocation.
pub open spec fn for_invocation(why: SnapshotPurpose) -> bool {
    why is BeforeInvocation || why is AfterInvocation
}

/// A worker in `phase` holds a running slot.
pub open spec fn holds_slot(phase: Phase) -> bool {
    match phase {
        Phase::AllocateNetwork(p)
        | Phase::Create(p)
        | Phase::PinFresh(p)
        | Phase::Announce(p)
        | Phase::Load(p)
        | Phase::PinLoaded(p)
        | Phase::Resume(p)
        | Phase::PinResumed(p) => p is Invocation,
        Phase::QueryPaths(why) | Phase::TakeSnapshot(why) | Phase::NotifySnapshot(why) =>
            for_invocation(why),
        Phase::PauseForSnapshot
        | Phase::ResumeAfterSnapshot
        | Phase::StartMonitor
        | Phase::Issue { .. }
        | Phase::Forward { .. }
        | Phase::StopMonitor { .. }
        | Phase::PauseAfterInvocation
        | Phase::ReleaseSlot(_) => true,
        _ => false,
    }
}

/// A worker in `phase` owes the pool the outcome of a preparation.
pub open spec fn owes_preparation(phase: Phase) -> bool {
    match phase {
        Phase::AllocateNetwork(p)
        | Phase::Create(p)
        | Phase::PinFresh(p)
        | Phase::Announce(p)
        | Phase::Load(p)
        | Phase::PinLoaded(p)
        | Phase::Resume(p)
        | Phase::PinResumed(p) => p is Control,
        Phase::QueryPaths(why) | Phase::TakeSnapshot(why) | Phase::NotifySnapshot(why) => why
            is Preparation,
        Phase::PausePrepared => true,
        _ => false,
    }
}

/// A worker in `phase` owes the pool the outcome of a snapshot.
pub open spec fn owes_snapshot(phase: Phase) -> bool {
    match phase {
        Phase::QueryPaths(why) | Phase::TakeSnapshot(why) | Phase::NotifySnapshot(why) => why
            is Request,
        _ => false,
    }
}

/// A worker in `phase` is leaving, or gone.
pub open spec fn leaving(phase: Phase) -> bool {
    phase is Reap || phase is Uncache || phase is Exited
}

/// A worker in `phase` is cleaning up after an error.
pub open spec fn cleaning(phase: Phase) -> bool {
    phase is CleanupPause || phase is CleanupShutdown || phase is AwaitPauseRetry || phase
        is RetryPause || phase is Destroy || phase is NotifyRemoval || phase is ReleaseNetwork
}

/// How far a worker in `phase` is at most from waiting for a message again, or from being
/// gone.
pub open spec fn distance(phase: Phase) -> nat {
    match phase {
        Phase::Init | Phase::AllocateNetwork(_) => 100,
        Phase::Create(_) | Phase::Load(_) | Phase::Resume(_) => 99,
        Phase::PinFresh(_) | Phase::PinLoaded(_) | Phase::PinResumed(_) => 98,
        Phase::Announce(_) => 97,
        Phase::PauseForSnapshot | Phase::PausePrepared => 90,
        Phase::QueryPaths(SnapshotPurpose::AfterInvocation) => 37,
        Phase::TakeSnapshot(SnapshotPurpose::AfterInvocation) => 36,
        Phase::NotifySnapshot(SnapshotPurpose::AfterInvocation) => 35,
        Phase::QueryPaths(_) => 80,
        Phase::TakeSnapshot(_) => 79,
        Phase::NotifySnapshot(_) => 78,
        Phase::ResumeAfterSnapshot => 70,
        Phase::StartMonitor => 60,
        Phase::Issue { .. } => 59,
        Phase::Forward { attempts, .. } => (40 + (MAX_FWD_ATTEMPTS - attempts)) as nat,
        Phase::StopMonitor { .. } => 40,
        Phase::PauseAfterInvocation => 38,
        Phase::ReleaseSlot(_) => 30,
        Phase::StoreTimings(_) => 29,
        Phase::AskForWork => 28,
        Phase::ReportPrepared | Phase::ReportPrepareFailure(_) | Phase::ReportSnapshot => 27,
        Phase::AwaitPauseRetry(_) => 20,
        Phase::RetryPause(_) => 19,
        Phase::CleanupPause(_) => 18,
        Phase::CleanupShutdown(_) | Phase::Shutdown => 17,
        Phase::Destroy { .. } => 16,
        Phase::NotifyRemoval { .. } => 15,
        Phase::ReleaseNetwork { .. } => 14,
        Phase::Reap(_) => 13,
        Phase::Uncache => 12,
        Phase::Idle | Phase::Exited => 0,
    }
}

/// Everything that is shown below of one step from `w` with `e` to `v` and `a`, for events
/// other than the pool not taking a message.
spec fn sound<S: Sandbox>(w: Worker<S>, e: Event<S>, v: Worker<S>, a: Action<S>) -> bool {
    &&& model::wf(v)
    &&& v.phase is Exited || observed(w) == observed(v) || allowed_transition(
        observed(w),
        observed(v),
    )
    &&& w.state is Trashed ==> (v.phase is Exited || v.state == w.state)
    &&& v.state is Trashed ==> !touches_sandbox(a)
    &&& a is Exit <==> v.phase is Exited
    &&& a matches Action::Exit(x) ==> {
        &&& x.sandbox == SandboxExit::of(w.state)
        &&& x.result is Ok ==> !(x.sandbox is Trashed)
        &&& w.phase matches Phase::Reap(err) ==> (x.result is Err <==> err is Some) && (err is Some
            ==> x.result->Err_0 == err->0)
    }
    &&& e is Invocation ==> !holds_slot(w.phase) && holds_slot(v.phase)
    &&& !(e is Invocation) && holds_slot(v.phase) ==> holds_slot(w.phase)
    &&& holds_slot(w.phase) && !holds_slot(v.phase) <==> w.phase is ReleaseSlot
    &&& a is ReleaseSlot <==> v.phase is ReleaseSlot
    &&& a is ForwardReply <==> w.phase is Issue
    &&& a matches Action::ForwardReply(reply) ==> reply.source_ts == w.source_ts && match e {
        Event::Issued { .. } => reply.outcome is FromFunction,
        Event::IssueFailed { .. } => reply.outcome is IssuerFailed,
        _ => reply.outcome is IssuerTimedOut,
    }
    &&& asks_for_work(a) <==> w.phase == Phase::StoreTimings(None)
    &&& asks_for_work(a) ==> v.state is Paused
    &&& leaving(w.phase) ==> leaving(v.phase)
    &&& !leaving(w.phase) && leaving(v.phase) <==> says_goodbye(a)
    &&& e matches Event::Control(msg) ==> (msg is PrepareSandbox ==> owes_preparation(v.phase))
    &&& owes_preparation(w.phase) ==> owes_preparation(v.phase) || (a matches Action::Send(msg)
        && msg is SandboxPreparation)
    &&& a matches Action::Send(msg) ==> (msg is SandboxPreparation ==> owes_preparation(w.phase)
        && !owes_preparation(v.phase))
    &&& owes_snapshot(w.phase) ==> owes_snapshot(v.phase) || (a matches Action::Send(msg) && msg
        is SnapshotCreation)
    &&& w.phase !is Idle && v.phase !is Idle ==> distance(v.phase) < distance(w.phase)
    &&& cleaning(w.phase) && v.phase is Reap ==> match v.phase->Reap_0 {
        None => v.state is Snapshot || v.state is Nonexistent,
        Some(_) => v.state is Trashed || v.state is Nonexistent,
    }
    &&& w.state.sandbox() is Some && v.state.sandbox() is Some && !(e is DestroyFailed)
        ==> same_sandbox(w, e, w.state.sandbox()->0, v.state.sandbox()->0)
}

/// `after` is the sandbox `before`, and its counters tell of the step with `e`.
pub open spec fn same_sandbox<S: Sandbox>(w: Worker<S>, e: Event<S>, before: S, after: S) -> bool {
    let invoked: int = if e is Issued {
        1
    } else {
        0
    };
    let restored: int = if w.phase is Load && e is Took {
        1
    } else {
        0
    };
    &&& after.spec_id() == before.spec_id()
    &&& after.spec_has_snapshot() == before.spec_has_snapshot()
    &&& after.spec_stats().invocations == before.spec_stats().invocations + invoked
    &&& after.spec_stats().restorations == before.spec_stats().restorations + restored
}

proof fn lemma_on_idle_is_sound<S: Sandbox>(w: Worker<S>, e: Event<S>)
    requires
        model::wf(w),
        model::fits(w, e),
        model::next(w, e) == model::on_idle(w, e),
        model::on_idle(w, e) is Some,
    ensures
        ({
            let n = model::on_idle(w, e)->0;
            sound(w, e, n.0, n.1)
        }),
{
}

proof fn lemma_on_create_is_sound<S: Sandbox>(w: Worker<S>, e: Event<S>)
    requires
        model::wf(w),
        model::fits(w, e),
        model::next(w, e) == model::on_create(w, e),
        model::on_create(w, e) is Some,
    ensures
        ({
            let n = model::on_create(w, e)->0;
            sound(w, e, n.0, n.1)
        }),
{
}

proof fn lemma_on_wake_is_sound<S: Sandbox>(w: Worker<S>, e: Event<S>)
    requires
        model::wf(w),
        model::fits(w, e),
        model::next(w, e) == model::on_wake(w, e),
        model::on_wake(w, e) is Some,
    ensures
        ({
            let n = model::on_wake(w, e)->0;
            sound(w, e, n.0, n.1)
        }),
{
    if w.state is Snapshot {
        let sb = w.state->Snapshot_0;
        S::lemma_with_stats(
            sb,
            crate::metadata::SandboxStats {
                invocations: sb.spec_stats().invocations,
                restorations: (sb.spec_stats().restorations + 1) as u64,
            },
        );
    }
}

proof fn lemma_on_snapshot_is_sound<S: Sandbox>(w: Worker<S>, e: Event<S>)
    requires
        model::wf(w),
        model::fits(w, e),
        model::next(w, e) == model::on_snapshot(w, e),
        model::on_snapshot(w, e) is Some,
    ensures
        ({
            let n = model::on_snapshot(w, e)->0;
            sound(w, e, n.0, n.1)
        }),
{
}

proof fn lemma_on_invocation_is_sound<S: Sandbox>(w: Worker<S>, e: Event<S>)
    requires
        model::wf(w),
        model::fits(w, e),
        model::next(w, e) == model::on_invocation(w, e),
        model::on_invocation(w, e) is Some,
    ensures
        ({
            let n = model::on_invocation(w, e)->0;
            sound(w, e, n.0, n.1)
        }),
{
    if w.state is Running {
        let sb = w.state->Running_0;
        S::lemma_with_stats(
            sb,
            crate::metadata::SandboxStats {
                invocations: (sb.spec_stats().invocations + 1) as u64,
                restorations: sb.spec_stats().restorations,
            },
        );
    }
}

proof fn lemma_on_report_is_sound<S: Sandbox>(w: Worker<S>, e: Event<S>)
    requires
        model::wf(w),
        model::fits(w, e),
        model::next(w, e) == model::on_report(w, e),
        model::on_report(w, e) is Some,
    ensures
        ({
            let n = model::on_report(w, e)->0;
            sound(w, e, n.0, n.1)
        }),
{
}

proof fn lemma_on_teardown_is_sound<S: Sandbox>(w: Worker<S>, e: Event<S>)
    requires
        model::wf(w),
        model::fits(w, e),
        model::next(w, e) == model::on_teardown(w, e),
        model::on_teardown(w, e) is Some,
    ensures
        ({
            let n = model::on_teardown(w, e)->0;
            sound(w, e, n.0, n.1)
        }),
{
}

proof fn lemma_step_is_sound<S: Sandbox>(w: Worker<S>, e: Event<S>)
    requires
        model::wf(w),
        model::accepts(w, e),
        !(e is PoolUnreachable),
    ensures
        ({
            let n = model::next(w, e)->0;
            sound(w, e, n.0, n.1)
        }),
{
    match w.phase {
        Phase::Init | Phase::Idle => lemma_on_idle_is_sound(w, e),
        Phase::AllocateNetwork(_)
        | Phase::Create(_)
        | Phase::PinFresh(_)
        | Phase::Announce(_) => lemma_on_create_is_sound(w, e),
        Phase::Load(_)
        | Phase::PinLoaded(_)
        | Phase::Resume(_)
        | Phase::PinResumed(_) => lemma_on_wake_is_sound(w, e),
        Phase::PauseForSnapshot
        | Phase::ResumeAfterSnapshot
        | Phase::QueryPaths(_)
        | Phase::TakeSnapshot(_)
        | Phase::NotifySnapshot(_) => lemma_on_snapshot_is_sound(w, e),
        Phase::StartMonitor
        | Phase::Issue { .. }
        | Phase::Forward { .. }
        | Phase::StopMonitor { .. }
        | Phase::PauseAfterInvocation
        | Phase::ReleaseSlot(_)
        | Phase::StoreTimings(_)
        | Phase::AskForWork => lemma_on_invocation_is_sound(w, e),
        Phase::PausePrepared
        | Phase::ReportPrepared
        | Phase::ReportPrepareFailure(_)
        | Phase::ReportSnapshot => lemma_on_report_is_sound(w, e),
        _ => lemma_on_teardown_is_sound(w, e),
    }
}

/// A step keeps the phase and the state of the sandbox fitting together.
pub proof fn lemma_next_is_wf<S: Sandbox>(w: Worker<S>, e: Event<S>)
    requires
        model::wf(w),
        model::accepts(w, e),
    ensures
        model::wf((model::next(w, e)->0).0),
{
    if !(e is PoolUnreachable) {
        lemma_step_is_sound(w, e);
    }
}

/// The state of the sandbox changes only along the transitions of its life cycle, until the
/// worker is gone.
pub proof fn law_transitions<S: Sandbox>(w: Worker<S>, e: Event<S>)
    requires
        model::wf(w),
        model::accepts(w, e),
    ensures
        ({
            let (v, a) = model::next(w, e)->0;
            ||| v.phase is Exited
            ||| observed(v) == observed(w)
            ||| allowed_transition(observed(w), observed(v))
        }),
{
    if !(e is PoolUnreachable) {
        lemma_step_is_sound(w, e);
    }
}

/// A trashed sandbox stays trashed until its worker hands it over as such, and nothing is
/// asked of it any more.
pub proof fn law_trashed_is_terminal<S: Sandbox>(w: Worker<S>, e: Event<S>)
    requires
        model::wf(w),
        model::accepts(w, e),
    ensures
        ({
            let (v, a) = model::next(w, e)->0;
            &&& w.state is Trashed ==> v.state == w.state || (v.phase is Exited && a is Exit)
            &&& v.state is Trashed ==> !touches_sandbox(a)
            &&& w.state matches SandboxState::Trashed(sb) ==> (a matches Action::Exit(x)
                ==> x.sandbox == SandboxExit::Trashed(sb))
        }),
{
    if !(e is PoolUnreachable) {
        lemma_step_is_sound(w, e);
    }
}

/// A worker that waits for a message has no sandbox, a snapshot or a paused one.
pub proof fn law_idle_state<S: Sandbox>(w: Worker<S>)
    requires
        model::wf(w),
        w.phase is Idle,
    ensures
        w.state is Nonexistent || w.state is Snapshot || w.state is Paused,
{
}

/// A worker that ends well leaves no sandbox or a reusable one; a reusable sandbox is one that
/// exists as a snapshot; and a worker that ends in an error reports the one it left with.
pub proof fn law_exit<S: Sandbox>(w: Worker<S>, e: Event<S>)
    requires
        model::wf(w),
        model::accepts(w, e),
    ensures
        ({
            let (v, a) = model::next(w, e)->0;
            a matches Action::Exit(x) ==> {
                &&& x.result is Ok ==> !(x.sandbox is Trashed)
                &&& x.sandbox is Reusable <==> w.state is Snapshot
                &&& x.sandbox is Absent <==> w.state is Nonexistent
                &&& w.phase matches Phase::Reap(Some(err)) ==> x.result == Err::<(), _>(err)
            }
        }),
{
    if !(e is PoolUnreachable) {
        lemma_step_is_sound(w, e);
    }
}

/// A running slot is held from the invocation it came with until it is released, which every
/// invocation leads to before anything is done about its outcome.
pub proof fn law_slot<S: Sandbox>(w: Worker<S>, e: Event<S>)
    requires
        model::wf(w),
        model::accepts(w, e),
    ensures
        ({
            let (v, a) = model::next(w, e)->0;
            &&& e is Invocation ==> !holds_slot(w.phase) && holds_slot(v.phase)
            &&& holds_slot(v.phase) ==> e is Invocation || holds_slot(w.phase)
            &&& holds_slot(w.phase) && !holds_slot(v.phase) ==> w.phase is ReleaseSlot
            &&& v.phase is ReleaseSlot ==> a is ReleaseSlot
            &&& cleaning(v.phase) || leaving(v.phase) || v.phase is Idle ==> !holds_slot(v.phase)
        }),
{
    if !(e is PoolUnreachable) {
        lemma_step_is_sound(w, e);
    }
}

/// A request that was issued is answered once, whatever came of it: with what the Function
/// answered, or with the issuer's failure. The answer carries the source's timestamp.
pub proof fn law_reply<S: Sandbox>(w: Worker<S>, e: Event<S>)
    requires
        model::wf(w),
        model::accepts(w, e),
    ensures
        ({
            let (v, a) = model::next(w, e)->0;
            &&& a is ForwardReply <==> w.phase is Issue
            &&& a matches Action::ForwardReply(reply) ==> reply.source_ts == w.source_ts && (
            reply.outcome is FromFunction <==> e is Issued) && (reply.outcome is IssuerFailed
                <==> e is IssueFailed)
        }),
{
    if !(e is PoolUnreachable) {
        lemma_step_is_sound(w, e);
    }
}

/// The pool is asked for more work exactly when an invocation went well, and the sandbox is
/// paused by then.
pub proof fn law_need_work<S: Sandbox>(w: Worker<S>, e: Event<S>)
    requires
        model::wf(w),
        model::accepts(w, e),
    ensures
        ({
            let (v, a) = model::next(w, e)->0;
            e !is PoolUnreachable ==> {
                &&& asks_for_work(a) <==> w.phase == Phase::StoreTimings(None)
                &&& asks_for_work(a) ==> v.state is Paused
            }
        }),
{
    if !(e is PoolUnreachable) {
        lemma_step_is_sound(w, e);
    }
}

/// A worker that leaves tells the pool so at once, and never stops leaving.
pub proof fn law_reap_me<S: Sandbox>(w: Worker<S>, e: Event<S>)
    requires
        model::wf(w),
        model::accepts(w, e),
    ensures
        ({
            let (v, a) = model::next(w, e)->0;
            &&& leaving(w.phase) ==> leaving(v.phase)
            &&& e !is PoolUnreachable ==> (!leaving(w.phase) && leaving(v.phase)
                <==> says_goodbye(a))
        }),
{
    if !(e is PoolUnreachable) {
        lemma_step_is_sound(w, e);
    }
}

/// A worker keeps its name and its Function, and what it tells the pool is signed with them.
pub proof fn law_messages_are_signed<S: Sandbox>(w: Worker<S>, e: Event<S>)
    requires
        model::wf(w),
        model::accepts(w, e),
    ensures
        ({
            let (v, a) = model::next(w, e)->0;
            &&& v.id == w.id
            &&& v.function_id == w.function_id
            &&& e !is PoolUnreachable ==> (a matches Action::Send(msg) ==> is_signed(msg, w))
        }),
{
}

/// Every request of the pool for a sandbox or for a snapshot is answered, and the answer comes
/// once.
pub proof fn law_answers<S: Sandbox>(w: Worker<S>, e: Event<S>)
    requires
        model::wf(w),
        model::accepts(w, e),
    ensures
        ({
            let (v, a) = model::next(w, e)->0;
            &&& e matches Event::Control(ControlMessage::PrepareSandbox { .. })
                ==> owes_preparation(v.phase)
            &&& e matches Event::Control(ControlMessage::CreateSnapshot { .. })
                ==> owes_snapshot(v.phase) || (a matches Action::Send(msg) && msg
                is SnapshotCreation)
            &&& owes_preparation(w.phase) && !owes_preparation(v.phase) ==> (a matches Action::Send(
                msg,
            ) && msg is SandboxPreparation)
            &&& e !is PoolUnreachable ==> (a matches Action::Send(msg) ==> (msg
                is SandboxPreparation ==> owes_preparation(w.phase) && !owes_preparation(v.phase)))
            &&& owes_snapshot(w.phase) && !owes_snapshot(v.phase) ==> (a matches Action::Send(msg)
                && msg is SnapshotCreation)
        }),
{
    if !(e is PoolUnreachable) {
        lemma_step_is_sound(w, e);
    }
}

/// Whatever a worker is busy with comes to an end: each step brings it closer to waiting for a
/// message again, or to being gone. Only the pool can hold it up.
pub proof fn law_progress<S: Sandbox>(w: Worker<S>, e: Event<S>)
    requires
        model::wf(w),
        model::accepts(w, e),
    ensures
        ({
            let (v, a) = model::next(w, e)->0;
            w.phase is Idle || v.phase is Idle || distance(v.phase) < distance(w.phase) || (e
                is PoolUnreachable && v == w)
        }),
{
    if !(e is PoolUnreachable) {
        lemma_step_is_sound(w, e);
    }
}

/// Cleaning up after an error leaves a reusable snapshot, or no sandbox, or a trashed one; and
/// the worker ends well only in the first two cases.
pub proof fn law_cleanup_outcome<S: Sandbox>(w: Worker<S>, e: Event<S>)
    requires
        model::wf(w),
        model::accepts(w, e),
    ensures
        ({
            let (v, a) = model::next(w, e)->0;
            cleaning(w.phase) && e !is PoolUnreachable && v.phase is Reap ==> match v.phase->Reap_0 {
                None => v.state is Snapshot || v.state is Nonexistent,
                Some(_) => v.state is Trashed || v.state is Nonexistent,
            }
        }),
{
    if !(e is PoolUnreachable) {
        lemma_step_is_sound(w, e);
    }
}

/// What is done about a preparation that failed: nothing if there is no sandbox or still
/// only the snapshot that was to be loaded.
pub proof fn law_failed_preparation_keeps_snapshot<S: Sandbox>(w: Worker<S>, cause: Error)
    requires
        w.state is Nonexistent || w.state is Snapshot,
    ensures
        ({
            let (v, a) = model::cleanup(w, Error::PrepareSandbox(Box::new(cause)));
            &&& v.state == w.state
            &&& v.phase == Phase::Reap(None)
        }),
{
}

/// A worker never mistakes one sandbox for another, and counts each invocation and each
/// restoration once.
pub proof fn law_sandbox_is_kept<S: Sandbox>(w: Worker<S>, e: Event<S>)
    requires
        model::wf(w),
        model::accepts(w, e),
    ensures
        ({
            let (v, a) = model::next(w, e)->0;
            w.state.sandbox() is Some && v.state.sandbox() is Some && !(e is DestroyFailed)
                ==> same_sandbox(w, e, w.state.sandbox()->0, v.state.sandbox()->0)
        }),
{
    if !(e is PoolUnreachable) {
        lemma_step_is_sound(w, e);
    }
}

/// A message that the pool did not take is sent again, and nothing else changes.
pub proof fn law_pool_is_retried<S: Sandbox>(w: Worker<S>, e: Event<S>)
    requires
        model::wf(w),
        model::accepts(w, e),
    ensures
        ({
            let (v, a) = model::next(w, e)->0;
            e matches Event::PoolUnreachable(msg) ==> v == w && a == Action::<S>::Send(msg)
        }),
{
    if !(e is PoolUnreachable) {
        lemma_step_is_sound(w, e);
    }
}

/// `u` is `w` after its pending action: the runtime may have changed the sandbox, and
/// nothing else.
pub open spec fn acted_on<S>(w: Worker<S>, u: Worker<S>) -> bool {
    &&& u.state.kind() == w.state.kind()
    &&& u.fresh is Some <==> w.fresh is Some
    &&& u == (Worker { state: u.state, fresh: u.fresh, ..w })
}

/// The worker that the `i`-th action was asked by.
pub open spec fn asker<S>(first: Worker<S>, after: Seq<Worker<S>>, i: int) -> Worker<S> {
    if i == 0 {
        first
    } else {
        after[i - 1]
    }
}

/// One step of a worker's life.
pub open spec fn is_life_step<S: Sandbox>(
    asker: Worker<S>,
    before: Worker<S>,
    event: Event<S>,
    after: Worker<S>,
) -> bool {
    &&& acted_on(asker, before)
    &&& model::accepts(before, event)
    &&& (model::next(before, event)->0).0 == after
}

/// A worker's life: it starts as `first`, is `before[i]` when the event `events[i]`
/// arrives, and `after[i]` then.
pub open spec fn is_life<S: Sandbox>(
    first: Worker<S>,
    before: Seq<Worker<S>>,
    events: Seq<Event<S>>,
    after: Seq<Worker<S>>,
) -> bool {
    &&& before.len() == events.len() == after.len()
    &&& forall|i: int|
        0 <= i < events.len() ==> is_life_step(
            asker(first, after, i),
            #[trigger] before[i],
            events[i],
            after[i],
        )
}

/// The invocations among the events.
pub open spec fn invocations<S>(events: Seq<Event<S>>) -> nat
    decreases events.len(),
{
    if events.len() == 0 {
        0
    } else {
        invocations(events.drop_last()) + if events.last() is Invocation {
            1nat
        } else {
            0
        }
    }
}

/// The running slots that were released: the steps out of the phase that releases one.
pub open spec fn released_slots<S>(before: Seq<Worker<S>>) -> nat
    decreases before.len(),
{
    if before.len() == 0 {
        0
    } else {
        released_slots(before.drop_last()) + if before.last().phase is ReleaseSlot {
            1nat
        } else {
            0
        }
    }
}

/// Over the life of a worker each running slot that came with an invocation is released
/// once, but for the one that is still held; and the worker stays well-formed.
pub proof fn law_life<S: Sandbox>(
    first: Worker<S>,
    before: Seq<Worker<S>>,
    events: Seq<Event<S>>,
    after: Seq<Worker<S>>,
)
    requires
        model::wf(first),
        first.phase is Init,
        is_life(first, before, events, after),
    ensures
        ({
            let last = if events.len() == 0 {
                first
            } else {
                after.last()
            };
            &&& model::wf(last)
            &&& invocations(events) == released_slots(before) + if holds_slot(last.phase) {
                1nat
            } else {
                0
            }
        }),
    decreases events.len(),
{
    if events.len() > 0 {
        let n = events.len() - 1;
        let (b, es, af) = (before.drop_last(), events.drop_last(), after.drop_last());
        assert(is_life(first, b, es, af)) by {
            assert forall|i: int| 0 <= i < es.len() implies is_life_step(
                asker(first, af, i),
                #[trigger] b[i],
                es[i],
                af[i],
            ) by {
                assert(is_life_step(asker(first, after, i), before[i], events[i], after[i]));
                assert(asker(first, af, i) == asker(first, after, i));
            }
        }
        law_life(first, b, es, af);
        assert(is_life_step(asker(first, after, n), before[n], events[n], after[n]));
        assert(model::wf(before[n]));
        if !(events[n] is PoolUnreachable) {
            lemma_step_is_sound(before[n], events[n]);
        }
    }
}

} // verus!
