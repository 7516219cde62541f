//! The states of the sandbox that a worker owns.

use vstd::prelude::*;
use vstd::std_specs::convert::FromSpecImpl;

use crate::runtime::Sandbox;
use crate::worker::error::Error;

verus! {

/// The state of the sandbox that a worker owns.
///
/// A worker starts in `Nonexistent`, or in `Snapshot` if it was handed one.
/// Preparation leads to `Running`, the end of an invocation to `Paused`, and
/// retirement to `Snapshot` or `Nonexistent`. `Trashed` is terminal: nothing may
/// be asked of the sandbox any more, and it must never be used again.
#[derive(Debug)]
pub enum SandboxState<S> {
    /// The worker owns no sandbox.
    Nonexistent,
    /// The sandbox is alive and idle.
    Paused(S),
    /// The sandbox exists as a snapshot only.
    Snapshot(S),
    /// The sandbox is up and running.
    Running(S),
    /// What is left of a sandbox whose reuse or destruction could not be shown.
    Trashed(S),
}

/// The kind of a [`SandboxState`], without the sandbox.
#[derive(Clone, Copy, Debug, PartialEq, Eq, Structural)]
pub enum SandboxStateRef {
    Nonexistent,
    Paused,
    Snapshot,
    Running,
    Trashed,
}

impl<S> SandboxState<S> {
    /// The kind of the state.
    pub open spec fn kind(self) -> SandboxStateRef {
        match self {
            SandboxState::Nonexistent => SandboxStateRef::Nonexistent,
            SandboxState::Paused(_) => SandboxStateRef::Paused,
            SandboxState::Snapshot(_) => SandboxStateRef::Snapshot,
            SandboxState::Running(_) => SandboxStateRef::Running,
            SandboxState::Trashed(_) => SandboxStateRef::Trashed,
        }
    }

    /// The sandbox in the state, if there is one.
    pub open spec fn sandbox(self) -> Option<S> {
        match self {
            SandboxState::Nonexistent => None,
            SandboxState::Paused(sb) => Some(sb),
            SandboxState::Snapshot(sb) => Some(sb),
            SandboxState::Running(sb) => Some(sb),
            SandboxState::Trashed(sb) => Some(sb),
        }
    }

    /// A state of a given kind; the sandbox is dropped if the kind has none.
    pub open spec fn of(kind: SandboxStateRef, sandbox: S) -> SandboxState<S> {
        match kind {
            SandboxStateRef::Nonexistent => SandboxState::Nonexistent,
            SandboxStateRef::Paused => SandboxState::Paused(sandbox),
            SandboxStateRef::Snapshot => SandboxState::Snapshot(sandbox),
            SandboxStateRef::Running => SandboxState::Running(sandbox),
            SandboxStateRef::Trashed => SandboxState::Trashed(sandbox),
        }
    }

    /// Takes the state out, leaving `Nonexistent` in its place.
    pub fn take(&mut self) -> (r: SandboxState<S>)
        ensures
            r == *old(self),
            *final(self) == SandboxState::<S>::Nonexistent,
    {
        let mut taken = SandboxState::Nonexistent;
        std::mem::swap(&mut taken, self);
        taken
    }

    /// The kind of the state.
    pub fn as_ref(&self) -> (r: SandboxStateRef)
        ensures
            r == self.kind(),
    {
        match self {
            SandboxState::Nonexistent => SandboxStateRef::Nonexistent,
            SandboxState::Paused(_) => SandboxStateRef::Paused,
            SandboxState::Snapshot(_) => SandboxStateRef::Snapshot,
            SandboxState::Running(_) => SandboxStateRef::Running,
            SandboxState::Trashed(_) => SandboxStateRef::Trashed,
        }
    }
}

impl<S: Sandbox> SandboxState<S> {
    /// The state holds a sandbox that can be brought back from a snapshot.
    pub open spec fn snapshotted(self) -> bool {
        self.sandbox() is Some && self.sandbox()->0.spec_has_snapshot()
    }

    /// The name of the sandbox in the state, if there is one.
    pub fn id(&self) -> (r: Option<&str>)
        ensures
            r is Some <==> self.sandbox() is Some,
            r is Some ==> r->0@ == self.sandbox()->0.spec_id()@,
    {
        match self {
            SandboxState::Nonexistent => None,
            SandboxState::Paused(sb) => Some(sb.id().as_str()),
            SandboxState::Snapshot(sb) => Some(sb.id().as_str()),
            SandboxState::Running(sb) => Some(sb.id().as_str()),
            SandboxState::Trashed(sb) => Some(sb.id().as_str()),
        }
    }
}

/// A worker that was handed a sandbox starts from its snapshot.
impl<S> From<Option<S>> for SandboxState<S> {
    fn from(sandbox: Option<S>) -> (r: SandboxState<S>) {
        match sandbox {
            Some(sandbox) => SandboxState::Snapshot(sandbox),
            None => SandboxState::Nonexistent,
        }
    }
}

impl<S> FromSpecImpl<Option<S>> for SandboxState<S> {
    open spec fn obeys_from_spec() -> bool {
        true
    }

    open spec fn from_spec(sandbox: Option<S>) -> SandboxState<S> {
        match sandbox {
            Some(sandbox) => SandboxState::Snapshot(sandbox),
            None => SandboxState::Nonexistent,
        }
    }
}

/// What becomes of the sandbox when its worker is gone.
#[derive(Debug)]
pub enum SandboxExit<S> {
    /// There is none.
    Absent,
    /// It can be brought back from its snapshot.
    Reusable(S),
    /// It must never be used again.
    Trashed(S),
}

impl<S> SandboxExit<S> {
    /// Only a snapshot is reusable: a worker that leaves a sandbox paused or running
    /// has not shown that it is.
    pub open spec fn of(state: SandboxState<S>) -> SandboxExit<S> {
        match state {
            SandboxState::Nonexistent => SandboxExit::Absent,
            SandboxState::Snapshot(sb) => SandboxExit::Reusable(sb),
            SandboxState::Paused(sb) => SandboxExit::Trashed(sb),
            SandboxState::Running(sb) => SandboxExit::Trashed(sb),
            SandboxState::Trashed(sb) => SandboxExit::Trashed(sb),
        }
    }
}

impl<S> From<SandboxState<S>> for SandboxExit<S> {
    fn from(state: SandboxState<S>) -> (r: SandboxExit<S>) {
        match state {
            SandboxState::Nonexistent => SandboxExit::Absent,
            SandboxState::Snapshot(sb) => SandboxExit::Reusable(sb),
            SandboxState::Paused(sb) => SandboxExit::Trashed(sb),
            SandboxState::Running(sb) => SandboxExit::Trashed(sb),
            SandboxState::Trashed(sb) => SandboxExit::Trashed(sb),
        }
    }
}

impl<S> FromSpecImpl<SandboxState<S>> for SandboxExit<S> {
    open spec fn obeys_from_spec() -> bool {
        true
    }

    open spec fn from_spec(state: SandboxState<S>) -> SandboxExit<S> {
        SandboxExit::of(state)
    }
}

/// How a worker ended: its own status, and what becomes of its sandbox.
#[derive(Debug)]
pub struct WorkerExit<S> {
    pub result: Result<(), Error>,
    pub sandbox: SandboxExit<S>,
}

/// Takes the sandbox out of a state, if there is one.
pub fn into_sandbox<S>(state: SandboxState<S>) -> (r: Option<S>)
    ensures
        r == state.sandbox(),
{
    match state {
        SandboxState::Nonexistent => None,
        SandboxState::Paused(sb) => Some(sb),
        SandboxState::Snapshot(sb) => Some(sb),
        SandboxState::Running(sb) => Some(sb),
        SandboxState::Trashed(sb) => Some(sb),
    }
}

/// A state is made up of its kind and its sandbox, and only where there is no sandbox there is none
/// in it.
pub proof fn law_states_and_their_kinds<S: Sandbox>(state: SandboxState<S>, sandbox: S)
    ensures
        state == SandboxState::<S>::Nonexistent <==> state.sandbox() is None,
        state == SandboxState::<S>::Nonexistent <==> state.kind() == SandboxStateRef::Nonexistent,
        state.sandbox() is Some ==> SandboxState::of(state.kind(), state.sandbox()->0) == state,
        SandboxState::of(state.kind(), sandbox).kind() == state.kind(),
        SandboxState::<S>::Paused(sandbox).kind() == SandboxStateRef::Paused,
        SandboxState::<S>::Snapshot(sandbox).kind() == SandboxStateRef::Snapshot,
        SandboxState::<S>::Running(sandbox).kind() == SandboxStateRef::Running,
        SandboxState::<S>::Trashed(sandbox).kind() == SandboxStateRef::Trashed,
        SandboxState::<S>::Paused(sandbox).sandbox() == Some(sandbox),
        SandboxState::<S>::Snapshot(sandbox).sandbox() == Some(sandbox),
        SandboxState::<S>::Running(sandbox).sandbox() == Some(sandbox),
        SandboxState::<S>::Trashed(sandbox).sandbox() == Some(sandbox),
{
}

/// A state tells of a snapshot exactly if its sandbox has one.
pub proof fn law_whose_snapshot_it_is<S: Sandbox>(state: SandboxState<S>)
    ensures
        state.snapshotted() ==> state != SandboxState::<S>::Nonexistent,
        state matches SandboxState::Paused(sb) ==> state.snapshotted() == sb.spec_has_snapshot(),
        state matches SandboxState::Snapshot(sb) ==> state.snapshotted() == sb.spec_has_snapshot(),
        state matches SandboxState::Running(sb) ==> state.snapshotted() == sb.spec_has_snapshot(),
        state matches SandboxState::Trashed(sb) ==> state.snapshotted() == sb.spec_has_snapshot(),
{
}

/// Only a snapshot can be used again. Any other sandbox is trash, and none is lost.
pub proof fn law_what_can_be_used_again<S: Sandbox>(state: SandboxState<S>)
    ensures
        SandboxExit::of(state) is Reusable <==> state is Snapshot,
        SandboxExit::of(state) is Absent <==> state is Nonexistent,
        state matches SandboxState::Snapshot(sb) ==> SandboxExit::of(state) == SandboxExit::Reusable(
            sb,
        ),
        state matches SandboxState::Paused(sb) ==> SandboxExit::of(state) == SandboxExit::Trashed(
            sb,
        ),
        state matches SandboxState::Running(sb) ==> SandboxExit::of(state) == SandboxExit::Trashed(
            sb,
        ),
        state matches SandboxState::Trashed(sb) ==> SandboxExit::of(state) == SandboxExit::Trashed(
            sb,
        ),
{
}

} // verus!
