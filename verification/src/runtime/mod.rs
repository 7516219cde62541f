//! What the worker needs to know of the sandboxes of a runtime.

pub mod fc;
pub mod fcctrd;
pub mod net;
pub mod registration;
pub mod toy;

use vstd::prelude::*;

use crate::metadata::{FunctionId, SandboxId, SandboxStats};

verus! {

/// What a performance monitor can watch of a sandbox.
#[derive(Debug)]
pub enum MonitorTarget {
    /// A process.
    Pid(u32),
    /// The processes of a control group, by its path.
    Cgroup(String),
}

/// A runtime failed to destroy a sandbox.
///
/// The sandbox comes back for accounting alone: the runtime may have taken part
/// of it down, so it must not be used again.
#[derive(Debug)]
pub struct DestroySandboxRuntimeError<S> {
    /// What is left of the sandbox.
    pub sandbox: S,
    /// Why the runtime failed.
    pub err: String,
}

impl<S> DestroySandboxRuntimeError<S> {
    /// Splits the error into the sandbox and the cause.
    pub fn into_parts(self) -> (r: (S, String))
        ensures
            r == (self.sandbox, self.err),
    {
        (self.sandbox, self.err)
    }
}

/// A sandbox of some runtime, as the worker sees it.
pub trait Sandbox: Sized {
    /// The unique name of the sandbox.
    spec fn spec_id(&self) -> SandboxId;

    /// The Function the sandbox serves.
    spec fn spec_function_id(&self) -> FunctionId;

    /// The sandbox can be brought back from a snapshot.
    spec fn spec_has_snapshot(&self) -> bool;

    /// The usage counters of the sandbox.
    spec fn spec_stats(&self) -> SandboxStats;

    /// The sandbox with other usage counters.
    spec fn spec_with_stats(&self, stats: SandboxStats) -> Self;

    /// Replacing the counters replaces nothing else that the worker reads.
    proof fn lemma_with_stats(s: Self, stats: SandboxStats)
        ensures
            s.spec_with_stats(stats).spec_stats() == stats,
            s.spec_with_stats(stats).spec_id() == s.spec_id(),
            s.spec_with_stats(stats).spec_function_id() == s.spec_function_id(),
            s.spec_with_stats(stats).spec_has_snapshot() == s.spec_has_snapshot(),
    ;

    fn id(&self) -> (r: &SandboxId)
        ensures
            *r == self.spec_id(),
    ;

    fn function_id(&self) -> (r: FunctionId)
        ensures
            r == self.spec_function_id(),
    ;

    fn has_snapshot(&self) -> (r: bool)
        ensures
            r == self.spec_has_snapshot(),
    ;

    fn stats(&self) -> (r: SandboxStats)
        ensures
            r == self.spec_stats(),
    ;

    fn set_stats(&mut self, stats: SandboxStats)
        ensures
            *final(self) == old(self).spec_with_stats(stats),
    ;
}

/// What has to survive of a sandbox for it to be brought back later.
pub trait SnapshotState {
    /// The unique name of the sandbox.
    spec fn spec_state_id(&self) -> Seq<char>;

    fn id(&self) -> (r: &str)
        ensures
            r@ == self.spec_state_id(),
    ;
}

/// Of sandboxes without snapshots nothing survives, and there is no name.
impl SnapshotState for () {
    open spec fn spec_state_id(&self) -> Seq<char> {
        ""@
    }

    fn id(&self) -> (r: &str) {
        ""
    }
}

} // verus!
