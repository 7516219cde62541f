//! Identifiers and per-sandbox usage counters.

use vstd::prelude::*;

verus! {

/// Unique name of a registered Function.
pub type FunctionId = String;

/// Unique name of a sandbox.
pub type SandboxId = String;

/// Unique name of one Function invocation.
pub type InvocationId = String;

/// Usage counters of one sandbox.
#[derive(Clone, Copy, Debug, PartialEq, Eq, Structural)]
pub struct SandboxStats {
    /// Invocations the sandbox has served.
    pub invocations: u64,
    /// Times the sandbox was brought back from its snapshot.
    pub restorations: u64,
}

impl SandboxStats {
    /// The counters of a sandbox that has not been used yet.
    pub open spec fn zero() -> SandboxStats {
        SandboxStats { invocations: 0, restorations: 0 }
    }

    /// `a` is used strictly less than `b`: fewer invocations, or as many
    /// invocations and fewer restorations.
    pub open spec fn less_used(a: SandboxStats, b: SandboxStats) -> bool {
        a.invocations < b.invocations || (a.invocations == b.invocations && a.restorations
            < b.restorations)
    }

    /// Whether `self` is used strictly less than `other`.
    pub fn is_less_used(&self, other: &SandboxStats) -> (r: bool)
        ensures
            r == SandboxStats::less_used(*self, *other),
    {
        self.invocations < other.invocations || (self.invocations == other.invocations
            && self.restorations < other.restorations)
    }
}

impl Default for SandboxStats {
    fn default() -> (r: SandboxStats)
        ensures
            r == SandboxStats::zero(),
    {
        SandboxStats { invocations: 0, restorations: 0 }
    }
}

/// Sandboxes are ordered by how often they were invoked, and only among those that were invoked
/// equally often it matters how often they were restored. No two different counters are equally
/// much used.
pub proof fn law_order_of_usage(a: SandboxStats, b: SandboxStats, c: SandboxStats)
    ensures
        a.invocations < b.invocations ==> SandboxStats::less_used(a, b),
        a.invocations == b.invocations ==> (SandboxStats::less_used(a, b) <==> a.restorations
            < b.restorations),
        !(SandboxStats::less_used(a, b) && SandboxStats::less_used(b, a)),
        SandboxStats::less_used(a, b) || SandboxStats::less_used(b, a) || a == b,
        SandboxStats::less_used(a, b) && SandboxStats::less_used(b, c) ==> SandboxStats::less_used(
            a,
            c,
        ),
        !SandboxStats::less_used(a, SandboxStats::zero()),
        SandboxStats::zero().invocations == 0 && SandboxStats::zero().restorations == 0,
{
}

} // verus!
