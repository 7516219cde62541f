//! Durations that a worker records while it handles one invocation.

use vstd::prelude::*;

verus! {

/// A duration in nanoseconds.
pub type Nanoseconds = u64;

/// The durations recorded for one invocation; zero stands for "not recorded".
#[derive(Clone, Copy, Debug, PartialEq, Eq, Structural)]
pub struct Timings {
    /// From the request's arrival at its source until it got a running slot.
    pub queued: Nanoseconds,
    /// While the running slot was held.
    pub running_slot: Nanoseconds,
    /// Network and CPU set-up.
    pub setup_resources: Nanoseconds,
    /// Creation of a new sandbox.
    pub create_sandbox: Nanoseconds,
    /// Loading a sandbox from its snapshot.
    pub load_sandbox: Nanoseconds,
    /// Resuming a paused sandbox.
    pub resume_sandbox: Nanoseconds,
    /// Taking a snapshot.
    pub create_snapshot: Nanoseconds,
    /// The whole call of the request issuer.
    pub issuer: Nanoseconds,
    /// The part of `issuer` spent connecting.
    pub issuer_connection: Nanoseconds,
    /// The part of `issuer` spent invoking.
    pub issuer_invocation: Nanoseconds,
    /// What the sandbox reported for its handler.
    pub sandbox_handler: Nanoseconds,
    /// What the sandbox reported for its response.
    pub sandbox_response: Nanoseconds,
}

impl Timings {
    /// Nothing recorded.
    pub open spec fn zero() -> Timings {
        Timings {
            queued: 0,
            running_slot: 0,
            setup_resources: 0,
            create_sandbox: 0,
            load_sandbox: 0,
            resume_sandbox: 0,
            create_snapshot: 0,
            issuer: 0,
            issuer_connection: 0,
            issuer_invocation: 0,
            sandbox_handler: 0,
            sandbox_response: 0,
        }
    }

    /// Forgets everything recorded so far.
    pub fn clear(&mut self)
        ensures
            *final(self) == Timings::zero(),
    {
        *self = Timings::default();
    }
}

impl Default for Timings {
    fn default() -> (r: Timings)
        ensures
            r == Timings::zero(),
    {
        Timings {
            queued: 0,
            running_slot: 0,
            setup_resources: 0,
            create_sandbox: 0,
            load_sandbox: 0,
            resume_sandbox: 0,
            create_snapshot: 0,
            issuer: 0,
            issuer_connection: 0,
            issuer_invocation: 0,
            sandbox_handler: 0,
            sandbox_response: 0,
        }
    }
}

} // verus!
