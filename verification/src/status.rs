//! The status codes that the orchestrator and its clients tell apart.

use vstd::prelude::*;

verus! {

/// The status of a call, as far as it matters here.
#[derive(Clone, Copy, Debug, PartialEq, Eq, Structural)]
pub enum StatusCode {
    Success,
    DeadlineExceeded,
    NotFound,
    AlreadyExists,
    Unavailable,
    /// Any other status.
    Other,
}

} // verus!
