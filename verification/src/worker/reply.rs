//! Responses to the callers of Functions, and the files of snapshots.

use vstd::prelude::*;
use vstd::string::*;

use crate::metadata::{FunctionId, InvocationId};
use crate::paths::join_paths;
use crate::status::StatusCode;
use crate::text::concat;
use crate::worker::machine::{ReplyOutcome, SnapshotTarget};

verus! {

impl ReplyOutcome {
    /// The status of the response that tells of a failed issuer.
    pub open spec fn failure(self) -> Option<(StatusCode, Seq<char>)> {
        match self {
            ReplyOutcome::FromFunction => None,
            ReplyOutcome::IssuerFailed => Some((
                StatusCode::Unavailable,
                "request issuer failed"@,
            )),
            ReplyOutcome::IssuerTimedOut => Some((
                StatusCode::DeadlineExceeded,
                "request issuer timed out"@,
            )),
        }
    }

    /// The status and the payload of the response that tells of a failed issuer, if it did
    /// fail.
    pub fn issuer_error(&self) -> (r: Option<(StatusCode, &'static str)>)
        ensures
            match r {
                None => self.failure() is None,
                Some((code, payload)) => self.failure() == Some((code, payload@)),
            },
    {
        match self {
            ReplyOutcome::FromFunction => None,
            ReplyOutcome::IssuerFailed => Some((StatusCode::Unavailable, "request issuer failed")),
            ReplyOutcome::IssuerTimedOut => Some((
                StatusCode::DeadlineExceeded,
                "request issuer timed out",
            )),
        }
    }
}

/// What is kept of a request until it is known whether the issuer fails.
#[derive(Debug)]
pub struct IssuerErrorResponseContext {
    pub invocation_id: InvocationId,
    pub function_id: FunctionId,
    /// The source's timestamp.
    pub source_timestamp_ns: Option<String>,
}

/// The response that tells of a failed issuer.
#[derive(Debug, PartialEq, Eq)]
pub struct IssuerErrorResponse {
    pub invocation_id: InvocationId,
    pub function_id: FunctionId,
    pub status_code: StatusCode,
    /// The only header there may be.
    pub source_timestamp_ns: Option<String>,
    pub payload: &'static str,
}

/// A character that may stand in the value of a header: what is visible in ASCII, the space
/// and the tab.
pub open spec fn is_header_char(c: char) -> bool {
    c == '\t' || (' ' <= c && c <= '~')
}

/// A text that may be the value of a header.
pub open spec fn is_header_value(text: Seq<char>) -> bool {
    forall|i: int| 0 <= i < text.len() ==> is_header_char(#[trigger] text[i])
}

/// Whether a text may be the value of a header.
pub fn header_value(text: &str) -> (r: bool)
    ensures
        r == is_header_value(text@),
{
    let len: usize = text.unicode_len();
    let mut i: usize = 0;
    while i < len
        invariant
            len == text@.len(),
            i <= len,
            forall|j: int| 0 <= j < i ==> is_header_char(#[trigger] text@[j]),
        decreases len - i,
    {
        let c = text.get_char(i);
        if !(c == '\t' || (' ' <= c && c <= '~')) {
            return false;
        }
        i = i + 1;
    }
    true
}

/// The response that tells of a failed issuer, if it did fail. It carries the source's
/// timestamp along if that may be the value of a header.
pub fn make_issuer_error_response(ctx: IssuerErrorResponseContext, outcome: ReplyOutcome) -> (r:
    Option<IssuerErrorResponse>)
    ensures
        match r {
            None => outcome.failure() is None,
            Some(resp) => {
                &&& outcome.failure() == Some((resp.status_code, resp.payload@))
                &&& resp.invocation_id == ctx.invocation_id
                &&& resp.function_id == ctx.function_id
                &&& resp.source_timestamp_ns == (match ctx.source_timestamp_ns {
                    Some(ts) if is_header_value(ts@) => Some(ts),
                    _ => None,
                })
            },
        },
{
    let (status_code, payload) = match outcome.issuer_error() {
        None => {
            return None;
        },
        Some(failure) => failure,
    };
    let source_timestamp_ns = match ctx.source_timestamp_ns {
        None => None,
        Some(ts) => if header_value(ts.as_str()) {
            Some(ts)
        } else {
            None
        },
    };
    Some(
        IssuerErrorResponse {
            invocation_id: ctx.invocation_id,
            function_id: ctx.function_id,
            status_code,
            source_timestamp_ns,
            payload,
        },
    )
}

impl SnapshotTarget {
    /// The path of the state file, which is named after the sandbox. The sandbox's name can be
    /// told from it, if it is plain.
    pub fn state_path(&self) -> (r: String)
        ensures
            r@ == crate::paths::joined(self.state_dir@, self.sandbox_id@ + ".state"@),
            crate::paths::is_plain_name(self.sandbox_id@) ==> {
                &&& crate::paths::stem_of(r@) == Some(self.sandbox_id@)
                &&& crate::paths::extension_of(r@) == Some("state"@)
            },
    {
        proof {
            reveal_strlit(".state");
            reveal_strlit("state");
            let ext = "state"@;
            assert(".state"@ =~= seq!['.'] + ext);
            assert(self.sandbox_id@ + ".state"@ =~= self.sandbox_id@ + seq!['.'] + ext);
            if crate::paths::is_plain_name(self.sandbox_id@) {
                crate::paths::law_name_and_extension_come_apart(self.sandbox_id@, ext);
                crate::paths::lemma_plain_with_extension(self.sandbox_id@, ext);
            }
        }
        join_paths(self.state_dir.as_str(), concat(self.sandbox_id.as_str(), ".state").as_str())
    }

    /// The path of the memory file, which is named after the sandbox. The sandbox's name can
    /// be told from it, if it is plain.
    pub fn memory_path(&self) -> (r: String)
        ensures
            r@ == crate::paths::joined(self.memory_dir@, self.sandbox_id@ + ".memory"@),
            crate::paths::is_plain_name(self.sandbox_id@) ==> {
                &&& crate::paths::stem_of(r@) == Some(self.sandbox_id@)
                &&& crate::paths::extension_of(r@) == Some("memory"@)
            },
    {
        proof {
            reveal_strlit(".memory");
            reveal_strlit("memory");
            let ext = "memory"@;
            assert(".memory"@ =~= seq!['.'] + ext);
            assert(self.sandbox_id@ + ".memory"@ =~= self.sandbox_id@ + seq!['.'] + ext);
            if crate::paths::is_plain_name(self.sandbox_id@) {
                crate::paths::law_name_and_extension_come_apart(self.sandbox_id@, ext);
                crate::paths::lemma_plain_with_extension(self.sandbox_id@, ext);
            }
        }
        join_paths(self.memory_dir.as_str(), concat(self.sandbox_id.as_str(), ".memory").as_str())
    }
}

/// A response of the orchestrator's own is given if and only if the issuer failed or ran out of
/// time, which are told apart.
pub proof fn law_when_the_issuer_is_blamed(outcome: ReplyOutcome)
    ensures
        outcome == ReplyOutcome::FromFunction <==> outcome.failure() is None,
        outcome == ReplyOutcome::IssuerFailed ==> outcome.failure() == Some(
            (StatusCode::Unavailable, "request issuer failed"@),
        ),
        outcome == ReplyOutcome::IssuerTimedOut ==> outcome.failure() == Some(
            (StatusCode::DeadlineExceeded, "request issuer timed out"@),
        ),
{
}

/// What may be the value of a header is what consists of such: texts may be put together, and
/// each character is looked at by itself. A tab may stand there, and what is from the space to
/// the tilde, but no other control character, and nothing outside of ASCII.
pub proof fn law_what_may_be_a_header(a: Seq<char>, b: Seq<char>)
    ensures
        is_header_value(a + b) <==> is_header_value(a) && is_header_value(b),
        a.len() == 0 ==> is_header_value(a),
        a.len() == 1 ==> (is_header_value(a) <==> a[0] as int == 9 || 32 <= a[0] as int <= 126),
{
    if is_header_value(a + b) {
        assert forall|i: int| 0 <= i < a.len() implies is_header_char(#[trigger] a[i]) by {
            assert((a + b)[i] == a[i]);
        }
        assert forall|i: int| 0 <= i < b.len() implies is_header_char(#[trigger] b[i]) by {
            assert((a + b)[a.len() + i] == b[i]);
        }
    }
    if a.len() == 1 && is_header_value(a) {
        assert(is_header_char(a[0]));
    }
}

/// A time in nanoseconds, written in decimal, may always be the value of a header.
pub proof fn law_timestamps_are_headers(n: nat)
    ensures
        is_header_value(crate::text::decimal(n)),
    decreases n,
{
    if n >= 10 {
        law_timestamps_are_headers(n / 10);
    }
}

} // verus!
