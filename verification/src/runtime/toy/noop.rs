//! A runtime that does nothing at all.

use vstd::prelude::*;
use vstd::string::*;

use crate::metadata::{FunctionId, SandboxId, SandboxStats};
use crate::runtime::net::Ipv4Addr;
use crate::runtime::registration::{
    decode_request, mebibytes, EncodedInfo, RegisterFunctionRequest, RegistrationError, MEBIBYTE,
};
use crate::runtime::{MonitorTarget, Sandbox, SnapshotState};
use crate::text::{concat, zero_padded};

verus! {

/// Why a Function could not be registered.
#[derive(Debug)]
pub enum NoOpError {
    EmptyRequest,
    DecodeB64(String),
    DeserJson(String),
    DeserProto3(String),
}

impl NoOpError {
    /// What is wrong, in words.
    pub open spec fn text(self) -> Seq<char> {
        match self {
            NoOpError::EmptyRequest =>
                "RegisterFunctionRequest -> NoOpFunctionInfo: empty request"@,
            NoOpError::DecodeB64(err) => "failed to decode base64: "@ + err@,
            NoOpError::DeserJson(err) => "failed to deserialize JSON: "@ + err@,
            NoOpError::DeserProto3(_) =>
                "pb::function_info::RuntimeSpecific::Proto3 -> RuntimeInfoForNoOp: decode failed"@,
        }
    }

    /// What is wrong, in words.
    pub fn message(&self) -> (r: String)
        ensures
            r@ == self.text(),
    {
        match self {
            NoOpError::EmptyRequest =>
                "RegisterFunctionRequest -> NoOpFunctionInfo: empty request".to_owned(),
            NoOpError::DecodeB64(err) => concat("failed to decode base64: ", err.as_str()),
            NoOpError::DeserJson(err) => concat("failed to deserialize JSON: ", err.as_str()),
            NoOpError::DeserProto3(_) =>
                "pb::function_info::RuntimeSpecific::Proto3 -> RuntimeInfoForNoOp: decode failed".to_owned(),
        }
    }
}

/// What the orchestrator itself has to know of a Function.
#[derive(Debug)]
pub struct NoOpFunctionInfo {
    pub id: FunctionId,
    /// The memory of a sandbox, in bytes.
    pub memory: u64,
}

/// What the descriptions of Functions have in common on the wire, whatever runtime they are
/// meant for.
#[derive(Debug)]
pub struct RuntimeInfoForNoOp {
    pub function_id: String,
    pub memory_mib: u32,
}

impl NoOpFunctionInfo {
    pub fn id(&self) -> (r: &FunctionId)
        ensures
            *r == self.id,
    {
        &self.id
    }

    pub fn memory(&self) -> (r: u64)
        ensures
            r == self.memory,
    {
        self.memory
    }

    /// Takes the encoded description of a Function out of a request.
    pub fn encoded(req: RegisterFunctionRequest) -> (r: Result<EncodedInfo, NoOpError>)
        ensures
            match req.function_info {
                Some(crate::runtime::registration::FunctionInfoMessage {
                    runtime_specific: Some(
                        crate::runtime::registration::RuntimeSpecific::Proto3(any),
                    ),
                }) => r == Ok::<_, NoOpError>(EncodedInfo::Proto3(any)),
                Some(crate::runtime::registration::FunctionInfoMessage {
                    runtime_specific: Some(
                        crate::runtime::registration::RuntimeSpecific::B64Json(text),
                    ),
                }) => match crate::runtime::registration::base64_decoded(text@) {
                    Ok(json) => r matches Ok(EncodedInfo::Json(bytes)) && bytes@ == json,
                    Err(why) => r matches Err(NoOpError::DecodeB64(err)) && err@ == why,
                },
                _ => r == Err::<EncodedInfo, _>(NoOpError::EmptyRequest),
            },
    {
        match decode_request(req) {
            Ok(info) => Ok(info),
            Err(RegistrationError::DecodeB64(err)) => Err(NoOpError::DecodeB64(err)),
            Err(_) => Err(NoOpError::EmptyRequest),
        }
    }

    /// The description of a Function, given what came of decoding its message.
    pub fn from_proto3(decoded: Result<RuntimeInfoForNoOp, String>) -> (r: Result<
        NoOpFunctionInfo,
        NoOpError,
    >)
        ensures
            r == (match decoded {
                Ok(info) => Ok(
                    NoOpFunctionInfo {
                        id: info.function_id,
                        memory: (info.memory_mib * MEBIBYTE) as u64,
                    },
                ),
                Err(err) => Err(NoOpError::DeserProto3(err)),
            }),
    {
        match decoded {
            Ok(info) => Ok(
                NoOpFunctionInfo { id: info.function_id, memory: mebibytes(info.memory_mib) },
            ),
            Err(err) => Err(NoOpError::DeserProto3(err)),
        }
    }

    /// The description of a Function, given what came of reading its JSON document.
    pub fn from_json(decoded: Result<NoOpFunctionInfo, String>) -> (r: Result<
        NoOpFunctionInfo,
        NoOpError,
    >)
        ensures
            r == (match decoded {
                Ok(info) => Ok(info),
                Err(err) => Err(NoOpError::DeserJson(err)),
            }),
    {
        match decoded {
            Ok(info) => Ok(info),
            Err(err) => Err(NoOpError::DeserJson(err)),
        }
    }
}

/// A sandbox that is nothing but a name and its counters.
#[derive(Debug)]
pub struct NoOpSandbox {
    pub id: SandboxId,
    pub function_id: FunctionId,
    pub stats: SandboxStats,
}

impl Sandbox for NoOpSandbox {
    open spec fn spec_id(&self) -> SandboxId {
        self.id
    }

    open spec fn spec_function_id(&self) -> FunctionId {
        self.function_id
    }

    open spec fn spec_has_snapshot(&self) -> bool {
        false
    }

    open spec fn spec_stats(&self) -> SandboxStats {
        self.stats
    }

    open spec fn spec_with_stats(&self, stats: SandboxStats) -> NoOpSandbox {
        NoOpSandbox { stats, ..*self }
    }

    proof fn lemma_with_stats(s: NoOpSandbox, stats: SandboxStats) {
    }

    fn id(&self) -> (r: &SandboxId) {
        &self.id
    }

    fn function_id(&self) -> (r: FunctionId) {
        self.function_id.clone()
    }

    fn has_snapshot(&self) -> (r: bool) {
        false
    }

    fn stats(&self) -> (r: SandboxStats) {
        self.stats
    }

    fn set_stats(&mut self, stats: SandboxStats) {
        self.stats = stats;
    }
}

impl SnapshotState for NoOpSandbox {
    open spec fn spec_state_id(&self) -> Seq<char> {
        self.id@
    }

    fn id(&self) -> (r: &str) {
        self.id.as_str()
    }
}

impl NoOpSandbox {
    pub fn ip_addr(&self) -> (r: Ipv4Addr)
        ensures
            r == Ipv4Addr::unspecified(),
    {
        Ipv4Addr { a: 0, b: 0, c: 0, d: 0 }
    }

    /// What a performance monitor can watch: nothing.
    pub fn monitor_targets(&self) -> (r: Vec<MonitorTarget>)
        ensures
            r@.len() == 0,
    {
        Vec::new()
    }
}

/// How many digits the name of a sandbox has at least.
pub const ID_WIDTH: usize = 24;

/// A runtime that does nothing at all.
#[derive(Debug)]
pub struct NoOpRt {}

impl NoOpRt {
    pub fn new() -> (r: NoOpRt)
        ensures
            r == (NoOpRt {  }),
    {
        NoOpRt {  }
    }

    /// A sandbox, named after its number.
    pub fn create_sandbox(&self, function_id: &FunctionId, number: u32) -> (r: NoOpSandbox)
        ensures
            r.id@ == crate::text::padded(number as nat, ID_WIDTH as nat),
            r.function_id == *function_id,
            r.stats == SandboxStats::zero(),
    {
        NoOpSandbox {
            id: zero_padded(number as u64, ID_WIDTH),
            function_id: function_id.clone(),
            stats: SandboxStats::default(),
        }
    }
}

/// Sandboxes of different numbers have different names.
pub proof fn law_names_are_unique(a: u32, b: u32)
    requires
        a != b,
    ensures
        crate::text::padded(a as nat, ID_WIDTH as nat) != crate::text::padded(
            b as nat,
            ID_WIDTH as nat,
        ),
{
    if crate::text::padded(a as nat, ID_WIDTH as nat) == crate::text::padded(
        b as nat,
        ID_WIDTH as nat,
    ) {
        crate::text::law_padded_is_injective(a as nat, b as nat, ID_WIDTH as nat);
    }
}

} // verus!
