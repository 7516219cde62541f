//! A runtime whose sandboxes are network devices and nothing else.

use vstd::prelude::*;
use vstd::string::*;

use crate::metadata::{FunctionId, SandboxId, SandboxStats};
use crate::runtime::net::{Ipv4Addr, TapInfo};
use crate::runtime::registration::{
    decode_request, EncodedInfo, RegisterFunctionRequest, RegistrationError,
};
use crate::runtime::{MonitorTarget, Sandbox};
use crate::text::concat;

verus! {

/// A sandbox that is nothing but a network device; it goes by the device's name.
#[derive(Debug)]
pub struct ToySandbox {
    pub stats: SandboxStats,
    pub function_id: FunctionId,
    pub tap: TapInfo,
}

impl Sandbox for ToySandbox {
    open spec fn spec_id(&self) -> SandboxId {
        self.tap.name
    }

    open spec fn spec_function_id(&self) -> FunctionId {
        self.function_id
    }

    open spec fn spec_has_snapshot(&self) -> bool {
        false
    }

    open spec fn spec_stats(&self) -> SandboxStats {
        self.stats
    }

    open spec fn spec_with_stats(&self, stats: SandboxStats) -> ToySandbox {
        ToySandbox { stats, ..*self }
    }

    proof fn lemma_with_stats(s: ToySandbox, stats: SandboxStats) {
    }

    fn id(&self) -> (r: &SandboxId) {
        &self.tap.name
    }

    fn function_id(&self) -> (r: FunctionId) {
        self.function_id.clone()
    }

    fn has_snapshot(&self) -> (r: bool) {
        false
    }

    fn stats(&self) -> (r: SandboxStats) {
        self.stats
    }

    fn set_stats(&mut self, stats: SandboxStats) {
        self.stats = stats;
    }
}

impl ToySandbox {
    pub fn ip_addr(&self) -> (r: Ipv4Addr)
        ensures
            r == self.tap.ip_addr,
    {
        self.tap.ip_addr
    }

    /// What a performance monitor can watch: nothing.
    pub fn monitor_targets(&self) -> (r: Vec<MonitorTarget>)
        ensures
            r@.len() == 0,
    {
        Vec::new()
    }
}

/// A runtime whose sandboxes are network devices and nothing else.
#[derive(Debug)]
pub struct ToyRt {}

impl ToyRt {
    pub fn new() -> (r: ToyRt)
        ensures
            r == (ToyRt {  }),
    {
        ToyRt {  }
    }

    pub fn create_sandbox(&self, function_id: &FunctionId, tap: TapInfo) -> (r: ToySandbox)
        ensures
            r == (ToySandbox { stats: SandboxStats::zero(), function_id: *function_id, tap }),
    {
        ToySandbox { stats: SandboxStats::default(), function_id: function_id.clone(), tap }
    }

    /// Gives the network device of a sandbox back.
    pub fn destroy_sandbox(&self, sandbox: ToySandbox) -> (r: TapInfo)
        ensures
            r == sandbox.tap,
    {
        sandbox.tap
    }
}

/// What the runtime has to know of a Function.
#[derive(Debug)]
pub struct ToyFunctionInfo {
    pub id: FunctionId,
    /// The memory of a sandbox, in bytes.
    pub memory: u64,
    pub image_ref: String,
}

impl Default for ToyFunctionInfo {
    fn default() -> (r: ToyFunctionInfo)
        ensures
            r.id@ == ""@,
            r.memory == 0,
            r.image_ref@ == ""@,
    {
        ToyFunctionInfo { id: "".to_owned(), memory: 0, image_ref: "".to_owned() }
    }
}

/// Why a Function could not be registered.
#[derive(Debug)]
pub struct ToyError(pub String);

impl ToyError {
    /// The error in words.
    pub fn message(&self) -> (r: String)
        ensures
            r@ == "toy error: "@ + (self.0)@,
    {
        concat("toy error: ", self.0.as_str())
    }
}

impl ToyFunctionInfo {
    pub fn id(&self) -> (r: &FunctionId)
        ensures
            *r == self.id,
    {
        &self.id
    }

    pub fn memory(&self) -> (r: u64)
        ensures
            r == self.memory,
    {
        self.memory
    }

    /// Takes the JSON document that describes a Function out of a request.
    pub fn encoded(req: RegisterFunctionRequest) -> (r: Result<Vec<u8>, ToyError>)
        ensures
            match req.function_info {
                Some(crate::runtime::registration::FunctionInfoMessage {
                    runtime_specific: Some(
                        crate::runtime::registration::RuntimeSpecific::Proto3(_),
                    ),
                }) => r matches Err(ToyError(err)) && err@
                    == "RegisterFunctionRequest -> ToyFunctionInfo: protobuf not supported"@,
                Some(crate::runtime::registration::FunctionInfoMessage {
                    runtime_specific: Some(
                        crate::runtime::registration::RuntimeSpecific::B64Json(text),
                    ),
                }) => match crate::runtime::registration::base64_decoded(text@) {
                    Ok(json) => r matches Ok(bytes) && bytes@ == json,
                    Err(why) => r matches Err(ToyError(err)) && err@ == "failed to decode base64: "@
                        + why,
                },
                _ => r matches Err(ToyError(err)) && err@
                    == "RegisterFunctionRequest -> ToyFunctionInfo: empty request"@,
            },
    {
        match decode_request(req) {
            Ok(EncodedInfo::Json(json)) => Ok(json),
            Ok(EncodedInfo::Proto3(_)) => Err(
                ToyError(
                    "RegisterFunctionRequest -> ToyFunctionInfo: protobuf not supported".to_owned(),
                ),
            ),
            Err(RegistrationError::DecodeB64(err)) => Err(
                ToyError(concat("failed to decode base64: ", err.as_str())),
            ),
            Err(_) => Err(
                ToyError("RegisterFunctionRequest -> ToyFunctionInfo: empty request".to_owned()),
            ),
        }
    }

    /// The description of a Function, given what came of reading its JSON document.
    pub fn from_json(decoded: Result<ToyFunctionInfo, String>) -> (r: Result<
        ToyFunctionInfo,
        ToyError,
    >)
        ensures
            match decoded {
                Ok(info) => r == Ok::<_, ToyError>(info),
                Err(why) => r matches Err(ToyError(err)) && err@ == "failed to deserialize JSON: "@
                    + why@,
            },
    {
        match decoded {
            Ok(info) => Ok(info),
            Err(err) => Err(ToyError(concat("failed to deserialize JSON: ", err.as_str()))),
        }
    }
}

} // verus!
