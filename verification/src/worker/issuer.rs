//! Issuing requests to Functions.

use std::collections::HashMap;

use vstd::prelude::*;

use crate::metadata::{FunctionId, InvocationId};
use crate::metrics::Nanoseconds;
use crate::status::StatusCode;

verus! {

/// The header in which a sandbox reports how long its response took.
pub const HEADER_KEY_RESPONSE_DURATION: &'static str = "response-duration-ns";

/// The header in which a sandbox reports how long its handler took.
pub const HEADER_KEY_HANDLER_DURATION: &'static str = "handler-duration-ns";

/// A request for a Function.
#[derive(Debug, PartialEq, Eq)]
pub struct Request {
    pub invocation_id: InvocationId,
    pub function_id: FunctionId,
    pub metadata_map: HashMap<String, String>,
    pub payload: Vec<u8>,
}

/// What a Function answered.
#[derive(Debug)]
pub struct Response {
    pub invocation_id: InvocationId,
    pub function_id: FunctionId,
    pub status_code: StatusCode,
    pub metadata_map: HashMap<String, String>,
    pub payload: Vec<u8>,
}

/// A response, with how long it took to connect and to invoke.
#[derive(Debug)]
pub struct IssuerResponse<Resp> {
    pub resp: Resp,
    pub connection_duration: Nanoseconds,
    pub invocation_duration: Nanoseconds,
}

/// An issuer that answers every request itself, with the request's own payload.
#[derive(Clone, Copy, Debug)]
pub struct ToyIssuer {}

impl ToyIssuer {
    pub fn new() -> ToyIssuer {
        ToyIssuer {  }
    }

    /// Answers a request with its own payload and no headers, in no time.
    pub fn issue_request(&mut self, req: Request) -> (r: IssuerResponse<Response>)
        ensures
            r.resp.invocation_id == req.invocation_id,
            r.resp.function_id == req.function_id,
            r.resp.status_code == StatusCode::Success,
            r.resp.metadata_map@ == Map::<String, String>::empty(),
            r.resp.payload == req.payload,
            r.connection_duration == 0,
            r.invocation_duration == 0,
    {
        IssuerResponse {
            resp: Response {
                invocation_id: req.invocation_id,
                function_id: req.function_id,
                status_code: StatusCode::Success,
                metadata_map: HashMap::new(),
                payload: req.payload,
            },
            connection_duration: 0,
            invocation_duration: 0,
        }
    }
}

} // verus!
