//! Registering and deregistering Functions.

use vstd::prelude::*;

use crate::faasctl::cli::Address;
use crate::status::StatusCode;

verus! {

/// Registers the Functions in a file.
#[derive(Debug)]
pub struct RegisterCmd {
    pub functions: String,
}

/// Deregisters the Functions in a file, or a single one.
#[derive(Debug)]
pub struct DeregisterCmd {
    pub functions: Option<String>,
    pub function_id: Option<String>,
}

#[derive(Debug)]
pub enum FunctionsSubCmd {
    Register(RegisterCmd),
    Deregister(DeregisterCmd),
}

/// Registers or deregisters Functions.
#[derive(Debug)]
pub struct FunctionsCmd {
    pub addr: Address,
    pub cmd: FunctionsSubCmd,
}

/// What is to be deregistered.
#[derive(Debug)]
pub enum DeregisterTarget {
    /// The Functions in the file given.
    All(String),
    /// One Function.
    One(String),
}

/// Neither a file nor a Function was given.
#[derive(Clone, Copy, Debug, PartialEq, Eq, Structural)]
pub struct NothingToDeregister;

impl NothingToDeregister {
    pub fn message(&self) -> (r: &'static str)
        ensures
            r@ == "Neither Function ID nor `--functions <FILE_PATH>` provided"@,
    {
        "Neither Function ID nor `--functions <FILE_PATH>` provided"
    }
}

impl DeregisterCmd {
    /// What is to be deregistered: a file takes precedence.
    pub fn target(self) -> (r: Result<DeregisterTarget, NothingToDeregister>)
        ensures
            r == (match (self.functions, self.function_id) {
                (Some(path), _) => Ok(DeregisterTarget::All(path)),
                (None, Some(id)) => Ok(DeregisterTarget::One(id)),
                (None, None) => Err(NothingToDeregister),
            }),
    {
        match (self.functions, self.function_id) {
            (Some(path), _) => Ok(DeregisterTarget::All(path)),
            (None, Some(id)) => Ok(DeregisterTarget::One(id)),
            (None, None) => Err(NothingToDeregister),
        }
    }
}

/// What came of a request, as far as the client is concerned.
#[derive(Clone, Copy, Debug, PartialEq, Eq, Structural)]
pub enum RequestOutcome {
    Success,
    /// There was nothing to do.
    Unchanged,
    Failed(StatusCode),
}

/// What came of a request that changes nothing if it is answered with `unchanged`.
pub open spec fn outcome_of(status: Result<(), StatusCode>, unchanged: StatusCode) -> RequestOutcome {
    match status {
        Ok(_) => RequestOutcome::Success,
        Err(code) => if code == unchanged {
            RequestOutcome::Unchanged
        } else {
            RequestOutcome::Failed(code)
        },
    }
}

/// What came of registering a Function: one that is registered already stays as it is.
pub fn register_outcome(status: Result<(), StatusCode>) -> (r: RequestOutcome)
    ensures
        r == (match status {
            Ok(_) => RequestOutcome::Success,
            Err(StatusCode::AlreadyExists) => RequestOutcome::Unchanged,
            Err(code) => RequestOutcome::Failed(code),
        }),
        r == outcome_of(status, StatusCode::AlreadyExists),
{
    match status {
        Ok(_) => RequestOutcome::Success,
        Err(StatusCode::AlreadyExists) => RequestOutcome::Unchanged,
        Err(code) => RequestOutcome::Failed(code),
    }
}

/// What came of deregistering a Function: one that is not registered is no failure.
pub fn deregister_outcome(status: Result<(), StatusCode>) -> (r: RequestOutcome)
    ensures
        r == (match status {
            Ok(_) => RequestOutcome::Success,
            Err(StatusCode::NotFound) => RequestOutcome::Unchanged,
            Err(code) => RequestOutcome::Failed(code),
        }),
        r == outcome_of(status, StatusCode::NotFound),
{
    match status {
        Ok(_) => RequestOutcome::Success,
        Err(StatusCode::NotFound) => RequestOutcome::Unchanged,
        Err(code) => RequestOutcome::Failed(code),
    }
}

/// A request succeeded exactly if it was answered without an error. The one error that says that
/// there was nothing to do is no failure, and any other is the failure that it is.
pub proof fn law_what_came_of_a_request(status: Result<(), StatusCode>, unchanged: StatusCode)
    ensures
        outcome_of(status, unchanged) == RequestOutcome::Success <==> status is Ok,
        outcome_of(status, unchanged) == RequestOutcome::Unchanged <==> status == Err::<(), _>(
            unchanged,
        ),
        status is Err && status->Err_0 != unchanged ==> outcome_of(status, unchanged)
            == RequestOutcome::Failed(status->Err_0),
{
}

} // verus!
