//! Why the firecracker-containerd runtime failed.

use vstd::prelude::*;
use vstd::string::*;

use crate::runtime::fc::error::ReinstateFault;
use crate::text::concat;

verus! {

/// A failure of the firecracker-containerd runtime, with what caused it.
#[derive(Debug)]
#[allow(inconsistent_fields)]
pub enum Error {
    Init(String),
    /// The network device could not be built.
    Tap(String),
    CreateVm(String),
    PauseVm(String),
    ResumeVm(String),
    CreateVmSnapshot(String),
    LoadVmSnapshot(String),
    UnloadVm(String),
    StopVm(String),
    /// The machine could not be destroyed.
    DestroyVm,
    PrepareContainerSnapshot(String),
    CreateContainer(String),
    DeleteContainer(String),
    CreateTask(String),
    StartTask(String),
    /// What is known of the machine's process could not be found out.
    Process(String),
    ReinstateSandbox { what: ReinstateFault, err: String },
}

impl Error {
    /// The error in words, without its cause.
    pub open spec fn text(self) -> Seq<char> {
        match self {
            Error::Init(what) => "failed to initialize runtime: "@ + what@,
            Error::Tap(err) => err@,
            Error::CreateVm(_) => "failed to create new VM"@,
            Error::PauseVm(_) => "failed to pause VM"@,
            Error::ResumeVm(_) => "failed to resume VM"@,
            Error::CreateVmSnapshot(_) => "failed to create new VM snapshot"@,
            Error::LoadVmSnapshot(_) => "failed to load VM from snapshot"@,
            Error::UnloadVm(_) => "failed to unload VM"@,
            Error::StopVm(_) => "failed to stop VM"@,
            Error::DestroyVm => "failed to destroy VM"@,
            Error::PrepareContainerSnapshot(_) => "failed to prepare container snapshot"@,
            Error::CreateContainer(_) => "failed to create new container"@,
            Error::DeleteContainer(_) => "failed to delete container"@,
            Error::CreateTask(_) => "failed to create new task"@,
            Error::StartTask(_) => "failed to start task"@,
            Error::Process(err) => err@,
            Error::ReinstateSandbox { what, .. } => "failed to reinstate VM from SnapshotState: "@
                + what.text(),
        }
    }

    /// The error in words, without its cause.
    pub fn message(&self) -> (r: String)
        ensures
            r@ == self.text(),
    {
        match self {
            Error::Init(what) => concat("failed to initialize runtime: ", what.as_str()),
            Error::Tap(err) => err.clone(),
            Error::CreateVm(_) => "failed to create new VM".to_owned(),
            Error::PauseVm(_) => "failed to pause VM".to_owned(),
            Error::ResumeVm(_) => "failed to resume VM".to_owned(),
            Error::CreateVmSnapshot(_) => "failed to create new VM snapshot".to_owned(),
            Error::LoadVmSnapshot(_) => "failed to load VM from snapshot".to_owned(),
            Error::UnloadVm(_) => "failed to unload VM".to_owned(),
            Error::StopVm(_) => "failed to stop VM".to_owned(),
            Error::DestroyVm => "failed to destroy VM".to_owned(),
            Error::PrepareContainerSnapshot(_) => "failed to prepare container snapshot".to_owned(),
            Error::CreateContainer(_) => "failed to create new container".to_owned(),
            Error::DeleteContainer(_) => "failed to delete container".to_owned(),
            Error::CreateTask(_) => "failed to create new task".to_owned(),
            Error::StartTask(_) => "failed to start task".to_owned(),
            Error::Process(err) => err.clone(),
            Error::ReinstateSandbox { what, .. } => concat(
                "failed to reinstate VM from SnapshotState: ",
                what.message().as_str(),
            ),
        }
    }
}

} // verus!
