//! Why the Firecracker runtime failed.

use vstd::prelude::*;
use vstd::string::*;

use crate::metadata::{FunctionId, SandboxId};
use crate::runtime::fc::files::FileError;
use crate::text::{concat, concat3, itoa_u64};

verus! {

/// What was being set up through a machine monitor's API.
#[derive(Clone, Copy, Debug, PartialEq, Eq, Structural)]
pub enum ApiSetup {
    Logger,
    Metrics,
}

/// What the operating system failed at.
#[derive(Debug)]
pub enum IoUse {
    /// Making the directory of all machines, at the path given.
    CreateRootDir(String),
    /// Preparing a machine's directory, at the path given.
    Files(String, FileError),
    /// Writing the configuration, at the path given.
    WriteConfig(String),
    AwaitApi,
    Spawn,
    /// Killing the process given.
    Kill(u32),
    /// Opening a descriptor of the process given.
    OpenPidfd(u32),
}

/// Why something could not be done to a machine.
#[derive(Debug)]
pub enum VmFault {
    /// It failed for the reason given.
    Cause(String),
    /// Its directory could not be prepared.
    Files(String, FileError),
    /// It is in a state it should not be in, as shown.
    InvalidState(String),
    /// There is no connection to its monitor.
    NoClient,
}

/// What needed a snapshot that there is not.
#[derive(Debug)]
pub enum SnapshotUse {
    /// Loading the sandbox given.
    Load(SandboxId),
    /// Writing down what has to survive of it.
    State,
}

/// Why a sandbox could not be reinstated; its network device is given as shown.
#[derive(Debug)]
pub enum ReinstateFault {
    /// The device could be neither built nor adopted.
    BuildOrAdopt(String),
    /// The device could not be allocated.
    Allocation(String),
    /// The network manager never answered.
    Receive,
    /// The network manager could not be asked for the device.
    Request(String),
}

impl ReinstateFault {
    /// What failed, in words.
    pub open spec fn text(self) -> Seq<char> {
        match self {
            ReinstateFault::BuildOrAdopt(tap) => "failed to build or adopt requested "@ + tap@,
            ReinstateFault::Allocation(tap) => "failed requested allocation for "@ + tap@,
            ReinstateFault::Receive => "failed to receive from netman's oneshot channel"@,
            ReinstateFault::Request(tap) => "failed to request from netman "@ + tap@,
        }
    }

    /// What failed, in words.
    pub fn message(&self) -> (r: String)
        ensures
            r@ == self.text(),
    {
        match self {
            ReinstateFault::BuildOrAdopt(tap) => concat(
                "failed to build or adopt requested ",
                tap.as_str(),
            ),
            ReinstateFault::Allocation(tap) => concat(
                "failed requested allocation for ",
                tap.as_str(),
            ),
            ReinstateFault::Receive => "failed to receive from netman's oneshot channel".to_owned(),
            ReinstateFault::Request(tap) => concat("failed to request from netman ", tap.as_str()),
        }
    }
}

/// A failure of the Firecracker runtime.
#[derive(Debug)]
#[allow(inconsistent_fields)]
pub enum Error {
    /// No root file system is known for the Function.
    Init { function_id: FunctionId },
    ApiSetup { what: ApiSetup, err: String },
    Io { what: IoUse, err: String },
    /// The network device could not be built.
    Tap(String),
    CreateVm(VmFault),
    LoadSnapshot(VmFault),
    NoSnapshot(SnapshotUse),
    PauseVm(VmFault),
    ResumeVm(VmFault),
    CreateSnapshot(VmFault),
    ReinstateSandbox { what: ReinstateFault, err: String },
}

impl IoUse {
    /// What failed, in words.
    pub open spec fn text(self) -> Seq<char> {
        match self {
            IoUse::CreateRootDir(path) => "failed to create uVMs root directory '"@ + path@
                + "'"@,
            IoUse::Files(dir, failed) => failed.text(dir@),
            IoUse::WriteConfig(path) => "failed to write uVM config file '"@ + path@ + "'"@,
            IoUse::AwaitApi => "awaiting Firecracker's API server"@,
            IoUse::Spawn => "failed to fork/exec firecracker process"@,
            IoUse::Kill(pid) => "failed to SIGKILL and reap child process "@
                + crate::text::decimal(pid as nat),
            IoUse::OpenPidfd(pid) => "failed to pidfd_open(2) child process "@
                + crate::text::decimal(pid as nat),
        }
    }

    /// What failed, in words.
    pub fn message(&self) -> (r: String)
        ensures
            r@ == self.text(),
    {
        match self {
            IoUse::CreateRootDir(path) => concat3(
                "failed to create uVMs root directory '",
                path.as_str(),
                "'",
            ),
            IoUse::Files(dir, failed) => failed.message(dir.as_str()),
            IoUse::WriteConfig(path) => concat3(
                "failed to write uVM config file '",
                path.as_str(),
                "'",
            ),
            IoUse::AwaitApi => "awaiting Firecracker's API server".to_owned(),
            IoUse::Spawn => "failed to fork/exec firecracker process".to_owned(),
            IoUse::Kill(pid) => concat(
                "failed to SIGKILL and reap child process ",
                itoa_u64(*pid as u64).as_str(),
            ),
            IoUse::OpenPidfd(pid) => concat(
                "failed to pidfd_open(2) child process ",
                itoa_u64(*pid as u64).as_str(),
            ),
        }
    }
}

impl Error {
    /// The error in words, without its cause.
    pub open spec fn text(self) -> Seq<char> {
        match self {
            Error::Init { function_id } => "failed to initialize runtime: "@
                + "missing rootfs path for FunctionId '"@ + function_id@ + "'"@,
            Error::ApiSetup { what, .. } => "failed API-driven Firecracker setup: "@ + match what {
                ApiSetup::Logger => "configuring logger"@,
                ApiSetup::Metrics => "configuring metrics"@,
            },
            Error::Io { what, .. } => "I/O error: "@ + what.text(),
            Error::Tap(err) => err@,
            Error::CreateVm(_) => "failed to create new uVM"@,
            Error::LoadSnapshot(_) => "failed to load uVM from snapshot"@,
            Error::NoSnapshot(SnapshotUse::Load(id)) => "loading "@ + id@ + ": snapshot not found"@,
            Error::NoSnapshot(SnapshotUse::State) => "snapshot state creation"@
                + ": snapshot not found"@,
            Error::PauseVm(_) => "failed to pause uVM"@,
            Error::ResumeVm(_) => "failed to resume uVM"@,
            Error::CreateSnapshot(_) => "failed to create uVM snapshot"@,
            Error::ReinstateSandbox { what, .. } =>
                "failed to reinstate VM from SnapshotState: "@ + what.text(),
        }
    }

    /// The error in words, without its cause.
    pub fn message(&self) -> (r: String)
        ensures
            r@ == self.text(),
    {
        match self {
            Error::Init { function_id } => {
                let mut r = concat3(
                    "failed to initialize runtime: ",
                    "missing rootfs path for FunctionId '",
                    function_id.as_str(),
                );
                r.append("'");
                r
            },
            Error::ApiSetup { what, .. } => concat(
                "failed API-driven Firecracker setup: ",
                match what {
                    ApiSetup::Logger => "configuring logger",
                    ApiSetup::Metrics => "configuring metrics",
                },
            ),
            Error::Io { what, .. } => concat("I/O error: ", what.message().as_str()),
            Error::Tap(err) => err.clone(),
            Error::CreateVm(_) => "failed to create new uVM".to_owned(),
            Error::LoadSnapshot(_) => "failed to load uVM from snapshot".to_owned(),
            Error::NoSnapshot(SnapshotUse::Load(id)) => concat3(
                "loading ",
                id.as_str(),
                ": snapshot not found",
            ),
            Error::NoSnapshot(SnapshotUse::State) => concat(
                "snapshot state creation",
                ": snapshot not found",
            ),
            Error::PauseVm(_) => "failed to pause uVM".to_owned(),
            Error::ResumeVm(_) => "failed to resume uVM".to_owned(),
            Error::CreateSnapshot(_) => "failed to create uVM snapshot".to_owned(),
            Error::ReinstateSandbox { what, .. } => concat(
                "failed to reinstate VM from SnapshotState: ",
                what.message().as_str(),
            ),
        }
    }
}

/// The operations that need a machine's monitor.
#[derive(Clone, Copy, Debug, PartialEq, Eq, Structural)]
pub enum VmOp {
    Create,
    Load,
    Pause,
    Resume,
    Snapshot,
}

impl VmFault {
    /// Why `op` failed, in words.
    pub open spec fn text(self, op: VmOp) -> Seq<char> {
        match self {
            VmFault::Cause(err) => err@,
            VmFault::Files(dir, failed) => "I/O error: "@ + failed.text(dir@),
            VmFault::InvalidState(shown) => (match op {
                VmOp::Create => "started"@,
                _ => "restored"@,
            }) + " uVM in invalid state: "@ + shown@,
            VmFault::NoClient => "BUG: attempting to "@ + match op {
                VmOp::Create => "create"@,
                VmOp::Load => "load"@,
                VmOp::Pause => "pause"@,
                VmOp::Resume => "resume"@,
                VmOp::Snapshot => "snapshot"@,
            } + " uVM without client"@,
        }
    }

    /// Why `op` failed, in words.
    pub fn message(&self, op: VmOp) -> (r: String)
        ensures
            r@ == self.text(op),
    {
        match self {
            VmFault::Cause(err) => err.clone(),
            VmFault::Files(dir, failed) => concat(
                "I/O error: ",
                failed.message(dir.as_str()).as_str(),
            ),
            VmFault::InvalidState(shown) => concat3(
                match op {
                    VmOp::Create => "started",
                    _ => "restored",
                },
                " uVM in invalid state: ",
                shown.as_str(),
            ),
            VmFault::NoClient => concat3(
                "BUG: attempting to ",
                match op {
                    VmOp::Create => "create",
                    VmOp::Load => "load",
                    VmOp::Pause => "pause",
                    VmOp::Resume => "resume",
                    VmOp::Snapshot => "snapshot",
                },
                " uVM without client",
            ),
        }
    }
}

impl Error {
    /// What caused the error, in words; the errors that have no cause say it all themselves.
    pub open spec fn cause(self) -> Option<Seq<char>> {
        match self {
            Error::Init { .. } | Error::Tap(_) | Error::NoSnapshot(_) => None,
            Error::ApiSetup { err, .. } => Some(err@),
            Error::Io { err, .. } => Some(err@),
            Error::CreateVm(fault) => Some(fault.text(VmOp::Create)),
            Error::LoadSnapshot(fault) => Some(fault.text(VmOp::Load)),
            Error::PauseVm(fault) => Some(fault.text(VmOp::Pause)),
            Error::ResumeVm(fault) => Some(fault.text(VmOp::Resume)),
            Error::CreateSnapshot(fault) => Some(fault.text(VmOp::Snapshot)),
            Error::ReinstateSandbox { err, .. } => Some(err@),
        }
    }

    /// What caused the error, in words; the errors that have no cause say it all themselves.
    pub fn source_message(&self) -> (r: Option<String>)
        ensures
            r is Some == self.cause() is Some,
            r is Some ==> r->0@ == self.cause()->0,
    {
        match self {
            Error::Init { .. } | Error::Tap(_) | Error::NoSnapshot(_) => None,
            Error::ApiSetup { err, .. } => Some(err.clone()),
            Error::Io { err, .. } => Some(err.clone()),
            Error::CreateVm(fault) => Some(fault.message(VmOp::Create)),
            Error::LoadSnapshot(fault) => Some(fault.message(VmOp::Load)),
            Error::PauseVm(fault) => Some(fault.message(VmOp::Pause)),
            Error::ResumeVm(fault) => Some(fault.message(VmOp::Resume)),
            Error::CreateSnapshot(fault) => Some(fault.message(VmOp::Snapshot)),
            Error::ReinstateSandbox { err, .. } => Some(err.clone()),
        }
    }
}

} // verus!
