//! The runtime: what it knows of its machine, and what it does to it.

use vstd::prelude::*;

use crate::metadata::{FunctionId, SandboxId, SandboxStats};
use crate::paths::join_paths;
use crate::runtime::Sandbox;
use crate::runtime::fc::boot::{Boot, BootPhase};
use crate::runtime::fc::config::FirecrackerConfig;
use crate::runtime::fc::error::{Error, IoUse, ReinstateFault, SnapshotUse, VmFault, VmOp};
use crate::runtime::fc::info::FcFunctionInfo;
use crate::runtime::fc::sandbox::{FcProcessState, MicroVm, MicroVmState, SnapshotFiles};
use crate::runtime::net::TapInfo;

verus! {

/// The runtime of one machine at most.
#[derive(Debug)]
pub struct Firecracker {
    pub config: FirecrackerConfig,
    pub function_info: FcFunctionInfo,
    /// The machine that the runtime is bound to; it need not run.
    pub uvm_name: Option<SandboxId>,
    /// The runtime is connected to the machine's monitor.
    pub connected: bool,
}

/// What is left to do for a machine that was destroyed.
#[derive(Debug)]
pub struct DestroyPlan {
    /// The monitor that has to be killed first.
    pub kill: Option<FcProcessState>,
    /// The directory that goes, with all that is in it.
    pub remove_dir: String,
    /// The snapshot that goes.
    pub unlink: Option<SnapshotFiles>,
    /// The network device, which is free again.
    pub tap: TapInfo,
}

/// What came of asking for the network device of a machine that is to be reinstated.
#[derive(Debug)]
pub enum TapReply {
    /// The device is there.
    Device(TapInfo),
    BuildFailed(String),
    AllocationFailed(String),
    NoReply(String),
    NotAsked(String),
}

/// The error of an operation on a machine.
pub open spec fn op_error(op: VmOp, fault: VmFault) -> Error {
    match op {
        VmOp::Create => Error::CreateVm(fault),
        VmOp::Load => Error::LoadSnapshot(fault),
        VmOp::Pause => Error::PauseVm(fault),
        VmOp::Resume => Error::ResumeVm(fault),
        VmOp::Snapshot => Error::CreateSnapshot(fault),
    }
}

/// What came of an operation on a machine, given what its monitor says.
pub fn op_outcome(op: VmOp, outcome: Result<(), VmFault>) -> (r: Result<(), Error>)
    ensures
        r == (match outcome {
            Ok(_) => Ok(()),
            Err(fault) => Err(op_error(op, fault)),
        }),
{
    match outcome {
        Ok(_) => Ok(()),
        Err(fault) => Err(
            match op {
                VmOp::Create => Error::CreateVm(fault),
                VmOp::Load => Error::LoadSnapshot(fault),
                VmOp::Pause => Error::PauseVm(fault),
                VmOp::Resume => Error::ResumeVm(fault),
                VmOp::Snapshot => Error::CreateSnapshot(fault),
            },
        ),
    }
}

impl Firecracker {
    /// A runtime for a Function, bound to the machine given, if there is one.
    pub fn new(
        config: &FirecrackerConfig,
        function_info: &FcFunctionInfo,
        maybe_uvm: Option<&MicroVm>,
    ) -> (r: Firecracker)
        ensures
            r == (Firecracker {
                config: *config,
                function_info: *function_info,
                uvm_name: match maybe_uvm {
                    Some(uvm) => Some(uvm.spec_id()),
                    None => None,
                },
                connected: false,
            }),
    {
        Firecracker {
            config: config.clone(),
            function_info: function_info.clone(),
            uvm_name: match maybe_uvm {
                Some(uvm) => Some(uvm.id().clone()),
                None => None,
            },
            connected: false,
        }
    }

    /// Whether the runtime can be used, given what came of making the directory of all
    /// machines.
    pub fn init(&self, made: Result<(), String>) -> (r: Result<(), Error>)
        ensures
            r == (match made {
                Ok(_) => Ok(()),
                Err(err) => Err(
                    Error::Io { what: IoUse::CreateRootDir(self.config.uvms_root_path), err },
                ),
            }),
    {
        match made {
            Ok(_) => Ok(()),
            Err(err) => Err(
                Error::Io { what: IoUse::CreateRootDir(self.config.uvms_root_path.clone()), err },
            ),
        }
    }

    /// The directory of the machine `vm_id`.
    pub fn uvm_dir(&self, vm_id: &str) -> (r: String)
        ensures
            r@ == crate::paths::joined(self.config.uvms_root_path@, vm_id@),
    {
        join_paths(self.config.uvms_root_path.as_str(), vm_id)
    }

    /// The new machine, once bringing it up is over.
    pub fn create_sandbox(&mut self, boot: Boot, function_id: &FunctionId, tap: TapInfo) -> (r:
        Result<MicroVm, Error>)
        requires
            boot.wf(),
            boot.mode is Creation,
            boot.phase is Over,
            boot.vm_id is Some ==> boot.vm_id->0 == tap.name,
        ensures
            match boot.phase->Over_0 {
                Ok(process) => {
                    &&& r == Ok::<_, Error>(
                        MicroVm {
                            stats: SandboxStats::zero(),
                            function_id: *function_id,
                            tap,
                            process: Some(process),
                            snapshot: None,
                        },
                    )
                    &&& *final(self) == (Firecracker {
                        uvm_name: Some(tap.name),
                        connected: true,
                        ..*old(self)
                    })
                },
                Err(err) => r == Err::<MicroVm, _>(err) && *final(self) == *old(self),
            },
    {
        match boot.phase {
            BootPhase::Over(Ok(process)) => {
                self.uvm_name = Some(tap.name.clone());
                self.connected = true;
                Ok(
                    MicroVm {
                        stats: SandboxStats::default(),
                        function_id: function_id.clone(),
                        tap,
                        process: Some(process),
                        snapshot: None,
                    },
                )
            },
            BootPhase::Over(Err(err)) => Err(err),
            _ => Err(Error::CreateVm(VmFault::NoClient)),
        }
    }

    /// Starts to load a machine. It is brought up under the name of the one that the runtime
    /// is bound to; without a snapshot it is not brought up at all.
    pub fn start_load(&self, uvm: &MicroVm) -> (r: Boot)
        requires
            uvm.snapshot is Some ==> self.uvm_name is Some,
        ensures
            r.wf(),
            r.mode is Loading,
            r.vm_id == self.uvm_name,
            r.phase == if uvm.snapshot is Some {
                BootPhase::EnsureFiles
            } else {
                BootPhase::Over(Err(Error::NoSnapshot(SnapshotUse::Load(uvm.spec_id()))))
            },
    {
        let vm_id = match &self.uvm_name {
            Some(vm_id) => Some(vm_id.clone()),
            None => None,
        };
        Boot::load(vm_id, uvm)
    }

    /// The machine that was loaded, once bringing it up is over.
    pub fn load_sandbox(&mut self, boot: Boot, uvm: &mut MicroVm) -> (r: Result<(), Error>)
        requires
            boot.wf(),
            boot.mode is Loading,
            boot.phase is Over,
            boot.vm_id == old(self).uvm_name,
            boot.phase->Over_0 is Ok ==> old(uvm).snapshot is Some,
        ensures
            match boot.phase->Over_0 {
                Ok(process) => {
                    &&& r is Ok
                    &&& *final(uvm) == (MicroVm { process: Some(process), ..*old(uvm) })
                    &&& *final(self) == (Firecracker { connected: true, ..*old(self) })
                },
                Err(err) => r == Err::<(), _>(err) && *final(self) == *old(self) && *final(uvm)
                    == *old(uvm),
            },
    {
        match boot.phase {
            BootPhase::Over(Ok(process)) => {
                uvm.process = Some(process);
                self.connected = true;
                Ok(())
            },
            BootPhase::Over(Err(err)) => Err(err),
            _ => Err(Error::LoadSnapshot(VmFault::NoClient)),
        }
    }

    /// Whether `op` can be tried at all: the runtime has to be connected.
    pub fn client_for(&self, op: VmOp) -> (r: Result<(), Error>)
        ensures
            r == if self.connected {
                Ok(())
            } else {
                Err(op_error(op, VmFault::NoClient))
            },
    {
        if self.connected {
            Ok(())
        } else {
            op_outcome(op, Err(VmFault::NoClient))
        }
    }

    /// Takes what came of writing a machine's snapshot to the paths given.
    pub fn create_snapshot(
        &self,
        uvm: &mut MicroVm,
        state_file_path: String,
        memory_file_path: String,
        outcome: Result<(), VmFault>,
    ) -> (r: Result<(), Error>)
        ensures
            match outcome {
                Ok(_) => {
                    &&& r is Ok
                    &&& final(uvm).snapshot is Some
                    &&& final(uvm).snapshot->0.spec_state() == state_file_path@
                    &&& final(uvm).snapshot->0.spec_memory() == memory_file_path@
                    &&& *final(uvm) == (MicroVm { snapshot: final(uvm).snapshot, ..*old(uvm) })
                },
                Err(fault) => r == Err::<(), _>(Error::CreateSnapshot(fault)) && *final(uvm)
                    == *old(uvm),
            },
    {
        if outcome.is_ok() {
            uvm.snapshot = Some(SnapshotFiles::new(state_file_path, memory_file_path));
        }
        op_outcome(VmOp::Snapshot, outcome)
    }

    /// Takes a machine down: its monitor, if it runs, has to be killed.
    pub fn shutdown_sandbox(&self, uvm: &mut MicroVm) -> (r: Option<FcProcessState>)
        ensures
            r == old(uvm).process,
            *final(uvm) == (MicroVm { process: None, ..*old(uvm) }),
    {
        uvm.process.take()
    }

    /// Takes a machine down for good; the runtime is bound to none after that.
    pub fn destroy_sandbox(&mut self, uvm: MicroVm) -> (r: DestroyPlan)
        requires
            old(self).uvm_name is Some,
        ensures
            r.kill == uvm.process,
            r.remove_dir@ == crate::paths::joined(
                old(self).config.uvms_root_path@,
                old(self).uvm_name->0@,
            ),
            r.unlink == uvm.snapshot,
            r.tap == uvm.tap,
            *final(self) == (Firecracker { uvm_name: None, connected: false, ..*old(self) }),
    {
        let remove_dir = match &self.uvm_name {
            Some(vm_id) => self.uvm_dir(vm_id.as_str()),
            None => self.uvm_dir(""),
        };
        self.uvm_name = None;
        self.connected = false;
        DestroyPlan { kill: uvm.process, remove_dir, unlink: uvm.snapshot, tap: uvm.tap }
    }

    /// The files of a machine that need not be in the page cache: its snapshot, if it has
    /// one.
    pub fn uncache_sandbox(&self, uvm: &MicroVm) -> (r: Vec<String>)
        ensures
            crate::text::texts(r@) == (match uvm.snapshot {
                Some(files) => seq![files.spec_state(), files.spec_memory()],
                None => Seq::<Seq<char>>::empty(),
            }),
    {
        let mut paths: Vec<String> = Vec::new();
        if let Some(files) = &uvm.snapshot {
            paths.push(files.state().to_owned());
            paths.push(files.memory().to_owned());
        }
        paths
    }

    /// The process that a machine's processor has to be set for, if it is known.
    pub fn setup_cpuset(&self, uvm: &MicroVm) -> (r: Option<u32>)
        ensures
            r == (match uvm.process {
                Some(FcProcessState { pid }) => pid,
                None => None,
            }),
    {
        match &uvm.process {
            Some(process) => process.pid(),
            None => None,
        }
    }

    /// A machine from what survived of it, given what came of asking for its network device;
    /// `shown_tap` is how that device is shown.
    pub fn reinstate_sandbox(
        function_id: FunctionId,
        state: MicroVmState,
        reply: TapReply,
        shown_tap: String,
    ) -> (r: Result<MicroVm, Error>)
        ensures
            r == reinstated(function_id, state, reply, shown_tap),
    {
        match reply {
            TapReply::Device(tap) => Ok(
                MicroVm {
                    stats: state.stats,
                    function_id,
                    tap,
                    process: None,
                    snapshot: Some(state.snapshot),
                },
            ),
            TapReply::BuildFailed(err) => Err(
                Error::ReinstateSandbox { what: ReinstateFault::BuildOrAdopt(shown_tap), err },
            ),
            TapReply::AllocationFailed(err) => Err(
                Error::ReinstateSandbox { what: ReinstateFault::Allocation(shown_tap), err },
            ),
            TapReply::NoReply(err) => Err(
                Error::ReinstateSandbox { what: ReinstateFault::Receive, err },
            ),
            TapReply::NotAsked(err) => Err(
                Error::ReinstateSandbox { what: ReinstateFault::Request(shown_tap), err },
            ),
        }
    }
}

/// A machine from what survived of it.
pub open spec fn reinstated(
    function_id: FunctionId,
    state: MicroVmState,
    reply: TapReply,
    shown_tap: String,
) -> Result<MicroVm, Error> {
    match reply {
        TapReply::Device(tap) => Ok(
            MicroVm {
                stats: state.stats,
                function_id,
                tap,
                process: None,
                snapshot: Some(state.snapshot),
            },
        ),
        TapReply::BuildFailed(err) => Err(
            Error::ReinstateSandbox { what: ReinstateFault::BuildOrAdopt(shown_tap), err },
        ),
        TapReply::AllocationFailed(err) => Err(
            Error::ReinstateSandbox { what: ReinstateFault::Allocation(shown_tap), err },
        ),
        TapReply::NoReply(err) => Err(
            Error::ReinstateSandbox { what: ReinstateFault::Receive, err },
        ),
        TapReply::NotAsked(err) => Err(
            Error::ReinstateSandbox { what: ReinstateFault::Request(shown_tap), err },
        ),
    }
}

/// A machine with a snapshot that is written down and reinstated on its own network device is
/// the machine that it was, but for its monitor, which has to be started again.
pub proof fn law_reinstatement_restores(uvm: MicroVm, state: MicroVmState, shown_tap: String)
    requires
        uvm.snapshot is Some,
        state == (MicroVmState { stats: uvm.stats, tap: uvm.tap, snapshot: uvm.snapshot->0 }),
    ensures
        reinstated(uvm.function_id, state, TapReply::Device(state.tap), shown_tap) == Ok::<_, Error>(
            MicroVm { process: None, ..uvm },
        ),
{
}

/// A failure is told as that of the operation that was tried, with what was wrong.
pub proof fn law_operations_are_told_apart(op: VmOp, fault: VmFault)
    ensures
        op == VmOp::Create <==> op_error(op, fault) is CreateVm,
        op == VmOp::Load <==> op_error(op, fault) is LoadSnapshot,
        op == VmOp::Pause <==> op_error(op, fault) is PauseVm,
        op == VmOp::Resume <==> op_error(op, fault) is ResumeVm,
        op == VmOp::Snapshot <==> op_error(op, fault) is CreateSnapshot,
        op == VmOp::Create ==> op_error(op, fault) == Error::CreateVm(fault),
        op == VmOp::Load ==> op_error(op, fault) == Error::LoadSnapshot(fault),
        op == VmOp::Pause ==> op_error(op, fault) == Error::PauseVm(fault),
        op == VmOp::Resume ==> op_error(op, fault) == Error::ResumeVm(fault),
        op == VmOp::Snapshot ==> op_error(op, fault) == Error::CreateSnapshot(fault),
{
}

/// A machine is reinstated if and only if it gets a network device, and on whichever it gets; it
/// does not run, and has the snapshot and the counters that survived. If it gets none, it is told
/// what went wrong and why.
pub proof fn law_what_reinstatement_needs(
    function_id: FunctionId,
    state: MicroVmState,
    reply: TapReply,
    shown_tap: String,
)
    ensures
        ({
            let r = reinstated(function_id, state, reply, shown_tap);
            &&& r is Ok <==> reply is Device
            &&& r is Ok ==> {
                &&& r->Ok_0.tap == reply->Device_0
                &&& r->Ok_0.process is None
                &&& r->Ok_0.snapshot == Some(state.snapshot)
                &&& r->Ok_0.stats == state.stats
                &&& r->Ok_0.function_id == function_id
            }
            &&& reply is BuildFailed ==> r->Err_0 == (Error::ReinstateSandbox {
                what: ReinstateFault::BuildOrAdopt(shown_tap),
                err: reply->BuildFailed_0,
            })
            &&& reply is AllocationFailed ==> r->Err_0 == (Error::ReinstateSandbox {
                what: ReinstateFault::Allocation(shown_tap),
                err: reply->AllocationFailed_0,
            })
            &&& reply is NoReply ==> r->Err_0 == (Error::ReinstateSandbox {
                what: ReinstateFault::Receive,
                err: reply->NoReply_0,
            })
            &&& reply is NotAsked ==> r->Err_0 == (Error::ReinstateSandbox {
                what: ReinstateFault::Request(shown_tap),
                err: reply->NotAsked_0,
            })
        }),
{
}

} // verus!
