//! The runtime: what it knows of its machine, and what it does to it.

use vstd::prelude::*;
use vstd::string::*;

use crate::metadata::FunctionId;
use crate::runtime::fc::error::ReinstateFault;
use crate::runtime::fc::runtime::TapReply;
use crate::runtime::fcctrd::config::FirecrackerContainerdConfig;
use crate::runtime::fcctrd::create::{Create, CreatePhase};
use crate::runtime::fcctrd::error::Error;
use crate::runtime::fcctrd::info::FcctrdFunctionInfo;
use crate::runtime::fcctrd::sandbox::{MicroVm, MicroVmState, Vm};
use crate::runtime::net::TapInfo;
use crate::runtime::DestroySandboxRuntimeError;
use crate::text::{concat, contains_text, same};

verus! {

/// How long a call to firecracker-containerd may take, in milliseconds.
pub const CLIENT_TIMEOUT_MS: u64 = 7500;

/// How often pausing a machine is tried again at most.
pub const MAX_PAUSE_RETRIES: u32 = 7;

/// The runtime of one machine at most.
#[derive(Debug)]
pub struct FirecrackerContainerd {
    pub config: FirecrackerContainerdConfig,
    pub fi: FcctrdFunctionInfo,
    /// The name of the file system of the machine's container, once there is a machine.
    pub snapshot: Option<String>,
}

/// The name of the file system of the container in machine `vmid`.
pub open spec fn snapshot_key(vmid: Seq<char>) -> Seq<char> {
    vmid + "-snap"@
}

/// What came of unloading a machine.
#[derive(Debug)]
pub enum Unload {
    Success,
    /// The shim answered with the message given.
    RpcStatus(String),
    Failed(String),
}

/// Whether a machine was unloaded, given what came of it.
pub open spec fn unloaded(outcome: Unload) -> Result<(), Error> {
    match outcome {
        Unload::Success => Ok(()),
        Unload::RpcStatus(message) => if message@ == "ttrpc: closed"@ {
            Ok(())
        } else {
            Err(Error::UnloadVm(message))
        },
        Unload::Failed(err) => Err(Error::UnloadVm(err)),
    }
}

/// The failure that pausing a machine is worth another try after.
pub open spec fn is_retryable(shown: Seq<char>) -> bool {
    crate::text::occurs(shown, "context deadline exceeded"@)
}

/// The tries to pause a machine.
#[derive(Debug)]
pub struct PauseRetries {
    /// How often it may be tried again.
    pub left: u32,
}

impl PauseRetries {
    pub fn new() -> (r: PauseRetries)
        ensures
            r.left == MAX_PAUSE_RETRIES,
    {
        PauseRetries { left: MAX_PAUSE_RETRIES }
    }

    /// Whether it is tried again after a failure, given how that is shown.
    pub fn retry(&mut self, shown: &str) -> (r: bool)
        ensures
            r == (old(self).left > 0 && is_retryable(shown@)),
            final(self).left == old(self).left - (if r {
                1int
            } else {
                0
            }),
    {
        if self.left > 0 && contains_text(shown, "context deadline exceeded") {
            self.left = self.left - 1;
            true
        } else {
            false
        }
    }
}

impl FirecrackerContainerd {
    /// A runtime for a Function, bound to the machine given, if there is one.
    pub fn new(
        config: FirecrackerContainerdConfig,
        fi: FcctrdFunctionInfo,
        sandbox: Option<&MicroVm>,
    ) -> (r: FirecrackerContainerd)
        ensures
            r.config == config,
            r.fi == fi,
            match sandbox {
                Some(uvm) => r.snapshot is Some && r.snapshot->0@ == snapshot_key(uvm.vm.id@),
                None => r.snapshot is None,
            },
    {
        let snapshot = match sandbox {
            Some(uvm) => Some(concat(uvm.vm.id.as_str(), "-snap")),
            None => None,
        };
        FirecrackerContainerd { config, fi, snapshot }
    }

    /// The memory of new machines, in mebibytes; the number is cut to 32 bits.
    pub fn vm_memory_mib(&self) -> (r: u32)
        ensures
            r == (self.fi.memory / crate::runtime::registration::MEBIBYTE) % 0x1_0000_0000,
    {
        crate::runtime::registration::to_mebibytes(self.fi.memory)
    }

    /// A machine was made for the runtime, which had none.
    pub fn vm_created(&mut self, vmid: &str)
        requires
            old(self).snapshot is None,
        ensures
            final(self).config == old(self).config,
            final(self).fi == old(self).fi,
            final(self).snapshot is Some,
            final(self).snapshot->0@ == snapshot_key(vmid@),
    {
        self.snapshot = Some(concat(vmid, "-snap"));
    }

    /// The new machine, once making it is over. It was made under the name of its network
    /// device, and the runtime is bound to it.
    pub fn create_sandbox(&self, create: Create, function_id: &FunctionId, tap: TapInfo, vm: Vm) -> (r:
        Result<MicroVm, Error>)
        requires
            create.phase is Over,
            create.phase->Over_0 is Ok ==> vm.id@ == tap.name@ && self.snapshot is Some
                && self.snapshot->0@ == snapshot_key(tap.name@),
        ensures
            r is Ok ==> r->Ok_0.wf(),
            r == (match create.phase->Over_0 {
                Ok(_) => Ok(
                    MicroVm {
                        stats: crate::metadata::SandboxStats::zero(),
                        function_id: *function_id,
                        tap,
                        vm,
                    },
                ),
                Err(err) => Err(err),
            }),
    {
        match create.phase {
            CreatePhase::Over(Err(err)) => Err(err),
            _ => Ok(MicroVm::new(function_id, tap, vm)),
        }
    }

    /// What came of loading a machine from its snapshot.
    pub fn load_sandbox(&self, outcome: Result<(), String>) -> (r: Result<(), Error>)
        ensures
            r == (match outcome {
                Ok(_) => Ok(()),
                Err(err) => Err(Error::LoadVmSnapshot(err)),
            }),
    {
        match outcome {
            Ok(_) => Ok(()),
            Err(err) => Err(Error::LoadVmSnapshot(err)),
        }
    }

    /// What came of pausing a machine.
    pub fn pause_sandbox(&self, outcome: Result<(), String>) -> (r: Result<(), Error>)
        ensures
            r == (match outcome {
                Ok(_) => Ok(()),
                Err(err) => Err(Error::PauseVm(err)),
            }),
    {
        match outcome {
            Ok(_) => Ok(()),
            Err(err) => Err(Error::PauseVm(err)),
        }
    }

    /// What came of resuming a machine.
    pub fn resume_sandbox(&self, outcome: Result<(), String>) -> (r: Result<(), Error>)
        ensures
            r == (match outcome {
                Ok(_) => Ok(()),
                Err(err) => Err(Error::ResumeVm(err)),
            }),
    {
        match outcome {
            Ok(_) => Ok(()),
            Err(err) => Err(Error::ResumeVm(err)),
        }
    }

    /// What came of writing a machine's snapshot to the paths given.
    pub fn create_snapshot(
        &self,
        uvm: &mut MicroVm,
        state_file_path: String,
        memory_file_path: String,
        outcome: Result<(), String>,
    ) -> (r: Result<(), Error>)
        ensures
            match outcome {
                Ok(_) => r is Ok && *final(uvm) == (MicroVm {
                    vm: Vm {
                        snapshot_state_file: Some(state_file_path),
                        snapshot_memory_file: Some(memory_file_path),
                        ..old(uvm).vm
                    },
                    ..*old(uvm)
                }),
                Err(err) => r == Err::<(), _>(Error::CreateVmSnapshot(err)) && *final(uvm)
                    == *old(uvm),
            },
    {
        match outcome {
            Ok(_) => {
                uvm.vm.snapshot_state_file = Some(state_file_path);
                uvm.vm.snapshot_memory_file = Some(memory_file_path);
                Ok(())
            },
            Err(err) => Err(Error::CreateVmSnapshot(err)),
        }
    }

    /// Takes what came of unloading a machine. A shim that says that its connection is closed
    /// has unloaded the machine too.
    pub fn shutdown_sandbox(&self, uvm: &mut MicroVm, outcome: Unload) -> (r: Result<(), Error>)
        ensures
            ({
                let down = MicroVm { vm: Vm { pid: None, ..old(uvm).vm }, ..*old(uvm) };
                match outcome {
                    Unload::Success => r is Ok && *final(uvm) == down,
                    Unload::RpcStatus(message) => if message@ == "ttrpc: closed"@ {
                        r is Ok && *final(uvm) == down
                    } else {
                        r == Err::<(), _>(Error::UnloadVm(message)) && *final(uvm) == *old(uvm)
                    },
                    Unload::Failed(err) => r == Err::<(), _>(Error::UnloadVm(err)) && *final(uvm)
                        == *old(uvm),
                }
            }),
            r == unloaded(outcome),
    {
        match outcome {
            Unload::Success => {
                uvm.vm.pid = None;
                Ok(())
            },
            Unload::RpcStatus(message) => if same(message.as_str(), "ttrpc: closed") {
                uvm.vm.pid = None;
                Ok(())
            } else {
                Err(Error::UnloadVm(message))
            },
            Unload::Failed(err) => Err(Error::UnloadVm(err)),
        }
    }

    /// What comes back of a machine that was to be destroyed. If it was, its network device is
    /// free again; if it was not, or could not be shut down before, the machine itself comes
    /// back, and keeps its device.
    pub fn destroy_sandbox(uvm: MicroVm, outcome: Result<(), Error>) -> (r: Result<
        TapInfo,
        DestroySandboxRuntimeError<MicroVm>,
    >)
        ensures
            match outcome {
                Ok(_) => r == Ok::<_, DestroySandboxRuntimeError<MicroVm>>(uvm.tap),
                Err(err) => r is Err && r->Err_0.sandbox == uvm && r->Err_0.err@ == err.text(),
            },
    {
        match outcome {
            Ok(_) => Ok(uvm.tap),
            Err(err) => Err(DestroySandboxRuntimeError { sandbox: uvm, err: err.message() }),
        }
    }

    /// The files of a machine that need not be in the page cache: those of its snapshot that
    /// are there.
    pub fn uncache_sandbox(&self, uvm: &MicroVm) -> (r: Vec<String>)
        ensures
            crate::text::texts(r@) == (match uvm.vm.snapshot_state_file {
                Some(path) => seq![path@],
                None => seq![],
            }) + (match uvm.vm.snapshot_memory_file {
                Some(path) => seq![path@],
                None => seq![],
            }),
    {
        let mut paths: Vec<String> = Vec::new();
        if let Some(path) = &uvm.vm.snapshot_state_file {
            paths.push(path.clone());
        }
        if let Some(path) = &uvm.vm.snapshot_memory_file {
            paths.push(path.clone());
        }
        paths
    }

    /// The process that a machine's processor has to be set for, if it is known.
    pub fn setup_cpuset(&self, uvm: &MicroVm) -> (r: Option<u32>)
        ensures
            r == uvm.vm.pid,
    {
        uvm.vm.pid
    }

    /// A machine from what survived of it, given what came of asking for its network device;
    /// `shown_tap` is how that device is shown.
    pub fn reinstate_sandbox(
        function_id: &FunctionId,
        state: MicroVmState,
        reply: TapReply,
        shown_tap: String,
    ) -> (r: Result<MicroVm, Error>)
        ensures
            r == reinstated(*function_id, state, reply, shown_tap),
    {
        match reply {
            TapReply::Device(tap) => Ok(
                MicroVm::with_stats(function_id, tap, state.vm, state.stats),
            ),
            TapReply::BuildFailed(err) => Err(
                Error::ReinstateSandbox { what: ReinstateFault::BuildOrAdopt(shown_tap), err },
            ),
            TapReply::AllocationFailed(err) => Err(
                Error::ReinstateSandbox { what: ReinstateFault::Allocation(shown_tap), err },
            ),
            TapReply::NoReply(err) => Err(
                Error::ReinstateSandbox { what: ReinstateFault::Receive, err },
            ),
            TapReply::NotAsked(err) => Err(
                Error::ReinstateSandbox { what: ReinstateFault::Request(shown_tap), err },
            ),
        }
    }
}

/// A machine from what survived of it.
pub open spec fn reinstated(
    function_id: FunctionId,
    state: MicroVmState,
    reply: TapReply,
    shown_tap: String,
) -> Result<MicroVm, Error> {
    match reply {
        TapReply::Device(tap) => Ok(
            MicroVm { stats: state.stats, function_id, tap, vm: state.vm },
        ),
        TapReply::BuildFailed(err) => Err(
            Error::ReinstateSandbox { what: ReinstateFault::BuildOrAdopt(shown_tap), err },
        ),
        TapReply::AllocationFailed(err) => Err(
            Error::ReinstateSandbox { what: ReinstateFault::Allocation(shown_tap), err },
        ),
        TapReply::NoReply(err) => Err(
            Error::ReinstateSandbox { what: ReinstateFault::Receive, err },
        ),
        TapReply::NotAsked(err) => Err(
            Error::ReinstateSandbox { what: ReinstateFault::Request(shown_tap), err },
        ),
    }
}

/// A machine that is written down and reinstated on its own network device is the machine
/// that it was.
pub proof fn law_reinstatement_restores(uvm: MicroVm, state: MicroVmState, shown_tap: String)
    requires
        state == (MicroVmState { stats: uvm.stats, tap: uvm.tap, vm: uvm.vm }),
    ensures
        reinstated(uvm.function_id, state, TapReply::Device(state.tap), shown_tap) == Ok::<
            _,
            Error,
        >(uvm),
{
}

/// A machine is reinstated if and only if it gets a network device, and on whichever it gets, with
/// all else that survived of it. If it gets none, it is told what went wrong and why.
pub proof fn law_what_reinstatement_needs(
    function_id: FunctionId,
    state: MicroVmState,
    reply: TapReply,
    shown_tap: String,
)
    ensures
        ({
            let r = reinstated(function_id, state, reply, shown_tap);
            &&& r is Ok <==> reply is Device
            &&& r is Ok ==> {
                &&& r->Ok_0.tap == reply->Device_0
                &&& r->Ok_0.vm == state.vm
                &&& r->Ok_0.stats == state.stats
                &&& r->Ok_0.function_id == function_id
            }
            &&& reply is BuildFailed ==> r->Err_0 == (Error::ReinstateSandbox {
                what: ReinstateFault::BuildOrAdopt(shown_tap),
                err: reply->BuildFailed_0,
            })
            &&& reply is AllocationFailed ==> r->Err_0 == (Error::ReinstateSandbox {
                what: ReinstateFault::Allocation(shown_tap),
                err: reply->AllocationFailed_0,
            })
            &&& reply is NoReply ==> r->Err_0 == (Error::ReinstateSandbox {
                what: ReinstateFault::Receive,
                err: reply->NoReply_0,
            })
            &&& reply is NotAsked ==> r->Err_0 == (Error::ReinstateSandbox {
                what: ReinstateFault::Request(shown_tap),
                err: reply->NotAsked_0,
            })
        }),
{
}

/// Pausing is worth another try wherever it is said that a deadline was exceeded, whatever is said
/// around that, and not if nothing as long as that is said.
pub proof fn law_when_pausing_is_tried_again(before: Seq<char>, after: Seq<char>, shown: Seq<char>)
    ensures
        is_retryable(before + "context deadline exceeded"@ + after),
        is_retryable(shown) ==> is_retryable(before + shown + after),
        shown.len() < 25 ==> !is_retryable(shown),
{
    reveal_strlit("context deadline exceeded");
    let pat = "context deadline exceeded"@;
    assert(pat.len() == 25);
    let s = before + pat + after;
    assert(s.subrange(before.len() as int, (before.len() + pat.len()) as int) =~= pat);
    assert(crate::text::occurs_at(s, pat, before.len() as int));
    if is_retryable(shown) {
        let i = choose|i: int| crate::text::occurs_at(shown, pat, i);
        let t = before + shown + after;
        let at = before.len() + i;
        assert(t.subrange(at, at + pat.len()) =~= shown.subrange(i, i + pat.len()));
        assert(crate::text::occurs_at(t, pat, at));
    }
}

/// Containers of different machines have file systems of different names, which tell the machine.
pub proof fn law_names_of_file_systems(a: Seq<char>, b: Seq<char>)
    ensures
        snapshot_key(a) == snapshot_key(b) ==> a == b,
        snapshot_key(a).len() == a.len() + 5,
        snapshot_key(a).take(a.len() as int) == a,
        snapshot_key(a).skip(a.len() as int) == "-snap"@,
{
    reveal_strlit("-snap");
    assert(snapshot_key(a).take(a.len() as int) =~= a);
    assert(snapshot_key(b).take(b.len() as int) =~= b);
    assert(snapshot_key(a).skip(a.len() as int) =~= "-snap"@);
}

/// A machine is unloaded exactly if that succeeded, or if the shim says that its connection is
/// closed, and nothing else; it is told what it says otherwise.
pub proof fn law_what_unloads_a_machine(outcome: Unload)
    ensures
        unloaded(outcome) is Ok <==> outcome == Unload::Success || (outcome is RpcStatus
            && outcome->RpcStatus_0@ == "ttrpc: closed"@),
        unloaded(outcome) is Err && outcome is RpcStatus ==> unloaded(outcome)->Err_0
            == Error::UnloadVm(outcome->RpcStatus_0),
        outcome is Failed ==> unloaded(outcome)->Err_0 == Error::UnloadVm(outcome->Failed_0),
{
}

} // verus!
