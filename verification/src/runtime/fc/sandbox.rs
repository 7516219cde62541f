//! Micro virtual machines, and what survives of them in a snapshot.

use vstd::prelude::*;
use vstd::std_specs::cmp::PartialEqSpecImpl;

use crate::metadata::{FunctionId, SandboxId, SandboxStats};
use crate::paths::is_same_path;
use crate::runtime::fc::error::{Error, SnapshotUse};
use crate::runtime::net::{Ipv4Addr, TapInfo};
use crate::runtime::{MonitorTarget, Sandbox, SnapshotState};

verus! {

/// The files of a snapshot.
#[derive(Debug)]
pub struct SnapshotFiles {
    state: String,
    memory: String,
}

impl SnapshotFiles {
    /// The path of the state file.
    pub closed spec fn spec_state(&self) -> Seq<char> {
        self.state@
    }

    /// The path of the memory file.
    pub closed spec fn spec_memory(&self) -> Seq<char> {
        self.memory@
    }

    pub fn new(state: String, memory: String) -> (r: SnapshotFiles)
        ensures
            r.spec_state() == state@,
            r.spec_memory() == memory@,
    {
        SnapshotFiles { state, memory }
    }

    pub fn state(&self) -> (r: &str)
        ensures
            r@ == self.spec_state(),
    {
        self.state.as_str()
    }

    pub fn memory(&self) -> (r: &str)
        ensures
            r@ == self.spec_memory(),
    {
        self.memory.as_str()
    }

    /// The files at the paths that are given, and at their own where none is.
    pub closed spec fn spec_rewritten(
        self,
        new_state: Option<String>,
        new_memory: Option<String>,
    ) -> SnapshotFiles {
        SnapshotFiles {
            state: match new_state {
                Some(path) => path,
                None => self.state,
            },
            memory: match new_memory {
                Some(path) => path,
                None => self.memory,
            },
        }
    }

    /// The files at the paths that are given, and at their own where none is.
    pub fn rewritten(&self, new_state: Option<String>, new_memory: Option<String>) -> (r:
        SnapshotFiles)
        ensures
            r == self.spec_rewritten(new_state, new_memory),
            r.spec_state() == (match new_state {
                Some(path) => path@,
                None => self.spec_state(),
            }),
            r.spec_memory() == (match new_memory {
                Some(path) => path@,
                None => self.spec_memory(),
            }),
    {
        SnapshotFiles {
            state: match new_state {
                Some(path) => path,
                None => self.state.clone(),
            },
            memory: match new_memory {
                Some(path) => path,
                None => self.memory.clone(),
            },
        }
    }
}

impl Clone for SnapshotFiles {
    fn clone(&self) -> (r: SnapshotFiles)
        ensures
            r == *self,
    {
        SnapshotFiles { state: self.state.clone(), memory: self.memory.clone() }
    }
}

/// A running machine monitor.
#[derive(Clone, Copy, Debug, PartialEq, Eq, Structural)]
pub struct FcProcessState {
    /// The process, until it is known to have exited.
    pub pid: Option<u32>,
}

impl FcProcessState {
    pub fn pid(&self) -> (r: Option<u32>)
        ensures
            r == self.pid,
    {
        self.pid
    }
}

/// A micro virtual machine; it goes by the name of its network device.
#[derive(Debug)]
pub struct MicroVm {
    pub stats: SandboxStats,
    pub function_id: FunctionId,
    pub tap: TapInfo,
    /// Its monitor, while it runs.
    pub process: Option<FcProcessState>,
    /// Its snapshot, if it has one.
    pub snapshot: Option<SnapshotFiles>,
}

impl Sandbox for MicroVm {
    open spec fn spec_id(&self) -> SandboxId {
        self.tap.name
    }

    open spec fn spec_function_id(&self) -> FunctionId {
        self.function_id
    }

    open spec fn spec_has_snapshot(&self) -> bool {
        self.snapshot is Some
    }

    open spec fn spec_stats(&self) -> SandboxStats {
        self.stats
    }

    open spec fn spec_with_stats(&self, stats: SandboxStats) -> MicroVm {
        MicroVm { stats, ..*self }
    }

    proof fn lemma_with_stats(s: MicroVm, stats: SandboxStats) {
    }

    fn id(&self) -> (r: &SandboxId) {
        &self.tap.name
    }

    fn function_id(&self) -> (r: FunctionId) {
        self.function_id.clone()
    }

    fn has_snapshot(&self) -> (r: bool) {
        self.snapshot.is_some()
    }

    fn stats(&self) -> (r: SandboxStats) {
        self.stats
    }

    fn set_stats(&mut self, stats: SandboxStats) {
        self.stats = stats;
    }
}

impl MicroVm {
    pub fn ip_addr(&self) -> (r: Ipv4Addr)
        ensures
            r == self.tap.ip_addr,
    {
        self.tap.ip_addr
    }

    /// What a performance monitor can watch: the monitor's process, if it is known.
    pub fn monitor_targets(&self) -> (r: Vec<MonitorTarget>)
        ensures
            r@ == (match self.process {
                Some(FcProcessState { pid: Some(pid) }) => seq![MonitorTarget::Pid(pid)],
                _ => Seq::<MonitorTarget>::empty(),
            }),
    {
        let mut targets: Vec<MonitorTarget> = Vec::new();
        if let Some(process) = &self.process {
            if let Some(pid) = process.pid() {
                targets.push(MonitorTarget::Pid(pid));
            }
        }
        targets
    }

    /// What has to survive of the machine; there is nothing without a snapshot.
    pub fn snapshot_state(&self) -> (r: Result<MicroVmState, Error>)
        ensures
            r == (match self.snapshot {
                Some(snapshot) => Ok(
                    MicroVmState { stats: self.stats, tap: self.tap, snapshot },
                ),
                None => Err(Error::NoSnapshot(SnapshotUse::State)),
            }),
    {
        match &self.snapshot {
            Some(snapshot) => Ok(
                MicroVmState {
                    stats: self.stats,
                    tap: self.tap.clone(),
                    snapshot: snapshot.clone(),
                },
            ),
            None => Err(Error::NoSnapshot(SnapshotUse::State)),
        }
    }
}

/// What survives of a machine.
#[derive(Debug)]
pub struct MicroVmState {
    pub stats: SandboxStats,
    pub tap: TapInfo,
    pub snapshot: SnapshotFiles,
}

/// The counters do not tell two machines apart, and neither does how a path is written.
impl PartialEq for MicroVmState {
    fn eq(&self, other: &MicroVmState) -> (r: bool) {
        self.tap.name == other.tap.name && self.tap.ip_addr == other.tap.ip_addr && self.tap.gateway
            == other.tap.gateway && self.tap.prefix_len == other.tap.prefix_len
            && is_same_path(self.snapshot.state(), other.snapshot.state()) && is_same_path(
            self.snapshot.memory(),
            other.snapshot.memory(),
        )
    }
}

impl PartialEqSpecImpl for MicroVmState {
    open spec fn obeys_eq_spec() -> bool {
        true
    }

    open spec fn eq_spec(&self, other: &MicroVmState) -> bool {
        self.tap.name@ == other.tap.name@ && self.tap.ip_addr == other.tap.ip_addr
            && self.tap.gateway == other.tap.gateway && self.tap.prefix_len == other.tap.prefix_len
            && crate::paths::same_components(
            self.snapshot.spec_state(),
            other.snapshot.spec_state(),
        ) && crate::paths::same_components(
            self.snapshot.spec_memory(),
            other.snapshot.spec_memory(),
        )
    }
}

impl Eq for MicroVmState {

}

impl SnapshotState for MicroVmState {
    open spec fn spec_state_id(&self) -> Seq<char> {
        self.tap.name@
    }

    fn id(&self) -> (r: &str) {
        self.tap.name.as_str()
    }
}

/// What survives of a machine goes by the machine's name.
pub proof fn law_state_keeps_id(uvm: MicroVm, state: MicroVmState)
    requires
        uvm.snapshot is Some,
        state == (MicroVmState { stats: uvm.stats, tap: uvm.tap, snapshot: uvm.snapshot->0 }),
    ensures
        state.spec_state_id() == uvm.spec_id()@,
{
}

/// A machine has a snapshot if and only if its files are known.
pub proof fn law_what_a_snapshot_takes(uvm: MicroVm)
    ensures
        uvm.spec_has_snapshot() <==> uvm.snapshot is Some,
{
}

/// What survives of two machines is told apart by anything but the counters.
pub proof fn law_counters_do_not_tell_machines_apart(
    a: MicroVmState,
    b: MicroVmState,
    stats: SandboxStats,
)
    ensures
        vstd::std_specs::cmp::PartialEqSpec::eq_spec(&a, &b)
            == vstd::std_specs::cmp::PartialEqSpec::eq_spec(&(MicroVmState { stats, ..a }), &b),
        vstd::std_specs::cmp::PartialEqSpec::eq_spec(&a, &b)
            == vstd::std_specs::cmp::PartialEqSpec::eq_spec(&a, &(MicroVmState { stats, ..b })),
        vstd::std_specs::cmp::PartialEqSpec::eq_spec(&a, &b) ==> a.tap.name@ == b.tap.name@ && a.tap.ip_addr == b.tap.ip_addr
            && a.tap.gateway == b.tap.gateway && a.tap.prefix_len == b.tap.prefix_len,
{
}

} // verus!
