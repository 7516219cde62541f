//! The machines of firecracker-containerd, and what survives of them.

use vstd::prelude::*;
use vstd::std_specs::cmp::PartialEqSpecImpl;

use crate::metadata::{FunctionId, SandboxId, SandboxStats};
use crate::paths::is_same_path;
use crate::runtime::fcctrd::info::copied;
use crate::runtime::net::{Ipv4Addr, TapInfo};
use crate::runtime::{MonitorTarget, Sandbox, SnapshotState};

verus! {

/// What firecracker-containerd says of a machine.
#[derive(Debug)]
pub struct Vm {
    pub id: String,
    /// The machine's process, if it runs.
    pub pid: Option<u32>,
    /// The control group of that process; an empty path says nothing.
    pub cgroup_path: Option<String>,
    pub snapshot_state_file: Option<String>,
    pub snapshot_memory_file: Option<String>,
}

impl Vm {
    /// Both files of a snapshot are there.
    pub open spec fn snapshotted(self) -> bool {
        self.snapshot_state_file is Some && self.snapshot_memory_file is Some
    }

    pub fn has_snapshot(&self) -> (r: bool)
        ensures
            r == self.snapshotted(),
    {
        self.snapshot_state_file.is_some() && self.snapshot_memory_file.is_some()
    }
}

impl Clone for Vm {
    fn clone(&self) -> (r: Vm)
        ensures
            r == *self,
    {
        Vm {
            id: self.id.clone(),
            pid: self.pid,
            cgroup_path: copied(&self.cgroup_path),
            snapshot_state_file: copied(&self.snapshot_state_file),
            snapshot_memory_file: copied(&self.snapshot_memory_file),
        }
    }
}

/// A machine that serves a Function; it goes by the name of its network device.
#[derive(Debug)]
pub struct MicroVm {
    pub stats: SandboxStats,
    pub function_id: FunctionId,
    pub tap: TapInfo,
    pub vm: Vm,
}

impl Sandbox for MicroVm {
    open spec fn spec_id(&self) -> SandboxId {
        self.tap.name
    }

    open spec fn spec_function_id(&self) -> FunctionId {
        self.function_id
    }

    open spec fn spec_has_snapshot(&self) -> bool {
        self.vm.snapshotted()
    }

    open spec fn spec_stats(&self) -> SandboxStats {
        self.stats
    }

    open spec fn spec_with_stats(&self, stats: SandboxStats) -> MicroVm {
        MicroVm { stats, ..*self }
    }

    proof fn lemma_with_stats(s: MicroVm, stats: SandboxStats) {
    }

    fn id(&self) -> (r: &SandboxId) {
        &self.tap.name
    }

    fn function_id(&self) -> (r: FunctionId) {
        self.function_id.clone()
    }

    fn has_snapshot(&self) -> (r: bool) {
        self.vm.has_snapshot()
    }

    fn stats(&self) -> (r: SandboxStats) {
        self.stats
    }

    fn set_stats(&mut self, stats: SandboxStats) {
        self.stats = stats;
    }
}

impl MicroVm {
    /// firecracker-containerd and the host know the machine under one name.
    pub open spec fn wf(self) -> bool {
        self.vm.id@ == self.tap.name@
    }

    /// A machine that has not been used yet.
    pub fn new(function_id: &FunctionId, tap: TapInfo, vm: Vm) -> (r: MicroVm)
        ensures
            r == (MicroVm { stats: SandboxStats::zero(), function_id: *function_id, tap, vm }),
    {
        MicroVm { stats: SandboxStats::default(), function_id: function_id.clone(), tap, vm }
    }

    pub fn with_stats(function_id: &FunctionId, tap: TapInfo, vm: Vm, stats: SandboxStats) -> (r:
        MicroVm)
        ensures
            r == (MicroVm { stats, function_id: *function_id, tap, vm }),
    {
        MicroVm { stats, function_id: function_id.clone(), tap, vm }
    }

    pub fn ip_addr(&self) -> (r: Ipv4Addr)
        ensures
            r == self.tap.ip_addr,
    {
        self.tap.ip_addr
    }

    /// What a performance monitor can watch: the machine's process, and its control group if
    /// that has a path.
    pub fn monitor_targets(&self) -> (r: Vec<MonitorTarget>)
        ensures
            r@ == (match self.vm.pid {
                Some(pid) => seq![MonitorTarget::Pid(pid)],
                None => seq![],
            }) + (match self.vm.cgroup_path {
                Some(path) => if path@.len() > 0 {
                    seq![MonitorTarget::Cgroup(path)]
                } else {
                    seq![]
                },
                None => seq![],
            }),
    {
        let mut targets: Vec<MonitorTarget> = Vec::new();
        if let Some(pid) = self.vm.pid {
            targets.push(MonitorTarget::Pid(pid));
        }
        if let Some(path) = &self.vm.cgroup_path {
            if path.as_str().unicode_len() > 0 {
                targets.push(MonitorTarget::Cgroup(path.clone()));
            }
        }
        targets
    }

    /// What has to survive of the machine.
    pub fn snapshot_state(&self) -> (r: MicroVmState)
        ensures
            r == (MicroVmState { stats: self.stats, tap: self.tap, vm: self.vm }),
    {
        MicroVmState { stats: self.stats, tap: self.tap.clone(), vm: self.vm.clone() }
    }
}

/// What survives of a machine.
#[derive(Debug)]
pub struct MicroVmState {
    pub stats: SandboxStats,
    pub tap: TapInfo,
    pub vm: Vm,
}

/// Two optional paths are the same.
pub open spec fn same_file(a: Option<String>, b: Option<String>) -> bool {
    match (a, b) {
        (Some(a), Some(b)) => crate::paths::same_components(a@, b@),
        (None, None) => true,
        _ => false,
    }
}

fn is_same_file(a: &Option<String>, b: &Option<String>) -> (r: bool)
    ensures
        r == same_file(*a, *b),
{
    match (a, b) {
        (Some(a), Some(b)) => is_same_path(a.as_str(), b.as_str()),
        (None, None) => true,
        _ => false,
    }
}

/// The counters do not tell two machines apart, and neither does how a path is written.
impl PartialEq for MicroVmState {
    fn eq(&self, other: &MicroVmState) -> (r: bool) {
        self.tap.name == other.tap.name && self.tap.ip_addr == other.tap.ip_addr && self.tap.gateway
            == other.tap.gateway && self.tap.prefix_len == other.tap.prefix_len && self.vm.id
            == other.vm.id && self.vm.pid == other.vm.pid && is_same_file(
            &self.vm.cgroup_path,
            &other.vm.cgroup_path,
        ) && is_same_file(&self.vm.snapshot_state_file, &other.vm.snapshot_state_file)
            && is_same_file(&self.vm.snapshot_memory_file, &other.vm.snapshot_memory_file)
    }
}

impl PartialEqSpecImpl for MicroVmState {
    open spec fn obeys_eq_spec() -> bool {
        true
    }

    open spec fn eq_spec(&self, other: &MicroVmState) -> bool {
        self.tap.name@ == other.tap.name@ && self.tap.ip_addr == other.tap.ip_addr
            && self.tap.gateway == other.tap.gateway && self.tap.prefix_len == other.tap.prefix_len
            && self.vm.id@ == other.vm.id@ && self.vm.pid == other.vm.pid && same_file(
            self.vm.cgroup_path,
            other.vm.cgroup_path,
        ) && same_file(self.vm.snapshot_state_file, other.vm.snapshot_state_file) && same_file(
            self.vm.snapshot_memory_file,
            other.vm.snapshot_memory_file,
        )
    }
}

impl Eq for MicroVmState {

}

impl SnapshotState for MicroVmState {
    open spec fn spec_state_id(&self) -> Seq<char> {
        self.tap.name@
    }

    fn id(&self) -> (r: &str) {
        self.tap.name.as_str()
    }
}

/// A machine has a snapshot if and only if both of its files are there: one of them is none.
pub proof fn law_what_a_snapshot_takes(uvm: MicroVm)
    ensures
        uvm.spec_has_snapshot() ==> uvm.vm.snapshot_state_file is Some
            && uvm.vm.snapshot_memory_file is Some,
        uvm.vm.snapshot_state_file is None || uvm.vm.snapshot_memory_file is None
            ==> !uvm.spec_has_snapshot(),
        uvm.vm.snapshot_state_file is Some && uvm.vm.snapshot_memory_file is Some
            ==> uvm.spec_has_snapshot(),
{
}

/// What survives of two machines is told apart by anything but the counters.
pub proof fn law_counters_do_not_tell_machines_apart(
    a: MicroVmState,
    b: MicroVmState,
    stats: SandboxStats,
)
    ensures
        vstd::std_specs::cmp::PartialEqSpec::eq_spec(&a, &b)
            == vstd::std_specs::cmp::PartialEqSpec::eq_spec(&(MicroVmState { stats, ..a }), &b),
        vstd::std_specs::cmp::PartialEqSpec::eq_spec(&a, &b)
            == vstd::std_specs::cmp::PartialEqSpec::eq_spec(&a, &(MicroVmState { stats, ..b })),
        vstd::std_specs::cmp::PartialEqSpec::eq_spec(&a, &b) ==> a.tap.name@ == b.tap.name@ && a.tap.ip_addr == b.tap.ip_addr
            && a.tap.gateway == b.tap.gateway && a.tap.prefix_len == b.tap.prefix_len,
        vstd::std_specs::cmp::PartialEqSpec::eq_spec(&a, &b) ==> a.vm.id@ == b.vm.id@ && a.vm.pid == b.vm.pid,
        vstd::std_specs::cmp::PartialEqSpec::eq_spec(&a, &b) ==> a.vm.cgroup_path is Some == b.vm.cgroup_path is Some
            && a.vm.snapshot_state_file is Some == b.vm.snapshot_state_file is Some
            && a.vm.snapshot_memory_file is Some == b.vm.snapshot_memory_file is Some,
{
}

} // verus!
