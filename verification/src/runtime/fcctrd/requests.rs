//! What firecracker-containerd is asked for.

use vstd::prelude::*;

use crate::runtime::fcctrd::runtime::{FirecrackerContainerd, CLIENT_TIMEOUT_MS};
use crate::runtime::net::{Ipv4Addr, TapInfo};

verus! {

/// A new machine.
#[derive(Debug)]
pub struct VmSpec {
    pub id: String,
    pub memory_mib: u32,
    pub tap: TapInfo,
    pub nameservers: Vec<Ipv4Addr>,
    /// The machine goes down with its last task.
    pub exit_after_all_tasks_deleted: bool,
    pub container_count: u32,
    pub timeout_ms: u64,
}

/// A new container in a machine.
#[derive(Debug)]
pub struct ContainerSpec {
    pub image_ref: String,
    /// The name of the container's file system.
    pub snapshot_key: String,
    /// The command that runs in it.
    pub process_args: String,
    /// The machine that the container is in, whose name it has.
    pub id: String,
}

/// The first two of some name servers.
pub open spec fn first_two(nameservers: Seq<Ipv4Addr>) -> Seq<Ipv4Addr> {
    if nameservers.len() <= 2 {
        nameservers
    } else {
        nameservers.take(2)
    }
}

impl FirecrackerContainerd {
    /// The machine that is asked for: it goes by the name of its network device, holds one
    /// container, and goes down with it.
    pub fn vm_spec(&self, tap: &TapInfo) -> (r: VmSpec)
        ensures
            r.id == tap.name,
            r.memory_mib == (self.fi.memory / 0x10_0000) % 0x1_0000_0000,
            r.tap == *tap,
            r.nameservers@ == first_two(self.config.nameservers@),
            r.exit_after_all_tasks_deleted,
            r.container_count == 1,
            r.timeout_ms == CLIENT_TIMEOUT_MS,
    {
        VmSpec {
            id: tap.name.clone(),
            memory_mib: self.vm_memory_mib(),
            tap: tap.clone(),
            nameservers: self.config.vm_nameservers(),
            exit_after_all_tasks_deleted: true,
            container_count: 1,
            timeout_ms: CLIENT_TIMEOUT_MS,
        }
    }

    /// The container that is asked for, in the machine `vmid`, which was made for the runtime;
    /// the Function's description has to be complete.
    pub fn container_spec(&self, vmid: &String) -> (r: ContainerSpec)
        requires
            self.snapshot is Some,
            self.fi.process_args is Some,
        ensures
            r.image_ref == self.fi.image_ref,
            r.snapshot_key == self.snapshot->0,
            r.process_args == self.fi.process_args->0,
            r.id == *vmid,
    {
        ContainerSpec {
            image_ref: self.fi.image_ref.clone(),
            snapshot_key: self.snapshot.as_ref().unwrap().clone(),
            process_args: self.fi.process_args.as_ref().unwrap().clone(),
            id: vmid.clone(),
        }
    }
}

/// A machine is told of its name servers in their order, and of no more than two.
pub proof fn law_which_nameservers(nameservers: Seq<Ipv4Addr>, i: int)
    ensures
        first_two(nameservers).len() == (if nameservers.len() < 2 {
            nameservers.len()
        } else {
            2
        }),
        0 <= i < first_two(nameservers).len() ==> first_two(nameservers)[i] == nameservers[i],
{
}

} // verus!
