//! How firecracker-containerd is reached.

use vstd::prelude::*;

use crate::runtime::net::Ipv4Addr;

verus! {

pub const DEFAULT_ADDRESS: &'static str = "/var/run/firecracker-containerd/containerd.sock";

pub const DEFAULT_TTRPC_ADDRESS: &'static str =
    "/var/run/firecracker-containerd/containerd.sock.ttrpc";

pub const DEFAULT_NAMESPACE: &'static str = "default";

pub const DEFAULT_SNAPSHOTTER: &'static str = "devmapper";

/// The image tool, to be found by the shell's search path.
pub const DEFAULT_CTR: &'static str = "firecracker-ctr";

/// How firecracker-containerd is reached.
#[derive(Debug)]
pub struct FirecrackerContainerdConfig {
    pub address: String,
    pub ttrpc_address: String,
    pub namespace: String,
    pub snapshotter: String,
    /// The name servers of the machines; only the first two count.
    pub nameservers: Vec<Ipv4Addr>,
    /// The image tool.
    pub ctr: String,
}

/// The name servers of machines that nothing else is said of.
pub open spec fn default_nameservers() -> Seq<Ipv4Addr> {
    seq![Ipv4Addr { a: 1, b: 1, c: 1, d: 1 }, Ipv4Addr { a: 1, b: 0, c: 0, d: 1 }]
}

impl Default for FirecrackerContainerdConfig {
    fn default() -> (r: FirecrackerContainerdConfig)
        ensures
            r.address@ == DEFAULT_ADDRESS@,
            r.ttrpc_address@ == DEFAULT_TTRPC_ADDRESS@,
            r.namespace@ == DEFAULT_NAMESPACE@,
            r.snapshotter@ == DEFAULT_SNAPSHOTTER@,
            r.nameservers@ == default_nameservers(),
            r.ctr@ == DEFAULT_CTR@,
    {
        let mut nameservers: Vec<Ipv4Addr> = Vec::new();
        nameservers.push(Ipv4Addr { a: 1, b: 1, c: 1, d: 1 });
        nameservers.push(Ipv4Addr { a: 1, b: 0, c: 0, d: 1 });
        FirecrackerContainerdConfig {
            address: DEFAULT_ADDRESS.to_owned(),
            ttrpc_address: DEFAULT_TTRPC_ADDRESS.to_owned(),
            namespace: DEFAULT_NAMESPACE.to_owned(),
            snapshotter: DEFAULT_SNAPSHOTTER.to_owned(),
            nameservers,
            ctr: DEFAULT_CTR.to_owned(),
        }
    }
}

impl FirecrackerContainerdConfig {
    /// The name servers that a machine gets: the first two.
    pub fn vm_nameservers(&self) -> (r: Vec<Ipv4Addr>)
        ensures
            r@ == self.nameservers@.take(
                if self.nameservers@.len() < 2 {
                    self.nameservers@.len() as int
                } else {
                    2
                },
            ),
    {
        let mut r: Vec<Ipv4Addr> = Vec::new();
        if self.nameservers.len() > 0 {
            r.push(self.nameservers[0]);
        }
        if self.nameservers.len() > 1 {
            r.push(self.nameservers[1]);
        }
        r
    }
}

} // verus!
