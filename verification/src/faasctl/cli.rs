//! What the client is told on its command line.

use vstd::prelude::*;
use vstd::string::*;

use crate::faasctl::funcreg::FunctionsCmd;
use crate::faasctl::sandbox::SandboxesCmd;
use crate::faasctl::snapshots::SnapshotsCmd;
use crate::text::{concat, concat3, same};

verus! {

/// The runtime that the orchestrator uses.
#[derive(Clone, Copy, Debug, PartialEq, Eq, Structural)]
pub enum Runtime {
    FirecrackerContainerd,
    Firecracker,
}

/// There is no runtime of that name.
#[derive(Debug)]
pub struct UnknownRuntime(pub String);

impl UnknownRuntime {
    pub fn message(&self) -> (r: String)
        ensures
            r@ == "unknown faascell runtime '"@ + (self.0)@ + "'"@,
    {
        concat3("unknown faascell runtime '", self.0.as_str(), "'")
    }
}

impl Runtime {
    /// The runtime that goes by a name.
    pub open spec fn named(s: Seq<char>) -> Option<Runtime> {
        if s == "fcctrd"@ || s == "firecracker-containerd"@ {
            Some(Runtime::FirecrackerContainerd)
        } else if s == "fc"@ {
            Some(Runtime::Firecracker)
        } else {
            None
        }
    }

    /// The runtime that goes by a name.
    pub fn from_str(s: &str) -> (r: Result<Runtime, UnknownRuntime>)
        ensures
            match r {
                Ok(runtime) => Runtime::named(s@) == Some(runtime),
                Err(err) => Runtime::named(s@) is None && (err.0)@ == s@,
            },
    {
        if same(s, "fcctrd") || same(s, "firecracker-containerd") {
            Ok(Runtime::FirecrackerContainerd)
        } else if same(s, "fc") {
            Ok(Runtime::Firecracker)
        } else {
            Err(UnknownRuntime(s.to_owned()))
        }
    }
}

impl Default for Runtime {
    fn default() -> (r: Runtime)
        ensures
            r == Runtime::FirecrackerContainerd,
    {
        Runtime::FirecrackerContainerd
    }
}

/// A command of the client.
#[derive(Debug)]
pub enum SubCmd {
    Functions(FunctionsCmd),
    Snapshots(SnapshotsCmd),
    Sandboxes(SandboxesCmd),
}

/// What the client is told on its command line.
#[derive(Debug)]
pub struct Cli {
    pub runtime: Runtime,
    pub cmd: SubCmd,
}

/// Where the orchestrator is reached.
#[derive(Debug)]
pub enum Address {
    /// A host and a port.
    Net(String),
    /// The path of a socket.
    Uds(String),
}

/// A path that starts at the root.
pub open spec fn is_absolute(path: Seq<char>) -> bool {
    path.len() > 0 && path[0] == '/'
}

impl Address {
    /// The address, as a client connects to it.
    pub open spec fn endpoint_text(self) -> Seq<char> {
        match self {
            Address::Net(addr) => "http://"@ + addr@,
            Address::Uds(path) => if is_absolute(path@) {
                "unix:"@ + "//"@ + path@
            } else {
                "unix:"@ + path@
            },
        }
    }

    /// The address, as a client connects to it.
    pub fn endpoint(&self) -> (r: String)
        ensures
            r@ == self.endpoint_text(),
    {
        match self {
            Address::Net(addr) => concat("http://", addr.as_str()),
            Address::Uds(path) => {
                let p = path.as_str();
                if p.unicode_len() > 0 && p.get_char(0) == '/' {
                    concat3("unix:", "//", p)
                } else {
                    concat("unix:", p)
                }
            },
        }
    }
}

/// The runtimes go by three names, one of them by two, and by no others.
pub proof fn law_names_of_runtimes(s: Seq<char>)
    ensures
        Runtime::named("fc"@) == Some(Runtime::Firecracker),
        Runtime::named("fcctrd"@) == Some(Runtime::FirecrackerContainerd),
        Runtime::named("firecracker-containerd"@) == Some(Runtime::FirecrackerContainerd),
        Runtime::named(s) is Some ==> s == "fc"@ || s == "fcctrd"@ || s
            == "firecracker-containerd"@,
{
    reveal_strlit("fc");
    reveal_strlit("fcctrd");
    reveal_strlit("firecracker-containerd");
    assert("fc"@.len() == 2 && "fcctrd"@.len() == 6 && "firecracker-containerd"@.len() == 22);
}

/// An address is told in whole at the end of its endpoint. Sockets are told from hosts by what is
/// before it, and a path from the root by two slashes more.
pub proof fn law_endpoints(addr: Address)
    ensures
        addr is Net ==> addr.endpoint_text() == "http://"@ + addr->Net_0@,
        addr is Uds ==> {
            let (path, endpoint) = (addr->Uds_0@, addr.endpoint_text());
            &&& endpoint.len() >= 5 + path.len()
            &&& endpoint.take(5) == "unix:"@
            &&& endpoint.skip(endpoint.len() - path.len()) == path
            &&& path.len() > 0 && path[0] == '/' ==> endpoint.subrange(5, 7) == "//"@
                && endpoint.len() == 7 + path.len()
            &&& path.len() == 0 || path[0] != '/' ==> endpoint.len() == 5 + path.len()
        },
{
    reveal_strlit("unix:");
    reveal_strlit("//");
    if addr is Uds {
        let (path, endpoint) = (addr->Uds_0@, addr.endpoint_text());
        assert(endpoint.take(5) =~= "unix:"@);
        assert(endpoint.skip(endpoint.len() - path.len()) =~= path);
        if path.len() > 0 && path[0] == '/' {
            assert(endpoint.subrange(5, 7) =~= "//"@);
        }
    }
}

} // verus!
