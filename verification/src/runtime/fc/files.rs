//! The files of a micro virtual machine on the host.

use vstd::prelude::*;
use vstd::string::*;

use crate::paths::join_paths;
use crate::text::concat3;

verus! {

/// A file in a machine's directory.
#[derive(Clone, Copy, Debug, PartialEq, Eq, Structural)]
pub enum Node {
    /// The socket of the machine monitor's API.
    ApiSock,
    /// The named pipe of its log.
    LogFifo,
    /// The named pipe of its metrics.
    MetricsFifo,
    /// The socket of the machine's vsock device.
    VsockUds,
    /// The machine's configuration.
    Config,
}

impl Node {
    /// The name of the file.
    pub open spec fn name(self) -> Seq<char> {
        match self {
            Node::ApiSock => "api.sock"@,
            Node::LogFifo => "log.fifo"@,
            Node::MetricsFifo => "mtr.fifo"@,
            Node::VsockUds => "v.sock"@,
            Node::Config => "uvm.json"@,
        }
    }

    /// The name of the file.
    pub fn basename(&self) -> (r: &'static str)
        ensures
            r@ == self.name(),
    {
        match self {
            Node::ApiSock => "api.sock",
            Node::LogFifo => "log.fifo",
            Node::MetricsFifo => "mtr.fifo",
            Node::VsockUds => "v.sock",
            Node::Config => "uvm.json",
        }
    }

    /// The path of the file in the directory `dir`.
    pub fn path_in(&self, dir: &str) -> (r: String)
        ensures
            r@ == crate::paths::joined(dir@, self.name()),
    {
        join_paths(dir, self.basename())
    }
}

/// What the directory is prepared for.
#[derive(Clone, Copy, Debug, PartialEq, Eq, Structural)]
pub enum EnsureFilesMode {
    /// A new machine, from a configuration that is yet to be written.
    Creation,
    /// A machine that is loaded from its snapshot, without a configuration.
    Loading,
}

/// A call to the operating system.
#[derive(Clone, Copy, Debug, PartialEq, Eq, Structural)]
pub enum FileCall {
    /// Make the directory.
    Mkdir,
    /// Open the directory.
    Open,
    /// Make a named pipe in it.
    MkFifo(Node),
    /// Look at a file in it.
    Stat(Node),
    /// Remove a file from it.
    Unlink(Node),
}

/// What came of a call.
#[derive(Debug)]
pub enum FileReply {
    /// It succeeded.
    Done,
    /// It succeeded: whether the file is a named pipe.
    IsFifo(bool),
    /// There is such a file already.
    Exists(String),
    /// There is no such file.
    NotFound(String),
    /// It failed otherwise.
    Failed(String),
}

/// A call failed.
#[derive(Debug)]
pub struct FileError {
    pub call: FileCall,
    pub err: String,
}

/// How far the preparation of a directory has come.
#[derive(Debug)]
pub enum FilesPhase {
    Mkdir,
    Open { existed: bool },
    /// Making one of the two named pipes.
    MakeFifo { node: Node, existed: bool },
    /// There is a file of that name: is it a named pipe?
    CheckFifo { node: Node, existed: bool },
    /// It is not, so it has to go.
    ReplaceFifo { node: Node, existed: bool },
    RemakeFifo { node: Node, existed: bool },
    /// Removing what an earlier machine may have left.
    Remove { node: Node },
    Finished,
    Failed(FileError),
}

/// The preparation of a machine's directory.
#[derive(Debug)]
pub struct EnsureFiles {
    pub mode: EnsureFilesMode,
    pub phase: FilesPhase,
}

/// The preparation goes on after a named pipe is there.
pub open spec fn after_fifo(node: Node, existed: bool) -> FilesPhase {
    if node is LogFifo {
        FilesPhase::MakeFifo { node: Node::MetricsFifo, existed }
    } else if existed {
        FilesPhase::Remove { node: Node::ApiSock }
    } else {
        FilesPhase::Finished
    }
}

/// The preparation goes on after a file is gone.
pub open spec fn after_removal(mode: EnsureFilesMode, node: Node) -> FilesPhase {
    if node is ApiSock {
        FilesPhase::Remove { node: Node::VsockUds }
    } else if node is VsockUds && mode is Creation {
        FilesPhase::Remove { node: Node::Config }
    } else {
        FilesPhase::Finished
    }
}

/// The cause of a failed call.
pub open spec fn cause(reply: FileReply) -> Option<String> {
    match reply {
        FileReply::Exists(err) => Some(err),
        FileReply::NotFound(err) => Some(err),
        FileReply::Failed(err) => Some(err),
        _ => None,
    }
}

impl EnsureFiles {
    /// The preparation and its files fit together.
    pub open spec fn wf(self) -> bool {
        match self.phase {
            FilesPhase::MakeFifo { node, .. }
            | FilesPhase::CheckFifo { node, .. }
            | FilesPhase::ReplaceFifo { node, .. }
            | FilesPhase::RemakeFifo { node, .. } => node is LogFifo || node is MetricsFifo,
            FilesPhase::Remove { node } => node is ApiSock || node is VsockUds || (node is Config
                && self.mode is Creation),
            _ => true,
        }
    }

    /// The call that is to be made next, if the preparation is not over.
    pub open spec fn pending(self) -> Option<FileCall> {
        match self.phase {
            FilesPhase::Mkdir => Some(FileCall::Mkdir),
            FilesPhase::Open { .. } => Some(FileCall::Open),
            FilesPhase::MakeFifo { node, .. } => Some(FileCall::MkFifo(node)),
            FilesPhase::CheckFifo { node, .. } => Some(FileCall::Stat(node)),
            FilesPhase::ReplaceFifo { node, .. } => Some(FileCall::Unlink(node)),
            FilesPhase::RemakeFifo { node, .. } => Some(FileCall::MkFifo(node)),
            FilesPhase::Remove { node } => Some(FileCall::Unlink(node)),
            FilesPhase::Finished | FilesPhase::Failed(_) => None,
        }
    }

    /// The reply is one that the pending call can have.
    pub open spec fn can_be(self, reply: FileReply) -> bool {
        self.pending() is Some && (self.pending()->0 is Stat ==> !(reply is Done)) && (reply is IsFifo
            ==> self.pending()->0 is Stat)
    }

    /// How the preparation goes on after a reply. A directory or a named pipe that is there
    /// already, and a file that is not there to be removed, are no failures; anything else
    /// is.
    pub open spec fn next(self, reply: FileReply) -> FilesPhase {
        let failed = FilesPhase::Failed(
            FileError { call: self.pending()->0, err: cause(reply)->0 },
        );
        match (self.phase, reply) {
            (FilesPhase::Mkdir, FileReply::Done) => FilesPhase::Open { existed: false },
            (FilesPhase::Mkdir, FileReply::Exists(_)) => FilesPhase::Open { existed: true },
            (FilesPhase::Open { existed }, FileReply::Done) => FilesPhase::MakeFifo {
                node: Node::LogFifo,
                existed,
            },
            (FilesPhase::MakeFifo { node, existed }, FileReply::Done) => after_fifo(node, existed),
            (FilesPhase::MakeFifo { node, existed }, FileReply::Exists(_)) => FilesPhase::CheckFifo {
                node,
                existed,
            },
            (FilesPhase::CheckFifo { node, existed }, FileReply::IsFifo(is_fifo)) => if is_fifo {
                after_fifo(node, existed)
            } else {
                FilesPhase::ReplaceFifo { node, existed }
            },
            (FilesPhase::ReplaceFifo { node, existed }, FileReply::Done) => FilesPhase::RemakeFifo {
                node,
                existed,
            },
            (FilesPhase::RemakeFifo { node, existed }, FileReply::Done) => after_fifo(node, existed),
            (FilesPhase::Remove { node }, FileReply::Done) => after_removal(self.mode, node),
            (FilesPhase::Remove { node }, FileReply::NotFound(_)) => after_removal(self.mode, node),
            _ => failed,
        }
    }

    /// Starts the preparation of a directory.
    pub fn new(mode: EnsureFilesMode) -> (r: EnsureFiles)
        ensures
            r.mode == mode,
            r.phase is Mkdir,
            r.wf(),
    {
        EnsureFiles { mode, phase: FilesPhase::Mkdir }
    }

    /// The call that is to be made next, if the preparation is not over.
    pub fn call(&self) -> (r: Option<FileCall>)
        ensures
            r == self.pending(),
    {
        match &self.phase {
            FilesPhase::Mkdir => Some(FileCall::Mkdir),
            FilesPhase::Open { .. } => Some(FileCall::Open),
            FilesPhase::MakeFifo { node, .. } => Some(FileCall::MkFifo(*node)),
            FilesPhase::CheckFifo { node, .. } => Some(FileCall::Stat(*node)),
            FilesPhase::ReplaceFifo { node, .. } => Some(FileCall::Unlink(*node)),
            FilesPhase::RemakeFifo { node, .. } => Some(FileCall::MkFifo(*node)),
            FilesPhase::Remove { node } => Some(FileCall::Unlink(*node)),
            FilesPhase::Finished | FilesPhase::Failed(_) => None,
        }
    }

    fn made_fifo(node: Node, existed: bool) -> (r: FilesPhase)
        ensures
            r == after_fifo(node, existed),
    {
        match node {
            Node::LogFifo => FilesPhase::MakeFifo { node: Node::MetricsFifo, existed },
            _ => if existed {
                FilesPhase::Remove { node: Node::ApiSock }
            } else {
                FilesPhase::Finished
            },
        }
    }

    fn removed(&self, node: Node) -> (r: FilesPhase)
        ensures
            r == after_removal(self.mode, node),
    {
        match node {
            Node::ApiSock => FilesPhase::Remove { node: Node::VsockUds },
            Node::VsockUds => match self.mode {
                EnsureFilesMode::Creation => FilesPhase::Remove { node: Node::Config },
                EnsureFilesMode::Loading => FilesPhase::Finished,
            },
            _ => FilesPhase::Finished,
        }
    }

    /// Takes what came of the pending call.
    pub fn step(&mut self, reply: FileReply)
        requires
            old(self).wf(),
            old(self).can_be(reply),
        ensures
            final(self).mode == old(self).mode,
            final(self).phase == old(self).next(reply),
            final(self).wf(),
    {
        let call = self.call().unwrap();
        let phase = match (&self.phase, reply) {
            (FilesPhase::Mkdir, FileReply::Done) => FilesPhase::Open { existed: false },
            (FilesPhase::Mkdir, FileReply::Exists(_)) => FilesPhase::Open { existed: true },
            (FilesPhase::Open { existed }, FileReply::Done) => FilesPhase::MakeFifo {
                node: Node::LogFifo,
                existed: *existed,
            },
            (FilesPhase::MakeFifo { node, existed }, FileReply::Done) => Self::made_fifo(
                *node,
                *existed,
            ),
            (FilesPhase::MakeFifo { node, existed }, FileReply::Exists(_)) => FilesPhase::CheckFifo {
                node: *node,
                existed: *existed,
            },
            (FilesPhase::CheckFifo { node, existed }, FileReply::IsFifo(is_fifo)) => if is_fifo {
                Self::made_fifo(*node, *existed)
            } else {
                FilesPhase::ReplaceFifo { node: *node, existed: *existed }
            },
            (FilesPhase::ReplaceFifo { node, existed }, FileReply::Done) => FilesPhase::RemakeFifo {
                node: *node,
                existed: *existed,
            },
            (FilesPhase::RemakeFifo { node, existed }, FileReply::Done) => Self::made_fifo(
                *node,
                *existed,
            ),
            (FilesPhase::Remove { node }, FileReply::Done) => self.removed(*node),
            (FilesPhase::Remove { node }, FileReply::NotFound(_)) => self.removed(*node),
            (_, FileReply::Exists(err)) => FilesPhase::Failed(FileError { call, err }),
            (_, FileReply::NotFound(err)) => FilesPhase::Failed(FileError { call, err }),
            (_, FileReply::Failed(err)) => FilesPhase::Failed(FileError { call, err }),
            _ => FilesPhase::Finished,
        };
        self.phase = phase;
    }
}

impl FileError {
    /// The failed call in words, for the directory `dir`.
    pub open spec fn text(self, dir: Seq<char>) -> Seq<char> {
        match self.call {
            FileCall::Mkdir => "failed to mkdir(2) '"@ + dir + "'"@,
            FileCall::Open => "failed to open(2) '"@ + dir + "'"@,
            FileCall::MkFifo(node) => "failed to mkfifoat(2) '"@ + dir + "/"@ + node.name() + "'"@,
            FileCall::Stat(node) => "failed to statat(2) '"@ + dir + "/"@ + node.name() + "'"@,
            FileCall::Unlink(node) => "failed to unlinkat(2) '"@ + dir + "/"@ + node.name() + "'"@,
        }
    }

    /// The failed call in words, for the directory `dir`.
    pub fn message(&self, dir: &str) -> (r: String)
        ensures
            r@ == self.text(dir@),
    {
        let (what, node) = match self.call {
            FileCall::Mkdir => {
                return concat3("failed to mkdir(2) '", dir, "'");
            },
            FileCall::Open => {
                return concat3("failed to open(2) '", dir, "'");
            },
            FileCall::MkFifo(node) => ("failed to mkfifoat(2) '", node),
            FileCall::Stat(node) => ("failed to statat(2) '", node),
            FileCall::Unlink(node) => ("failed to unlinkat(2) '", node),
        };
        let mut r = concat3(what, dir, "/");
        r.append(node.basename());
        r.append("'");
        r
    }
}

/// A file in a directory, as far as the preparation is concerned.
pub enum NodeKind {
    Fifo,
    Other,
}

/// A directory: none, or the files in it.
pub type Directory = Option<Map<Node, NodeKind>>;

/// `reply` is what a call gives, and `after` what it leaves, when the directory is `before`
/// and the operating system does as it is told.
pub open spec fn obeyed(before: Directory, call: FileCall, reply: FileReply, after: Directory) -> bool {
    match call {
        FileCall::Mkdir => match before {
            None => reply is Done && after == Some(Map::<Node, NodeKind>::empty()),
            Some(_) => reply is Exists && after == before,
        },
        FileCall::Open => before is Some && reply is Done && after == before,
        FileCall::MkFifo(node) => before is Some && if before->0.contains_key(node) {
            reply is Exists && after == before
        } else {
            reply is Done && after == Some(before->0.insert(node, NodeKind::Fifo))
        },
        FileCall::Stat(node) => before is Some && before->0.contains_key(node) && reply
            == FileReply::IsFifo(before->0[node] is Fifo) && after == before,
        FileCall::Unlink(node) => before is Some && if before->0.contains_key(node) {
            reply is Done && after == Some(before->0.remove(node))
        } else {
            reply is NotFound && after == before
        },
    }
}

/// `node` is in the directory, and a named pipe.
pub open spec fn has_fifo(dir: Directory, node: Node) -> bool {
    dir is Some && dir->0.contains_key(node) && dir->0[node] is Fifo
}

/// `node` is not in the directory, which exists.
pub open spec fn has_not(dir: Directory, node: Node) -> bool {
    dir is Some && !dir->0.contains_key(node)
}

/// What holds of the directory while it is prepared.
pub open spec fn on_track(m: EnsureFiles, dir: Directory) -> bool {
    let fresh = |existed: bool|
        !existed ==> has_not(dir, Node::ApiSock) && has_not(dir, Node::VsockUds) && has_not(
            dir,
            Node::Config,
        );
    let log_done = |node: Node| node is MetricsFifo ==> has_fifo(dir, Node::LogFifo);
    match m.phase {
        FilesPhase::Mkdir => true,
        FilesPhase::Open { existed } => dir is Some && fresh(existed),
        FilesPhase::MakeFifo { node, existed } => dir is Some && fresh(existed) && log_done(node),
        FilesPhase::CheckFifo { node, existed } => dir is Some && fresh(existed) && log_done(node)
            && dir->0.contains_key(node),
        FilesPhase::ReplaceFifo { node, existed } => dir is Some && fresh(existed) && log_done(node)
            && dir->0.contains_key(node),
        FilesPhase::RemakeFifo { node, existed } => dir is Some && fresh(existed) && log_done(node)
            && has_not(dir, node),
        FilesPhase::Remove { node } => {
            &&& has_fifo(dir, Node::LogFifo)
            &&& has_fifo(dir, Node::MetricsFifo)
            &&& node is VsockUds || node is Config ==> has_not(dir, Node::ApiSock)
            &&& node is Config ==> has_not(dir, Node::VsockUds)
        },
        FilesPhase::Finished => prepared(m.mode, dir),
        FilesPhase::Failed(_) => false,
    }
}

/// A directory that is ready: its two named pipes are there, its two sockets are not, and
/// neither is a configuration unless the machine is loaded from its snapshot.
pub open spec fn prepared(mode: EnsureFilesMode, dir: Directory) -> bool {
    &&& has_fifo(dir, Node::LogFifo)
    &&& has_fifo(dir, Node::MetricsFifo)
    &&& has_not(dir, Node::ApiSock)
    &&& has_not(dir, Node::VsockUds)
    &&& mode is Creation ==> has_not(dir, Node::Config)
}

/// Whatever a directory holds, it is being prepared as long as the operating system does as
/// it is told, and no call fails then.
pub proof fn law_stays_on_track(m: EnsureFiles, dir: Directory, reply: FileReply, after: Directory)
    requires
        m.wf(),
        on_track(m, dir),
        m.pending() is Some,
        obeyed(dir, m.pending()->0, reply, after),
    ensures
        m.can_be(reply),
        on_track(EnsureFiles { mode: m.mode, phase: m.next(reply) }, after),
{
}

/// A preparation that starts is on track whatever the directory is, and one that is finished
/// has left it prepared.
pub proof fn law_finished_is_prepared(m: EnsureFiles, dir: Directory)
    ensures
        m.phase is Mkdir ==> on_track(m, dir),
        m.phase is Finished && on_track(m, dir) ==> prepared(m.mode, dir),
{
}

/// A preparation fails only of a call that fails, and tells which, with its cause. A directory
/// or a named pipe that is there already, and a file that is not there to be removed, are no
/// failures.
pub proof fn law_why_a_preparation_fails(m: EnsureFiles, reply: FileReply)
    requires
        m.wf(),
        m.can_be(reply),
    ensures
        ({
            let harmless = match reply {
                FileReply::Done | FileReply::IsFifo(_) => true,
                FileReply::Exists(_) => m.phase is Mkdir || m.phase is MakeFifo,
                FileReply::NotFound(_) => m.phase is Remove,
                FileReply::Failed(_) => false,
            };
            &&& m.next(reply) is Failed <==> !harmless
            &&& m.next(reply) matches FilesPhase::Failed(failed) ==> Some(failed.call) == m.pending()
                && match reply {
                FileReply::Exists(err) => failed.err == err,
                FileReply::NotFound(err) => failed.err == err,
                FileReply::Failed(err) => failed.err == err,
                _ => false,
            }
        }),
{
}

/// A file is removed only if an earlier machine may have left it, or if it stands where a named
/// pipe is to be and is none: a directory that was just made, and a named pipe that is there,
/// are left alone.
pub proof fn law_nothing_is_removed_needlessly(m: EnsureFiles, reply: FileReply)
    requires
        m.wf(),
        m.can_be(reply),
    ensures
        m.next(reply) is ReplaceFifo ==> m.phase is CheckFifo && reply == FileReply::IsFifo(false),
        m.phase is Mkdir && !(m.next(reply) is Failed) ==> m.next(reply) == (FilesPhase::Open {
            existed: reply is Exists,
        }),
        m.next(reply) is Remove && !(m.phase is Remove) ==> match m.phase {
            FilesPhase::MakeFifo { existed, .. }
            | FilesPhase::CheckFifo { existed, .. }
            | FilesPhase::RemakeFifo { existed, .. } => existed,
            _ => false,
        },
        m.phase matches FilesPhase::CheckFifo { node, existed } ==> (reply == FileReply::IsFifo(
            false,
        ) ==> m.next(reply) == (FilesPhase::ReplaceFifo { node, existed })),
        m.phase matches FilesPhase::ReplaceFifo { node, existed } ==> (reply is Done ==> m.next(
            reply,
        ) == (FilesPhase::RemakeFifo { node, existed })),
{
}

/// How many calls a preparation in `phase` has left at most.
pub open spec fn calls_left(phase: FilesPhase) -> nat {
    match phase {
        FilesPhase::Mkdir => 13,
        FilesPhase::Open { .. } => 12,
        FilesPhase::MakeFifo { node, .. } => if node is LogFifo {
            11
        } else {
            7
        },
        FilesPhase::CheckFifo { node, .. } => if node is LogFifo {
            10
        } else {
            6
        },
        FilesPhase::ReplaceFifo { node, .. } => if node is LogFifo {
            9
        } else {
            5
        },
        FilesPhase::RemakeFifo { node, .. } => if node is LogFifo {
            8
        } else {
            4
        },
        FilesPhase::Remove { node } => if node is ApiSock {
            3
        } else if node is VsockUds {
            2
        } else {
            1
        },
        FilesPhase::Finished | FilesPhase::Failed(_) => 0,
    }
}

/// A preparation ends, whatever its calls give.
pub proof fn law_preparation_ends(m: EnsureFiles, reply: FileReply)
    requires
        m.wf(),
        m.can_be(reply),
    ensures
        calls_left(m.next(reply)) < calls_left(m.phase),
{
}

/// Files that the preparation does not speak of stay as they are: a snapshot's loading never
/// touches a configuration.
pub proof fn law_loading_keeps_config(m: EnsureFiles)
    requires
        m.wf(),
        m.mode is Loading,
    ensures
        m.pending() != Some(FileCall::Unlink(Node::Config)),
{
}

/// How a directory is prepared if nothing goes wrong: it is made and opened, then the pipe for the
/// log and the one for the metrics are there. If the directory was just made that is all. If not,
/// the sockets of an earlier machine are removed, and before a new machine also its configuration.
pub proof fn law_how_a_directory_is_prepared(m: EnsureFiles, reply: FileReply)
    requires
        m.wf(),
        m.can_be(reply),
        !(m.next(reply) is Failed),
    ensures
        m.phase matches FilesPhase::Open { existed } ==> m.next(reply) == (FilesPhase::MakeFifo {
            node: Node::LogFifo,
            existed,
        }),
        m.phase matches FilesPhase::MakeFifo { node, existed } ==> (reply is Exists ==> m.next(reply)
            == (FilesPhase::CheckFifo { node, existed })),
        ({
            let made = match (m.phase, reply) {
                (FilesPhase::MakeFifo { node, existed }, FileReply::Done) => Some((node, existed)),
                (FilesPhase::RemakeFifo { node, existed }, FileReply::Done) => Some((node, existed)),
                (FilesPhase::CheckFifo { node, existed }, FileReply::IsFifo(true)) => Some(
                    (node, existed),
                ),
                _ => None,
            };
            made is Some ==> {
                let (node, existed) = made->0;
                &&& node == Node::LogFifo ==> m.next(reply) == (FilesPhase::MakeFifo {
                    node: Node::MetricsFifo,
                    existed,
                })
                &&& node == Node::MetricsFifo && existed ==> m.next(reply) == (FilesPhase::Remove {
                    node: Node::ApiSock,
                })
                &&& node == Node::MetricsFifo && !existed ==> m.next(reply) is Finished
            }
        }),
        m.phase == (FilesPhase::Remove { node: Node::ApiSock }) ==> m.next(reply)
            == (FilesPhase::Remove { node: Node::VsockUds }),
        m.phase == (FilesPhase::Remove { node: Node::VsockUds }) && m.mode is Creation ==> m.next(
            reply,
        ) == (FilesPhase::Remove { node: Node::Config }),
        m.phase == (FilesPhase::Remove { node: Node::VsockUds }) && m.mode is Loading ==> m.next(
            reply,
        ) is Finished,
        m.phase == (FilesPhase::Remove { node: Node::Config }) ==> m.next(reply) is Finished,
{
}

} // verus!
