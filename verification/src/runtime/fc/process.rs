//! Starting a machine monitor's process.

use vstd::prelude::*;
use vstd::string::*;

use crate::runtime::fc::error::{ApiSetup, Error, IoUse};
use crate::runtime::fc::files::Node;
use crate::runtime::fc::sandbox::FcProcessState;

verus! {

/// What the process learns its log and its metrics from.
#[derive(Clone, Copy, Debug, PartialEq, Eq, Structural)]
pub enum InitFiles {
    /// A configuration, which also describes the machine.
    Config,
    /// Calls to its API, once it runs.
    Fifos,
}

/// What is to be done next.
#[derive(Clone, Copy, Debug, PartialEq, Eq, Structural)]
pub enum ProcessAction {
    /// Start the process.
    Spawn,
    /// Open a descriptor of the process.
    OpenPidfd(u32),
    /// Kill the process and reap it.
    Kill(u32),
    /// Wait for the process to serve its API.
    AwaitApi(u32),
    /// Tell it where to log to.
    PutLogger,
    /// Tell it where its metrics go.
    PutMetrics,
    /// Read what it writes from now on.
    StartPumps(u32),
}

/// What came of it.
#[derive(Debug)]
pub enum ProcessEvent {
    /// The process runs, under the identifier given.
    Spawned(u32),
    Done,
    Failed(String),
}

/// How far the start has come; the process is given by its identifier.
#[derive(Debug)]
#[allow(inconsistent_fields)]
pub enum ProcessPhase {
    Spawn,
    OpenPidfd { pid: u32 },
    /// There is no descriptor of the process, so it has to go.
    KillUnwatched { pid: u32, err: String },
    AwaitApi { pid: u32 },
    PutLogger { pid: u32 },
    PutMetrics { pid: u32 },
    /// It could not be set up, so it has to go.
    KillUnset { pid: u32, what: ApiSetup, err: String },
    StartPumps { pid: u32 },
    Over(Result<FcProcessState, Error>),
}

/// The start of a process.
#[derive(Debug)]
pub struct StartProcess {
    pub files: InitFiles,
    pub phase: ProcessPhase,
}

/// The arguments that the process is started with.
pub open spec fn arguments(vm_id: Seq<char>, api_sock: Seq<char>, config: Option<Seq<char>>) -> Seq<
    Seq<char>,
> {
    seq!["--id"@, vm_id, "--api-sock"@, api_sock] + match config {
        Some(path) => seq!["--config-file"@, path],
        None => seq![],
    }
}

/// The arguments that a machine's process is started with, given the machine's directory.
pub fn process_args(files: InitFiles, vm_id: &str, dir: &str) -> (r: Vec<String>)
    ensures
        crate::text::texts(r@) == arguments(
            vm_id@,
            crate::paths::joined(dir@, Node::ApiSock.name()),
            if files is Config {
                Some(crate::paths::joined(dir@, Node::Config.name()))
            } else {
                None
            },
        ),
{
    let mut r: Vec<String> = Vec::new();
    r.push("--id".to_owned());
    r.push(vm_id.to_owned());
    r.push("--api-sock".to_owned());
    r.push(Node::ApiSock.path_in(dir));
    if let InitFiles::Config = files {
        r.push("--config-file".to_owned());
        r.push(Node::Config.path_in(dir));
    }
    r
}

/// The named pipes of a machine's log and of its metrics, given the machine's directory.
pub fn pump_paths(dir: &str) -> (r: (String, String))
    ensures
        (r.0)@ == crate::paths::joined(dir@, Node::LogFifo.name()),
        (r.1)@ == crate::paths::joined(dir@, Node::MetricsFifo.name()),
{
    (Node::LogFifo.path_in(dir), Node::MetricsFifo.path_in(dir))
}

/// The process that runs in `phase`, and is nobody else's yet.
pub open spec fn child(phase: ProcessPhase) -> Option<u32> {
    match phase {
        ProcessPhase::OpenPidfd { pid } => Some(pid),
        ProcessPhase::KillUnwatched { pid, .. } => Some(pid),
        ProcessPhase::AwaitApi { pid } => Some(pid),
        ProcessPhase::PutLogger { pid } => Some(pid),
        ProcessPhase::PutMetrics { pid } => Some(pid),
        ProcessPhase::KillUnset { pid, .. } => Some(pid),
        ProcessPhase::StartPumps { pid } => Some(pid),
        ProcessPhase::Spawn | ProcessPhase::Over(_) => None,
    }
}

impl StartProcess {
    /// The API is used only by a process without a configuration.
    pub open spec fn wf(self) -> bool {
        (self.phase is AwaitApi || self.phase is PutLogger || self.phase is PutMetrics || self.phase
            is KillUnset) ==> self.files is Fifos
    }

    /// What is to be done next, if the start is not over.
    pub open spec fn pending(self) -> Option<ProcessAction> {
        match self.phase {
            ProcessPhase::Spawn => Some(ProcessAction::Spawn),
            ProcessPhase::OpenPidfd { pid } => Some(ProcessAction::OpenPidfd(pid)),
            ProcessPhase::KillUnwatched { pid, .. } => Some(ProcessAction::Kill(pid)),
            ProcessPhase::AwaitApi { pid } => Some(ProcessAction::AwaitApi(pid)),
            ProcessPhase::PutLogger { .. } => Some(ProcessAction::PutLogger),
            ProcessPhase::PutMetrics { .. } => Some(ProcessAction::PutMetrics),
            ProcessPhase::KillUnset { pid, .. } => Some(ProcessAction::Kill(pid)),
            ProcessPhase::StartPumps { pid } => Some(ProcessAction::StartPumps(pid)),
            ProcessPhase::Over(_) => None,
        }
    }

    /// The event is one that can come of the pending action.
    pub open spec fn can_be(self, e: ProcessEvent) -> bool {
        match self.phase {
            ProcessPhase::Spawn => !(e is Done),
            ProcessPhase::StartPumps { .. } => e is Done,
            ProcessPhase::Over(_) => false,
            _ => !(e is Spawned),
        }
    }

    /// How the start goes on after an event. That the API is not served in time is no
    /// failure yet: the calls that follow will tell. Nor does it matter whether a process
    /// that could not be set up is killed.
    pub open spec fn next(self, e: ProcessEvent) -> ProcessPhase {
        match (self.phase, e) {
            (ProcessPhase::Spawn, ProcessEvent::Spawned(pid)) => ProcessPhase::OpenPidfd { pid },
            (ProcessPhase::Spawn, ProcessEvent::Failed(err)) => ProcessPhase::Over(
                Err(Error::Io { what: IoUse::Spawn, err }),
            ),
            (ProcessPhase::OpenPidfd { pid }, ProcessEvent::Failed(err)) =>
                ProcessPhase::KillUnwatched { pid, err },
            (ProcessPhase::OpenPidfd { pid }, _) => match self.files {
                InitFiles::Config => ProcessPhase::StartPumps { pid },
                InitFiles::Fifos => ProcessPhase::AwaitApi { pid },
            },
            (ProcessPhase::KillUnwatched { pid, .. }, ProcessEvent::Failed(err)) =>
                ProcessPhase::Over(Err(Error::Io { what: IoUse::Kill(pid), err })),
            (ProcessPhase::KillUnwatched { pid, err }, _) => ProcessPhase::Over(
                Err(Error::Io { what: IoUse::OpenPidfd(pid), err }),
            ),
            (ProcessPhase::AwaitApi { pid }, _) => ProcessPhase::PutLogger { pid },
            (ProcessPhase::PutLogger { pid }, ProcessEvent::Failed(err)) =>
                ProcessPhase::KillUnset { pid, what: ApiSetup::Logger, err },
            (ProcessPhase::PutLogger { pid }, _) => ProcessPhase::PutMetrics { pid },
            (ProcessPhase::PutMetrics { pid }, ProcessEvent::Failed(err)) =>
                ProcessPhase::KillUnset { pid, what: ApiSetup::Metrics, err },
            (ProcessPhase::PutMetrics { pid }, _) => ProcessPhase::StartPumps { pid },
            (ProcessPhase::KillUnset { what, err, .. }, _) => ProcessPhase::Over(
                Err(Error::ApiSetup { what, err }),
            ),
            (ProcessPhase::StartPumps { pid }, _) => ProcessPhase::Over(
                Ok(FcProcessState { pid: Some(pid) }),
            ),
            _ => self.phase,
        }
    }

    pub fn new(files: InitFiles) -> (r: StartProcess)
        ensures
            r == (StartProcess { files, phase: ProcessPhase::Spawn }),
            r.wf(),
    {
        StartProcess { files, phase: ProcessPhase::Spawn }
    }

    /// What is to be done next, if the start is not over.
    pub fn action(&self) -> (r: Option<ProcessAction>)
        ensures
            r == self.pending(),
    {
        match &self.phase {
            ProcessPhase::Spawn => Some(ProcessAction::Spawn),
            ProcessPhase::OpenPidfd { pid } => Some(ProcessAction::OpenPidfd(*pid)),
            ProcessPhase::KillUnwatched { pid, .. } => Some(ProcessAction::Kill(*pid)),
            ProcessPhase::AwaitApi { pid } => Some(ProcessAction::AwaitApi(*pid)),
            ProcessPhase::PutLogger { .. } => Some(ProcessAction::PutLogger),
            ProcessPhase::PutMetrics { .. } => Some(ProcessAction::PutMetrics),
            ProcessPhase::KillUnset { pid, .. } => Some(ProcessAction::Kill(*pid)),
            ProcessPhase::StartPumps { pid } => Some(ProcessAction::StartPumps(*pid)),
            ProcessPhase::Over(_) => None,
        }
    }

    /// Takes what came of the pending action.
    pub fn step(&mut self, e: ProcessEvent)
        requires
            old(self).wf(),
            old(self).can_be(e),
        ensures
            final(self).files == old(self).files,
            final(self).phase == old(self).next(e),
            final(self).wf(),
    {
        let mut phase = ProcessPhase::Spawn;
        std::mem::swap(&mut phase, &mut self.phase);
        self.phase = match (phase, e) {
            (ProcessPhase::Spawn, ProcessEvent::Spawned(pid)) => ProcessPhase::OpenPidfd { pid },
            (ProcessPhase::Spawn, ProcessEvent::Failed(err)) => ProcessPhase::Over(
                Err(Error::Io { what: IoUse::Spawn, err }),
            ),
            (ProcessPhase::OpenPidfd { pid }, ProcessEvent::Failed(err)) =>
                ProcessPhase::KillUnwatched { pid, err },
            (ProcessPhase::OpenPidfd { pid }, _) => match self.files {
                InitFiles::Config => ProcessPhase::StartPumps { pid },
                InitFiles::Fifos => ProcessPhase::AwaitApi { pid },
            },
            (ProcessPhase::KillUnwatched { pid, .. }, ProcessEvent::Failed(err)) =>
                ProcessPhase::Over(Err(Error::Io { what: IoUse::Kill(pid), err })),
            (ProcessPhase::KillUnwatched { pid, err }, _) => ProcessPhase::Over(
                Err(Error::Io { what: IoUse::OpenPidfd(pid), err }),
            ),
            (ProcessPhase::AwaitApi { pid }, _) => ProcessPhase::PutLogger { pid },
            (ProcessPhase::PutLogger { pid }, ProcessEvent::Failed(err)) =>
                ProcessPhase::KillUnset { pid, what: ApiSetup::Logger, err },
            (ProcessPhase::PutLogger { pid }, _) => ProcessPhase::PutMetrics { pid },
            (ProcessPhase::PutMetrics { pid }, ProcessEvent::Failed(err)) =>
                ProcessPhase::KillUnset { pid, what: ApiSetup::Metrics, err },
            (ProcessPhase::PutMetrics { pid }, _) => ProcessPhase::StartPumps { pid },
            (ProcessPhase::KillUnset { what, err, .. }, _) => ProcessPhase::Over(
                Err(Error::ApiSetup { what, err }),
            ),
            (ProcessPhase::StartPumps { pid }, _) => ProcessPhase::Over(
                Ok(FcProcessState { pid: Some(pid) }),
            ),
            (phase, _) => phase,
        };
    }
}

/// A process that was started stays the same one until it is handed over or killed: a start
/// that fails leaves none behind.
pub proof fn law_child_is_handed_over_or_killed(m: StartProcess, e: ProcessEvent)
    requires
        m.wf(),
        m.can_be(e),
    ensures
        e matches ProcessEvent::Spawned(pid) ==> child(m.next(e)) == Some(pid),
        child(m.phase) matches Some(pid) ==> {
            ||| child(m.next(e)) == Some(pid)
            ||| m.next(e) == ProcessPhase::Over(Ok(FcProcessState { pid: Some(pid) }))
            ||| m.pending() == Some(ProcessAction::Kill(pid)) && m.next(e) is Over
        },
        m.pending() matches Some(ProcessAction::Kill(pid)) ==> m.next(e) is Over && m.next(e)->0
            is Err,
{
}

/// A process that is handed over is one that was started, and that is being read from.
pub proof fn law_success_needs_a_child(m: StartProcess, e: ProcessEvent)
    requires
        m.wf(),
        m.can_be(e),
        m.next(e) is Over,
        m.next(e)->0 is Ok,
    ensures
        m.pending() matches Some(ProcessAction::StartPumps(pid)) && m.next(e) == ProcessPhase::Over(
            Ok(FcProcessState { pid: Some(pid) }),
        ),
{
}

/// How a process is started if all goes well: it is spawned and a descriptor of it is opened;
/// one without a configuration is told through its API where to log to and where its metrics
/// go; and then it is read from. Whether its API is awaited in vain does not matter by itself.
pub proof fn law_how_a_process_is_started(m: StartProcess, e: ProcessEvent, pid: u32)
    requires
        m.wf(),
        m.can_be(e),
    ensures
        m.phase is Spawn && e == ProcessEvent::Spawned(pid) ==> m.next(e) == (
        ProcessPhase::OpenPidfd { pid }),
        m.phase == (ProcessPhase::OpenPidfd { pid }) && e is Done ==> m.next(e)
            == if m.files is Config {
            ProcessPhase::StartPumps { pid }
        } else {
            ProcessPhase::AwaitApi { pid }
        },
        m.phase == (ProcessPhase::AwaitApi { pid }) ==> m.next(e) == (ProcessPhase::PutLogger {
            pid,
        }),
        m.phase == (ProcessPhase::PutLogger { pid }) && e is Done ==> m.next(e) == (
        ProcessPhase::PutMetrics { pid }),
        m.phase == (ProcessPhase::PutMetrics { pid }) && e is Done ==> m.next(e) == (
        ProcessPhase::StartPumps { pid }),
        m.phase == (ProcessPhase::StartPumps { pid }) ==> m.next(e) == ProcessPhase::Over(
            Ok::<_, Error>(FcProcessState { pid: Some(pid) }),
        ),
{
}

/// Why a process is not started: each failure is told with its cause. A process that is there by
/// then is killed first; if one without a descriptor cannot be killed, that is told instead.
pub proof fn law_why_a_process_is_not_started(m: StartProcess, e: ProcessEvent, pid: u32)
    requires
        m.wf(),
        m.can_be(e),
    ensures
        e is Failed ==> {
            let err = e->Failed_0;
            &&& m.phase is Spawn ==> m.next(e) == ProcessPhase::Over(
                Err::<FcProcessState, _>(Error::Io { what: IoUse::Spawn, err }),
            )
            &&& m.phase == (ProcessPhase::OpenPidfd { pid }) ==> m.next(e) == (
            ProcessPhase::KillUnwatched { pid, err })
            &&& m.phase == (ProcessPhase::PutLogger { pid }) ==> m.next(e) == (
            ProcessPhase::KillUnset { pid, what: ApiSetup::Logger, err })
            &&& m.phase == (ProcessPhase::PutMetrics { pid }) ==> m.next(e) == (
            ProcessPhase::KillUnset { pid, what: ApiSetup::Metrics, err })
        },
        m.phase matches ProcessPhase::KillUnwatched { pid, err } ==> m.next(e) == ProcessPhase::Over(
            Err::<FcProcessState, _>(
                if e is Failed {
                    Error::Io { what: IoUse::Kill(pid), err: e->Failed_0 }
                } else {
                    Error::Io { what: IoUse::OpenPidfd(pid), err }
                },
            ),
        ),
        m.phase matches ProcessPhase::KillUnset { what, err, .. } ==> m.next(e)
            == ProcessPhase::Over(Err::<FcProcessState, _>(Error::ApiSetup { what, err })),
{
}

/// Each phase has its action, and takes every outcome of it.
pub proof fn law_start_takes_every_outcome(m: StartProcess, e: ProcessEvent)
    ensures
        m.pending() == (match m.phase {
            ProcessPhase::Spawn => Some(ProcessAction::Spawn),
            ProcessPhase::OpenPidfd { pid } => Some(ProcessAction::OpenPidfd(pid)),
            ProcessPhase::KillUnwatched { pid, .. } => Some(ProcessAction::Kill(pid)),
            ProcessPhase::KillUnset { pid, .. } => Some(ProcessAction::Kill(pid)),
            ProcessPhase::AwaitApi { pid } => Some(ProcessAction::AwaitApi(pid)),
            ProcessPhase::PutLogger { .. } => Some(ProcessAction::PutLogger),
            ProcessPhase::PutMetrics { .. } => Some(ProcessAction::PutMetrics),
            ProcessPhase::StartPumps { pid } => Some(ProcessAction::StartPumps(pid)),
            ProcessPhase::Over(_) => None,
        }),
        m.phase is Spawn && (e is Spawned || e is Failed) ==> m.can_be(e),
        !(m.phase is Spawn) && !(m.phase is StartPumps) && !(m.phase is Over) && (e is Done || e
            is Failed) ==> m.can_be(e),
        m.phase is StartPumps && e is Done ==> m.can_be(e),
{
}

/// How many actions a start in `phase` has left at most.
pub open spec fn process_actions_left(phase: ProcessPhase) -> nat {
    match phase {
        ProcessPhase::Spawn => 6,
        ProcessPhase::OpenPidfd { .. } => 5,
        ProcessPhase::AwaitApi { .. } => 4,
        ProcessPhase::PutLogger { .. } => 3,
        ProcessPhase::PutMetrics { .. } => 2,
        ProcessPhase::KillUnwatched { .. } => 1,
        ProcessPhase::KillUnset { .. } => 1,
        ProcessPhase::StartPumps { .. } => 1,
        ProcessPhase::Over(_) => 0,
    }
}

/// A start ends, whatever comes.
pub proof fn law_start_ends(m: StartProcess, e: ProcessEvent)
    requires
        m.wf(),
        m.can_be(e),
    ensures
        process_actions_left(m.next(e)) < process_actions_left(m.phase),
{
}

} // verus!
