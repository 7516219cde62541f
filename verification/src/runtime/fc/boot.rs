//! Bringing machines up: new ones, and those that are loaded from their snapshots.

use vstd::prelude::*;

use crate::metadata::SandboxId;
use crate::runtime::Sandbox;
use crate::runtime::fc::error::{Error, IoUse, SnapshotUse, VmFault};
use crate::runtime::fc::files::{EnsureFilesMode, FileError};
use crate::runtime::fc::sandbox::{FcProcessState, MicroVm};

verus! {

/// What is to be done next.
#[derive(Clone, Copy, Debug, PartialEq, Eq, Structural)]
pub enum BootAction {
    /// Build the machine's network device.
    BuildTap,
    /// Prepare the machine's directory.
    EnsureFiles,
    /// Look the Function's root file system up.
    LookupRootfs,
    /// Write the machine's configuration.
    WriteConfig,
    /// Start the machine monitor.
    StartProcess,
    /// Wait for its API.
    AwaitApi,
    /// Have it load the machine's snapshot, and resume the machine.
    LoadSnapshot,
    /// Ask it what state the machine is in.
    DescribeInstance,
    /// Kill it.
    Kill(FcProcessState),
}

/// What came of it.
#[derive(Debug)]
#[allow(inconsistent_fields)]
pub enum BootEvent {
    Done,
    /// The network device is there, under the name given.
    TapBuilt(SandboxId),
    /// The directory `dir` could not be prepared.
    FilesFailed { dir: String, err: FileError },
    /// The Function has no root file system.
    NoRootfs(Error),
    /// The configuration could not be written to the path given.
    NotWritten { path: String, err: String },
    /// The machine monitor runs.
    Started(FcProcessState),
    /// It could not be started, and does not run.
    NotStarted(Error),
    /// What the machine monitor says of itself: whether its machine runs, the machine's
    /// name, and all of it as shown.
    Instance { running: bool, id: String, shown: String },
    /// It failed otherwise.
    Failed(String),
}

/// How far it has come.
#[derive(Debug)]
pub enum BootPhase {
    BuildTap,
    EnsureFiles,
    LookupRootfs,
    WriteConfig,
    StartProcess,
    AwaitApi(FcProcessState),
    LoadSnapshot(FcProcessState),
    DescribeInstance(FcProcessState),
    /// It cannot go on, so the machine monitor has to go.
    Kill(FcProcessState, Error),
    Over(Result<FcProcessState, Error>),
}

/// The bringing up of a machine.
#[derive(Debug)]
pub struct Boot {
    /// Whether the machine is a new one, or loaded from its snapshot.
    pub mode: EnsureFilesMode,
    /// The machine's name, as soon as it has one.
    pub vm_id: Option<SandboxId>,
    pub phase: BootPhase,
}

/// The error for a machine of the given mode.
pub open spec fn vm_error(mode: EnsureFilesMode, fault: VmFault) -> Error {
    match mode {
        EnsureFilesMode::Creation => Error::CreateVm(fault),
        EnsureFilesMode::Loading => Error::LoadSnapshot(fault),
    }
}

fn make_vm_error(mode: EnsureFilesMode, fault: VmFault) -> (r: Error)
    ensures
        r == vm_error(mode, fault),
{
    match mode {
        EnsureFilesMode::Creation => Error::CreateVm(fault),
        EnsureFilesMode::Loading => Error::LoadSnapshot(fault),
    }
}

/// The machine monitor that runs in `phase`, and is nobody else's yet.
pub open spec fn monitor(phase: BootPhase) -> Option<FcProcessState> {
    match phase {
        BootPhase::AwaitApi(p) => Some(p),
        BootPhase::LoadSnapshot(p) => Some(p),
        BootPhase::DescribeInstance(p) => Some(p),
        BootPhase::Kill(p, _) => Some(p),
        _ => None,
    }
}

impl Boot {
    /// A machine has a name once its network device is there, and the phases are those of
    /// its mode.
    pub open spec fn wf(self) -> bool {
        match self.phase {
            BootPhase::BuildTap => self.mode is Creation,
            BootPhase::LookupRootfs | BootPhase::WriteConfig | BootPhase::AwaitApi(_) => self.mode
                is Creation && self.vm_id is Some,
            BootPhase::LoadSnapshot(_) => self.mode is Loading && self.vm_id is Some,
            BootPhase::Over(r) => r is Ok ==> self.vm_id is Some,
            _ => self.vm_id is Some,
        }
    }

    /// What is to be done next, unless it is over.
    pub open spec fn pending(self) -> Option<BootAction> {
        match self.phase {
            BootPhase::BuildTap => Some(BootAction::BuildTap),
            BootPhase::EnsureFiles => Some(BootAction::EnsureFiles),
            BootPhase::LookupRootfs => Some(BootAction::LookupRootfs),
            BootPhase::WriteConfig => Some(BootAction::WriteConfig),
            BootPhase::StartProcess => Some(BootAction::StartProcess),
            BootPhase::AwaitApi(_) => Some(BootAction::AwaitApi),
            BootPhase::LoadSnapshot(_) => Some(BootAction::LoadSnapshot),
            BootPhase::DescribeInstance(_) => Some(BootAction::DescribeInstance),
            BootPhase::Kill(p, _) => Some(BootAction::Kill(p)),
            BootPhase::Over(_) => None,
        }
    }

    /// The event is one that can come of the pending action.
    pub open spec fn can_be(self, e: BootEvent) -> bool {
        match self.phase {
            BootPhase::BuildTap => e is TapBuilt || e is Failed,
            BootPhase::EnsureFiles => e is Done || e is FilesFailed || e is Failed,
            BootPhase::LookupRootfs => e is Done || e is NoRootfs,
            BootPhase::WriteConfig => e is Done || e is NotWritten,
            BootPhase::StartProcess => e is Started || e is NotStarted,
            BootPhase::AwaitApi(_) | BootPhase::LoadSnapshot(_) => e is Done || e is Failed,
            BootPhase::DescribeInstance(_) => e is Instance || e is Failed,
            BootPhase::Kill(_, _) => e is Done,
            BootPhase::Over(_) => false,
        }
    }

    /// How it goes on after an event.
    pub open spec fn next(self, e: BootEvent) -> BootPhase {
        match (self.phase, e) {
            (BootPhase::BuildTap, BootEvent::TapBuilt(_)) => BootPhase::EnsureFiles,
            (BootPhase::BuildTap, BootEvent::Failed(err)) => BootPhase::Over(Err(Error::Tap(err))),
            (BootPhase::EnsureFiles, BootEvent::Done) => match self.mode {
                EnsureFilesMode::Creation => BootPhase::LookupRootfs,
                EnsureFilesMode::Loading => BootPhase::StartProcess,
            },
            (BootPhase::EnsureFiles, BootEvent::FilesFailed { dir, err }) => BootPhase::Over(
                Err(vm_error(self.mode, VmFault::Files(dir, err))),
            ),
            (BootPhase::EnsureFiles, BootEvent::Failed(err)) => BootPhase::Over(
                Err(vm_error(self.mode, VmFault::Cause(err))),
            ),
            (BootPhase::LookupRootfs, BootEvent::Done) => BootPhase::WriteConfig,
            (BootPhase::LookupRootfs, BootEvent::NoRootfs(err)) => BootPhase::Over(Err(err)),
            (BootPhase::WriteConfig, BootEvent::Done) => BootPhase::StartProcess,
            (BootPhase::WriteConfig, BootEvent::NotWritten { path, err }) => BootPhase::Over(
                Err(Error::Io { what: IoUse::WriteConfig(path), err }),
            ),
            (BootPhase::StartProcess, BootEvent::Started(p)) => match self.mode {
                EnsureFilesMode::Creation => BootPhase::AwaitApi(p),
                EnsureFilesMode::Loading => BootPhase::LoadSnapshot(p),
            },
            (BootPhase::StartProcess, BootEvent::NotStarted(err)) => BootPhase::Over(Err(err)),
            (BootPhase::AwaitApi(p), BootEvent::Done) => BootPhase::DescribeInstance(p),
            (BootPhase::AwaitApi(p), BootEvent::Failed(err)) => BootPhase::Kill(
                p,
                Error::Io { what: IoUse::AwaitApi, err },
            ),
            (BootPhase::LoadSnapshot(p), BootEvent::Done) => BootPhase::DescribeInstance(p),
            (BootPhase::LoadSnapshot(p), BootEvent::Failed(err)) => BootPhase::Kill(
                p,
                Error::LoadSnapshot(VmFault::Cause(err)),
            ),
            (BootPhase::DescribeInstance(p), BootEvent::Instance { running, id, shown }) => {
                if running && self.vm_id is Some && id@ == self.vm_id->0@ {
                    BootPhase::Over(Ok(p))
                } else {
                    BootPhase::Kill(p, vm_error(self.mode, VmFault::InvalidState(shown)))
                }
            },
            (BootPhase::DescribeInstance(p), BootEvent::Failed(err)) => BootPhase::Kill(
                p,
                vm_error(self.mode, VmFault::Cause(err)),
            ),
            (BootPhase::Kill(_, err), BootEvent::Done) => BootPhase::Over(Err(err)),
            _ => self.phase,
        }
    }

    /// The machine's name after an event.
    pub open spec fn next_vm_id(self, e: BootEvent) -> Option<SandboxId> {
        match (self.phase, e) {
            (BootPhase::BuildTap, BootEvent::TapBuilt(vm_id)) => Some(vm_id),
            _ => self.vm_id,
        }
    }

    /// Starts to make a new machine; its network device has the name given, or is yet to be
    /// built.
    pub fn create(tap: Option<SandboxId>) -> (r: Boot)
        ensures
            r.mode is Creation,
            r.vm_id == tap,
            match tap {
                Some(_) => r.phase is EnsureFiles,
                None => r.phase is BuildTap,
            },
            r.wf(),
    {
        let phase = if tap.is_some() {
            BootPhase::EnsureFiles
        } else {
            BootPhase::BuildTap
        };
        Boot { mode: EnsureFilesMode::Creation, vm_id: tap, phase }
    }

    /// Starts to load a machine, which has to have a snapshot, under the name `vm_id`.
    pub fn load(vm_id: Option<SandboxId>, uvm: &MicroVm) -> (r: Boot)
        requires
            uvm.snapshot is Some ==> vm_id is Some,
        ensures
            r.mode is Loading,
            r.vm_id == vm_id,
            r.phase == if uvm.snapshot is Some {
                BootPhase::EnsureFiles
            } else {
                BootPhase::Over(Err(Error::NoSnapshot(SnapshotUse::Load(uvm.spec_id()))))
            },
            r.wf(),
    {
        let phase = if uvm.snapshot.is_some() {
            BootPhase::EnsureFiles
        } else {
            BootPhase::Over(Err(Error::NoSnapshot(SnapshotUse::Load(uvm.id().clone()))))
        };
        Boot { mode: EnsureFilesMode::Loading, vm_id, phase }
    }

    /// What is to be done next, unless it is over.
    pub fn action(&self) -> (r: Option<BootAction>)
        ensures
            r == self.pending(),
    {
        match &self.phase {
            BootPhase::BuildTap => Some(BootAction::BuildTap),
            BootPhase::EnsureFiles => Some(BootAction::EnsureFiles),
            BootPhase::LookupRootfs => Some(BootAction::LookupRootfs),
            BootPhase::WriteConfig => Some(BootAction::WriteConfig),
            BootPhase::StartProcess => Some(BootAction::StartProcess),
            BootPhase::AwaitApi(_) => Some(BootAction::AwaitApi),
            BootPhase::LoadSnapshot(_) => Some(BootAction::LoadSnapshot),
            BootPhase::DescribeInstance(_) => Some(BootAction::DescribeInstance),
            BootPhase::Kill(p, _) => Some(BootAction::Kill(*p)),
            BootPhase::Over(_) => None,
        }
    }

    /// The machine that runs is the one that was to be brought up.
    fn is_wanted(&self, running: bool, id: &String) -> (r: bool)
        ensures
            r == (running && self.vm_id is Some && id@ == self.vm_id->0@),
    {
        match &self.vm_id {
            Some(vm_id) => running && *id == *vm_id,
            None => false,
        }
    }

    /// Takes what came of the pending action.
    pub fn step(&mut self, e: BootEvent)
        requires
            old(self).wf(),
            old(self).can_be(e),
        ensures
            final(self).mode == old(self).mode,
            final(self).vm_id == old(self).next_vm_id(e),
            final(self).phase == old(self).next(e),
            final(self).wf(),
    {
        let mut phase = BootPhase::EnsureFiles;
        std::mem::swap(&mut phase, &mut self.phase);
        let mode = self.mode;
        self.phase = match (phase, e) {
            (BootPhase::BuildTap, BootEvent::TapBuilt(vm_id)) => {
                self.vm_id = Some(vm_id);
                BootPhase::EnsureFiles
            },
            (BootPhase::BuildTap, BootEvent::Failed(err)) => BootPhase::Over(Err(Error::Tap(err))),
            (BootPhase::EnsureFiles, BootEvent::Done) => match mode {
                EnsureFilesMode::Creation => BootPhase::LookupRootfs,
                EnsureFilesMode::Loading => BootPhase::StartProcess,
            },
            (BootPhase::EnsureFiles, BootEvent::FilesFailed { dir, err }) => BootPhase::Over(
                Err(make_vm_error(mode, VmFault::Files(dir, err))),
            ),
            (BootPhase::EnsureFiles, BootEvent::Failed(err)) => BootPhase::Over(
                Err(make_vm_error(mode, VmFault::Cause(err))),
            ),
            (BootPhase::LookupRootfs, BootEvent::Done) => BootPhase::WriteConfig,
            (BootPhase::LookupRootfs, BootEvent::NoRootfs(err)) => BootPhase::Over(Err(err)),
            (BootPhase::WriteConfig, BootEvent::Done) => BootPhase::StartProcess,
            (BootPhase::WriteConfig, BootEvent::NotWritten { path, err }) => BootPhase::Over(
                Err(Error::Io { what: IoUse::WriteConfig(path), err }),
            ),
            (BootPhase::StartProcess, BootEvent::Started(p)) => match mode {
                EnsureFilesMode::Creation => BootPhase::AwaitApi(p),
                EnsureFilesMode::Loading => BootPhase::LoadSnapshot(p),
            },
            (BootPhase::StartProcess, BootEvent::NotStarted(err)) => BootPhase::Over(Err(err)),
            (BootPhase::AwaitApi(p), BootEvent::Done) => BootPhase::DescribeInstance(p),
            (BootPhase::AwaitApi(p), BootEvent::Failed(err)) => BootPhase::Kill(
                p,
                Error::Io { what: IoUse::AwaitApi, err },
            ),
            (BootPhase::LoadSnapshot(p), BootEvent::Done) => BootPhase::DescribeInstance(p),
            (BootPhase::LoadSnapshot(p), BootEvent::Failed(err)) => BootPhase::Kill(
                p,
                Error::LoadSnapshot(VmFault::Cause(err)),
            ),
            (BootPhase::DescribeInstance(p), BootEvent::Instance { running, id, shown }) => {
                if self.is_wanted(running, &id) {
                    BootPhase::Over(Ok(p))
                } else {
                    BootPhase::Kill(p, make_vm_error(mode, VmFault::InvalidState(shown)))
                }
            },
            (BootPhase::DescribeInstance(p), BootEvent::Failed(err)) => BootPhase::Kill(
                p,
                make_vm_error(mode, VmFault::Cause(err)),
            ),
            (BootPhase::Kill(_, err), BootEvent::Done) => BootPhase::Over(Err(err)),
            (phase, _) => phase,
        };
    }
}

/// A machine is up only if its monitor says that a machine of its name runs.
pub proof fn law_success_is_running(m: Boot, e: BootEvent)
    requires
        m.wf(),
        m.can_be(e),
        m.next(e) is Over,
        m.next(e)->Over_0 is Ok,
    ensures
        e matches BootEvent::Instance { running, id, .. } && running && id@ == m.vm_id->0@,
        monitor(m.phase) == Some(m.next(e)->Over_0->Ok_0),
{
}

/// A machine monitor that was started is handed over or killed: one is never left behind
/// when a machine does not come up.
pub proof fn law_monitor_is_handed_over_or_killed(m: Boot, e: BootEvent)
    requires
        m.wf(),
        m.can_be(e),
    ensures
        e matches BootEvent::Started(p) ==> monitor(m.next(e)) == Some(p),
        monitor(m.phase) matches Some(p) ==> {
            ||| monitor(m.next(e)) == Some(p)
            ||| m.next(e) == BootPhase::Over(Ok(p))
            ||| m.pending() == Some(BootAction::Kill(p)) && m.next(e) is Over
        },
        m.pending() matches Some(BootAction::Kill(_)) ==> m.next(e) matches BootPhase::Over(Err(_)),
{
}

/// What a machine is brought up by if all goes well. A new one has its device built, its
/// directory prepared, its root file system looked up, its configuration written, its monitor
/// started and its API awaited; one that is loaded has its directory prepared, its monitor
/// started and its snapshot loaded. Either is up once its monitor says that it runs, under its
/// name, and the monitor that was started is the one that is handed over.
pub proof fn law_how_a_machine_is_brought_up(m: Boot, e: BootEvent)
    requires
        m.wf(),
        m.can_be(e),
    ensures
        m.phase is BuildTap && e is TapBuilt ==> m.next(e) is EnsureFiles && m.next_vm_id(e)
            == Some(e->TapBuilt_0),
        !(e is TapBuilt) ==> m.next_vm_id(e) == m.vm_id,
        m.phase is EnsureFiles && e is Done && m.mode is Creation ==> m.next(e) is LookupRootfs,
        m.phase is EnsureFiles && e is Done && m.mode is Loading ==> m.next(e) is StartProcess,
        m.phase is LookupRootfs && e is Done ==> m.next(e) is WriteConfig,
        m.phase is WriteConfig && e is Done ==> m.next(e) is StartProcess,
        m.phase is StartProcess && e is Started && m.mode is Creation ==> m.next(e)
            == BootPhase::AwaitApi(e->Started_0),
        m.phase is StartProcess && e is Started && m.mode is Loading ==> m.next(e)
            == BootPhase::LoadSnapshot(e->Started_0),
        m.phase matches BootPhase::AwaitApi(p) ==> (e is Done ==> m.next(e)
            == BootPhase::DescribeInstance(p)),
        m.phase matches BootPhase::LoadSnapshot(p) ==> (e is Done ==> m.next(e)
            == BootPhase::DescribeInstance(p)),
        m.phase matches BootPhase::DescribeInstance(p) ==> (m.next(e) == BootPhase::Over(
            Ok::<_, Error>(p),
        ) <==> (e matches BootEvent::Instance { running, id, .. } && running && m.vm_id is Some
            && id@ == m.vm_id->0@)),
{
}

/// Why a machine does not come up: what failed is told with its cause, and as a failure to make
/// the machine or to load it, as the case is. A monitor that was started is killed before that.
pub proof fn law_why_a_machine_does_not_come_up(m: Boot, e: BootEvent)
    requires
        m.wf(),
        m.can_be(e),
    ensures
        ({
            let is_error = |err: Error, fault: VmFault|
                match m.mode {
                    EnsureFilesMode::Creation => err == Error::CreateVm(fault),
                    EnsureFilesMode::Loading => err == Error::LoadSnapshot(fault),
                };
            let over = m.next(e)->Over_0->Err_0;
            let ends = m.next(e) is Over && m.next(e)->Over_0 is Err;
            let kills = m.next(e) is Kill && Some(m.next(e)->Kill_0) == monitor(m.phase);
            let why = m.next(e)->Kill_1;
            &&& m.phase is BuildTap && e is Failed ==> ends && over == Error::Tap(e->Failed_0)
            &&& m.phase is EnsureFiles && e is FilesFailed ==> ends && is_error(
                over,
                VmFault::Files(e->dir, e->FilesFailed_err),
            )
            &&& m.phase is EnsureFiles && e is Failed ==> ends && is_error(
                over,
                VmFault::Cause(e->Failed_0),
            )
            &&& m.phase is LookupRootfs && e is NoRootfs ==> ends && over == e->NoRootfs_0
            &&& m.phase is WriteConfig && e is NotWritten ==> ends && over == (Error::Io {
                what: IoUse::WriteConfig(e->path),
                err: e->NotWritten_err,
            })
            &&& m.phase is StartProcess && e is NotStarted ==> ends && over == e->NotStarted_0
            &&& m.phase is AwaitApi && e is Failed ==> kills && why == (Error::Io {
                what: IoUse::AwaitApi,
                err: e->Failed_0,
            })
            &&& m.phase is LoadSnapshot && e is Failed ==> kills && why == Error::LoadSnapshot(
                VmFault::Cause(e->Failed_0),
            )
            &&& m.phase is DescribeInstance && e is Failed ==> kills && is_error(
                why,
                VmFault::Cause(e->Failed_0),
            )
            &&& m.phase is DescribeInstance && e is Instance && !(m.next(e) is Over) ==> kills
                && is_error(why, VmFault::InvalidState(e->shown))
            &&& m.phase is Kill ==> ends && over == m.phase->Kill_1
        }),
{
}

/// Each phase has its action, and takes every outcome of it.
pub proof fn law_boot_takes_every_outcome(m: Boot, e: BootEvent)
    ensures
        m.pending() == (match m.phase {
            BootPhase::BuildTap => Some(BootAction::BuildTap),
            BootPhase::EnsureFiles => Some(BootAction::EnsureFiles),
            BootPhase::LookupRootfs => Some(BootAction::LookupRootfs),
            BootPhase::WriteConfig => Some(BootAction::WriteConfig),
            BootPhase::StartProcess => Some(BootAction::StartProcess),
            BootPhase::AwaitApi(_) => Some(BootAction::AwaitApi),
            BootPhase::LoadSnapshot(_) => Some(BootAction::LoadSnapshot),
            BootPhase::DescribeInstance(_) => Some(BootAction::DescribeInstance),
            BootPhase::Kill(p, _) => Some(BootAction::Kill(p)),
            BootPhase::Over(_) => None,
        }),
        m.phase is BuildTap && (e is TapBuilt || e is Failed) ==> m.can_be(e),
        m.phase is EnsureFiles && (e is Done || e is FilesFailed || e is Failed) ==> m.can_be(e),
        m.phase is LookupRootfs && (e is Done || e is NoRootfs) ==> m.can_be(e),
        m.phase is WriteConfig && (e is Done || e is NotWritten) ==> m.can_be(e),
        m.phase is StartProcess && (e is Started || e is NotStarted) ==> m.can_be(e),
        (m.phase is AwaitApi || m.phase is LoadSnapshot) && (e is Done || e is Failed)
            ==> m.can_be(e),
        m.phase is DescribeInstance && (e is Instance || e is Failed) ==> m.can_be(e),
        m.phase is Kill && e is Done ==> m.can_be(e),
{
}

/// How many actions a machine in `phase` needs at most.
pub open spec fn boot_actions_left(phase: BootPhase) -> nat {
    match phase {
        BootPhase::BuildTap => 8,
        BootPhase::EnsureFiles => 7,
        BootPhase::LookupRootfs => 6,
        BootPhase::WriteConfig => 5,
        BootPhase::StartProcess => 4,
        BootPhase::AwaitApi(_) => 3,
        BootPhase::LoadSnapshot(_) => 3,
        BootPhase::DescribeInstance(_) => 2,
        BootPhase::Kill(_, _) => 1,
        BootPhase::Over(_) => 0,
    }
}

/// Bringing a machine up ends, whatever comes.
pub proof fn law_boot_ends(m: Boot, e: BootEvent)
    requires
        m.wf(),
        m.can_be(e),
    ensures
        boot_actions_left(m.next(e)) < boot_actions_left(m.phase),
{
}

} // verus!
