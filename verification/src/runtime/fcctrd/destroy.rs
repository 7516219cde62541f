//! Taking machines down for good.

use vstd::prelude::*;
use vstd::string::*;

use crate::runtime::fcctrd::error::Error;
use crate::runtime::fcctrd::sandbox::MicroVm;
use crate::status::StatusCode;
use crate::text::same;

verus! {

/// The name of a machine's process.
pub const FC_COMM: &'static str = "firecracker";

/// The name of the process that looks after a machine's process.
pub const FCCTRD_SHIM_COMM: &'static str = "containerd-shim";

/// How long stopping a machine may take, in milliseconds.
pub const STOP_VM_TIMEOUT_MS: u64 = 4500;

/// How often it is looked whether the shim has exited, in milliseconds.
pub const SHIM_POLL_INTERVAL_MS: u64 = 100;

/// For how long it is looked whether the shim has exited, in milliseconds.
pub const SHIM_POLL_TIMEOUT_MS: u64 = 1500;

/// How long a shim is given to clean up after it was made to exit, in milliseconds.
pub const CLEAN_UP_DELAY_MS: u64 = 5000;

/// How a machine has to be taken down.
#[derive(Clone, Copy, Debug, PartialEq, Eq, Structural)]
pub enum DestroyWay {
    /// It does not run, and has a snapshot.
    Snapshotted,
    /// It runs, and has no snapshot.
    Idle,
    /// It runs, and has a snapshot: it is shut down first.
    ShutDownFirst,
    /// It neither runs nor has a snapshot.
    Impossible,
}

/// How a machine has to be taken down.
pub fn destroy_way(uvm: &MicroVm) -> (r: DestroyWay)
    ensures
        r == (match (uvm.vm.snapshotted(), uvm.vm.pid is Some) {
            (true, false) => DestroyWay::Snapshotted,
            (false, true) => DestroyWay::Idle,
            (true, true) => DestroyWay::ShutDownFirst,
            (false, false) => DestroyWay::Impossible,
        }),
{
    match (uvm.vm.has_snapshot(), uvm.vm.pid.is_some()) {
        (true, false) => DestroyWay::Snapshotted,
        (false, true) => DestroyWay::Idle,
        (true, true) => DestroyWay::ShutDownFirst,
        (false, false) => DestroyWay::Impossible,
    }
}

/// What came of removing the file system of a container.
#[derive(Clone, Copy, Debug, PartialEq, Eq, Structural)]
pub enum Removal {
    Removed,
    /// It was gone already.
    AlreadyGone,
    Failed,
}

/// What came of removing the file system of a container, given the status of the answer:
/// `None` stands for any other failure.
pub fn snapshot_removal(outcome: Result<(), Option<StatusCode>>) -> (r: Removal)
    ensures
        r == (match outcome {
            Ok(_) => Removal::Removed,
            Err(Some(StatusCode::NotFound)) => Removal::AlreadyGone,
            Err(_) => Removal::Failed,
        }),
{
    match outcome {
        Ok(_) => Removal::Removed,
        Err(Some(StatusCode::NotFound)) => Removal::AlreadyGone,
        Err(_) => Removal::Failed,
    }
}

/// What is to be done next to a machine that runs and has no snapshot.
#[derive(Clone, Copy, Debug, PartialEq, Eq, Structural)]
pub enum IdleAction {
    /// Look at the machine's process.
    StatProcess(u32),
    Resume,
    KillTask,
    DeleteTask,
    DeleteContainer,
    RemoveContainerSnapshot,
    /// Stop the machine within so many milliseconds.
    StopVm(u64),
    /// See whether the machine's process is still there.
    CheckProcess(u32),
    /// Have the machine's process terminate.
    TerminateProcess(u32),
    /// See whether the shim exits, every so many milliseconds and for so many at most.
    PollShim(u32, u64, u64),
    /// Look at the shim.
    StatShim(u32),
    /// Have all processes of the shim's group terminate.
    TerminateGroup(u32),
    /// Wait for so many milliseconds.
    Sleep(u64),
}

/// What came of it.
#[derive(Debug)]
pub enum IdleEvent {
    Done,
    Failed(String),
    /// The process is there; its name, its parent and its group.
    Process { comm: String, ppid: u32, pgrp: u32 },
    /// The process could not be looked at.
    NoProcess(String),
    /// Whether it is so: the process is there, or the shim has exited.
    Answer(bool),
}

/// How far it has come.
#[derive(Debug)]
pub enum IdlePhase {
    StatProcess,
    Resume,
    KillTask,
    DeleteTask,
    DeleteContainer,
    RemoveContainerSnapshot,
    StopVm,
    CheckProcess,
    TerminateProcess,
    PollShim,
    StatShim,
    TerminateGroup(u32),
    Sleep,
    Over(Result<(), Error>),
}

/// The taking down of a machine that runs and has no snapshot.
#[derive(Debug)]
pub struct DestroyIdle {
    /// The machine's process.
    pub pid: u32,
    /// The shim, as soon as it is known.
    pub ppid: u32,
    /// The task in the machine was deleted.
    pub task_deleted: bool,
    pub phase: IdlePhase,
}

impl DestroyIdle {
    /// What is to be done next, unless it is over.
    pub open spec fn pending(self) -> Option<IdleAction> {
        match self.phase {
            IdlePhase::StatProcess => Some(IdleAction::StatProcess(self.pid)),
            IdlePhase::Resume => Some(IdleAction::Resume),
            IdlePhase::KillTask => Some(IdleAction::KillTask),
            IdlePhase::DeleteTask => Some(IdleAction::DeleteTask),
            IdlePhase::DeleteContainer => Some(IdleAction::DeleteContainer),
            IdlePhase::RemoveContainerSnapshot => Some(IdleAction::RemoveContainerSnapshot),
            IdlePhase::StopVm => Some(IdleAction::StopVm(STOP_VM_TIMEOUT_MS)),
            IdlePhase::CheckProcess => Some(IdleAction::CheckProcess(self.pid)),
            IdlePhase::TerminateProcess => Some(IdleAction::TerminateProcess(self.pid)),
            IdlePhase::PollShim => Some(
                IdleAction::PollShim(self.ppid, SHIM_POLL_INTERVAL_MS, SHIM_POLL_TIMEOUT_MS),
            ),
            IdlePhase::StatShim => Some(IdleAction::StatShim(self.ppid)),
            IdlePhase::TerminateGroup(pgrp) => Some(IdleAction::TerminateGroup(pgrp)),
            IdlePhase::Sleep => Some(IdleAction::Sleep(CLEAN_UP_DELAY_MS)),
            IdlePhase::Over(_) => None,
        }
    }

    /// The event is one that can come of the pending action; a machine's process is taken to
    /// be one, and a shim's group to have a number.
    pub open spec fn can_be(self, e: IdleEvent) -> bool {
        match self.phase {
            IdlePhase::StatProcess => match e {
                IdleEvent::Process { comm, .. } => comm@ == FC_COMM@,
                IdleEvent::NoProcess(_) | IdleEvent::Failed(_) => true,
                _ => false,
            },
            IdlePhase::StatShim => match e {
                IdleEvent::Process { comm, pgrp, .. } => comm@ == FCCTRD_SHIM_COMM@ ==> pgrp != 0,
                IdleEvent::NoProcess(_) | IdleEvent::Failed(_) => true,
                _ => false,
            },
            IdlePhase::CheckProcess | IdlePhase::PollShim => e is Answer,
            IdlePhase::Sleep => e is Done,
            IdlePhase::Over(_) => false,
            _ => e is Done || e is Failed,
        }
    }

    /// How it goes on after an event.
    ///
    /// Resuming the machine and killing its task may fail. The container has to go. A machine
    /// whose task is deleted is stopped, another one's process is terminated; whether that
    /// succeeds, the shim tells by exiting. If it does not, its group is terminated, and if
    /// it cannot even be looked at it is taken to be gone. In either case it is given time to
    /// clean up.
    pub open spec fn next(self, e: IdleEvent) -> IdlePhase {
        match (self.phase, e) {
            (IdlePhase::StatProcess, IdleEvent::Process { .. }) => IdlePhase::Resume,
            (IdlePhase::StatProcess, IdleEvent::NoProcess(err)) => IdlePhase::Over(
                Err(Error::Process(err)),
            ),
            (IdlePhase::StatProcess, IdleEvent::Failed(err)) => IdlePhase::Over(
                Err(Error::Process(err)),
            ),
            (IdlePhase::Resume, _) => IdlePhase::KillTask,
            (IdlePhase::KillTask, _) => IdlePhase::DeleteTask,
            (IdlePhase::DeleteTask, _) => IdlePhase::DeleteContainer,
            (IdlePhase::DeleteContainer, IdleEvent::Failed(err)) => IdlePhase::Over(
                Err(Error::DeleteContainer(err)),
            ),
            (IdlePhase::DeleteContainer, _) => IdlePhase::RemoveContainerSnapshot,
            (IdlePhase::RemoveContainerSnapshot, _) => if self.task_deleted {
                IdlePhase::StopVm
            } else {
                IdlePhase::CheckProcess
            },
            (IdlePhase::StopVm, _) => IdlePhase::PollShim,
            (IdlePhase::CheckProcess, IdleEvent::Answer(exists)) => if exists {
                IdlePhase::TerminateProcess
            } else {
                IdlePhase::PollShim
            },
            (IdlePhase::TerminateProcess, _) => IdlePhase::PollShim,
            (IdlePhase::PollShim, IdleEvent::Answer(exited)) => if exited {
                IdlePhase::Over(Ok(()))
            } else {
                IdlePhase::StatShim
            },
            (IdlePhase::StatShim, IdleEvent::Process { comm, pgrp, .. }) => if comm@
                == FCCTRD_SHIM_COMM@ {
                IdlePhase::TerminateGroup(pgrp)
            } else {
                IdlePhase::Over(Err(Error::DestroyVm))
            },
            (IdlePhase::StatShim, IdleEvent::NoProcess(_)) => IdlePhase::Sleep,
            (IdlePhase::StatShim, _) => IdlePhase::Over(Err(Error::DestroyVm)),
            (IdlePhase::TerminateGroup(_), IdleEvent::Done) => IdlePhase::Sleep,
            (IdlePhase::TerminateGroup(_), _) => IdlePhase::Over(Err(Error::DestroyVm)),
            (IdlePhase::Sleep, _) => IdlePhase::Over(Ok(())),
            _ => self.phase,
        }
    }

    /// Starts to take down a machine, given its process.
    pub fn new(pid: u32) -> (r: DestroyIdle)
        ensures
            r.pid == pid,
            !r.task_deleted,
            r.phase is StatProcess,
    {
        DestroyIdle { pid, ppid: 0, task_deleted: false, phase: IdlePhase::StatProcess }
    }

    /// What is to be done next, unless it is over.
    pub fn action(&self) -> (r: Option<IdleAction>)
        ensures
            r == self.pending(),
    {
        match &self.phase {
            IdlePhase::StatProcess => Some(IdleAction::StatProcess(self.pid)),
            IdlePhase::Resume => Some(IdleAction::Resume),
            IdlePhase::KillTask => Some(IdleAction::KillTask),
            IdlePhase::DeleteTask => Some(IdleAction::DeleteTask),
            IdlePhase::DeleteContainer => Some(IdleAction::DeleteContainer),
            IdlePhase::RemoveContainerSnapshot => Some(IdleAction::RemoveContainerSnapshot),
            IdlePhase::StopVm => Some(IdleAction::StopVm(STOP_VM_TIMEOUT_MS)),
            IdlePhase::CheckProcess => Some(IdleAction::CheckProcess(self.pid)),
            IdlePhase::TerminateProcess => Some(IdleAction::TerminateProcess(self.pid)),
            IdlePhase::PollShim => Some(
                IdleAction::PollShim(self.ppid, SHIM_POLL_INTERVAL_MS, SHIM_POLL_TIMEOUT_MS),
            ),
            IdlePhase::StatShim => Some(IdleAction::StatShim(self.ppid)),
            IdlePhase::TerminateGroup(pgrp) => Some(IdleAction::TerminateGroup(*pgrp)),
            IdlePhase::Sleep => Some(IdleAction::Sleep(CLEAN_UP_DELAY_MS)),
            IdlePhase::Over(_) => None,
        }
    }

    /// Takes what came of the pending action.
    pub fn step(&mut self, e: IdleEvent)
        requires
            old(self).can_be(e),
        ensures
            final(self).pid == old(self).pid,
            final(self).ppid == (match (old(self).phase, e) {
                (IdlePhase::StatProcess, IdleEvent::Process { ppid, .. }) => ppid,
                _ => old(self).ppid,
            }),
            final(self).task_deleted == (if old(self).phase is DeleteTask {
                e is Done
            } else {
                old(self).task_deleted
            }),
            final(self).phase == old(self).next(e),
            is_idle_step(*old(self), e, *final(self)),
    {
        let mut phase = IdlePhase::Resume;
        std::mem::swap(&mut phase, &mut self.phase);
        self.phase = match (phase, e) {
            (IdlePhase::StatProcess, IdleEvent::Process { ppid, .. }) => {
                self.ppid = ppid;
                IdlePhase::Resume
            },
            (IdlePhase::StatProcess, IdleEvent::NoProcess(err)) => IdlePhase::Over(
                Err(Error::Process(err)),
            ),
            (IdlePhase::StatProcess, IdleEvent::Failed(err)) => IdlePhase::Over(
                Err(Error::Process(err)),
            ),
            (IdlePhase::Resume, _) => IdlePhase::KillTask,
            (IdlePhase::KillTask, _) => IdlePhase::DeleteTask,
            (IdlePhase::DeleteTask, IdleEvent::Done) => {
                self.task_deleted = true;
                IdlePhase::DeleteContainer
            },
            (IdlePhase::DeleteTask, _) => {
                self.task_deleted = false;
                IdlePhase::DeleteContainer
            },
            (IdlePhase::DeleteContainer, IdleEvent::Failed(err)) => IdlePhase::Over(
                Err(Error::DeleteContainer(err)),
            ),
            (IdlePhase::DeleteContainer, _) => IdlePhase::RemoveContainerSnapshot,
            (IdlePhase::RemoveContainerSnapshot, _) => if self.task_deleted {
                IdlePhase::StopVm
            } else {
                IdlePhase::CheckProcess
            },
            (IdlePhase::StopVm, _) => IdlePhase::PollShim,
            (IdlePhase::CheckProcess, IdleEvent::Answer(exists)) => if exists {
                IdlePhase::TerminateProcess
            } else {
                IdlePhase::PollShim
            },
            (IdlePhase::TerminateProcess, _) => IdlePhase::PollShim,
            (IdlePhase::PollShim, IdleEvent::Answer(exited)) => if exited {
                IdlePhase::Over(Ok(()))
            } else {
                IdlePhase::StatShim
            },
            (IdlePhase::StatShim, IdleEvent::Process { comm, pgrp, .. }) => if same(
                comm.as_str(),
                FCCTRD_SHIM_COMM,
            ) {
                IdlePhase::TerminateGroup(pgrp)
            } else {
                IdlePhase::Over(Err(Error::DestroyVm))
            },
            (IdlePhase::StatShim, IdleEvent::NoProcess(_)) => IdlePhase::Sleep,
            (IdlePhase::StatShim, _) => IdlePhase::Over(Err(Error::DestroyVm)),
            (IdlePhase::TerminateGroup(_), IdleEvent::Done) => IdlePhase::Sleep,
            (IdlePhase::TerminateGroup(_), _) => IdlePhase::Over(Err(Error::DestroyVm)),
            (IdlePhase::Sleep, _) => IdlePhase::Over(Ok(())),
            (phase, _) => phase,
        };
    }
}

/// The network device of a machine is free again only if the shim was seen to exit, or was
/// given the time to clean up after its group was terminated or it was found to be gone.
pub proof fn law_success_means_the_shim_is_gone(m: DestroyIdle, e: IdleEvent)
    requires
        m.can_be(e),
    ensures
        m.next(e) == IdlePhase::Over(Ok(())) ==> m.phase is Sleep || (m.phase is PollShim && e
            == IdleEvent::Answer(true)),
        m.next(e) is Sleep ==> (m.phase is TerminateGroup && e is Done) || (m.phase is StatShim
            && e is NoProcess),
{
}

/// No group is terminated but that of a process that goes by the shim's name, and no process
/// but the machine's own, and that only if its task could not be deleted.
pub proof fn law_only_own_processes_are_terminated(m: DestroyIdle, e: IdleEvent)
    requires
        m.can_be(e),
    ensures
        m.next(e) matches IdlePhase::TerminateGroup(g) ==> e matches IdleEvent::Process {
            comm,
            pgrp,
            ..
        } && comm@ == FCCTRD_SHIM_COMM@ && pgrp == g && g != 0,
        m.next(e) is CheckProcess ==> !m.task_deleted,
        m.next(e) is TerminateProcess ==> m.phase is CheckProcess && e == IdleEvent::Answer(true),
        m.next(e) is StopVm ==> m.task_deleted,
{
}

/// What each action of taking a machine down leads to. The machine's process has to be there,
/// and its container has to go; neither resuming the machine, nor its task, nor the container's
/// file system can stop that. Then the machine is stopped if its task was deleted, and its
/// process is terminated otherwise if it is there; and the shim is given the time to exit. If
/// it does not, its group is terminated if it can be found, and it is given time to clean up.
pub proof fn law_how_a_machine_is_taken_down(m: DestroyIdle, e: IdleEvent)
    requires
        m.can_be(e),
    ensures
        m.phase is StatProcess ==> match e {
            IdleEvent::Process { .. } => m.next(e) is Resume,
            IdleEvent::NoProcess(err) => m.next(e) == IdlePhase::Over(
                Err::<(), _>(Error::Process(err)),
            ),
            IdleEvent::Failed(err) => m.next(e) == IdlePhase::Over(
                Err::<(), _>(Error::Process(err)),
            ),
            _ => false,
        },
        m.phase is Resume ==> m.next(e) is KillTask,
        m.phase is KillTask ==> m.next(e) is DeleteTask,
        m.phase is DeleteTask ==> m.next(e) is DeleteContainer,
        m.phase is DeleteContainer ==> match e {
            IdleEvent::Failed(err) => m.next(e) == IdlePhase::Over(
                Err::<(), _>(Error::DeleteContainer(err)),
            ),
            _ => m.next(e) is RemoveContainerSnapshot,
        },
        m.phase is RemoveContainerSnapshot ==> if m.task_deleted {
            m.next(e) is StopVm
        } else {
            m.next(e) is CheckProcess
        },
        m.phase is StopVm || m.phase is TerminateProcess ==> m.next(e) is PollShim,
        m.phase is CheckProcess ==> (e == IdleEvent::Answer(true) ==> m.next(e) is TerminateProcess)
            && (e == IdleEvent::Answer(false) ==> m.next(e) is PollShim),
        m.phase is PollShim ==> (e == IdleEvent::Answer(true) ==> m.next(e) == IdlePhase::Over(
            Ok(()),
        )) && (e == IdleEvent::Answer(false) ==> m.next(e) is StatShim),
        m.phase is StatShim ==> match e {
            IdleEvent::Process { comm, pgrp, .. } => if comm@ == "containerd-shim"@ {
                m.next(e) == IdlePhase::TerminateGroup(pgrp)
            } else {
                m.next(e) == IdlePhase::Over(Err::<(), _>(Error::DestroyVm))
            },
            IdleEvent::NoProcess(_) => m.next(e) is Sleep,
            _ => m.next(e) == IdlePhase::Over(Err::<(), _>(Error::DestroyVm)),
        },
        m.phase is TerminateGroup ==> if e is Done {
            m.next(e) is Sleep
        } else {
            m.next(e) == IdlePhase::Over(Err::<(), _>(Error::DestroyVm))
        },
        m.phase is Sleep ==> m.next(e) == IdlePhase::Over(Ok(())),
{
}

/// Every outcome of an action can be taken, but for the process of a machine not being one, and
/// for a shim in no group.
pub proof fn law_taking_down_takes_every_outcome(m: DestroyIdle, e: IdleEvent)
    ensures
        m.phase is StatProcess && (e is NoProcess || e is Failed || (e matches IdleEvent::Process {
            comm,
            ..
        } && comm@ == "firecracker"@)) ==> m.can_be(e),
        m.phase is StatShim && (e is NoProcess || e is Failed || (e matches IdleEvent::Process {
            comm,
            pgrp,
            ..
        } && (pgrp != 0 || comm@ != "containerd-shim"@))) ==> m.can_be(e),
        (m.phase is CheckProcess || m.phase is PollShim) && e is Answer ==> m.can_be(e),
        (m.phase is Resume || m.phase is KillTask || m.phase is DeleteTask || m.phase
            is DeleteContainer || m.phase is RemoveContainerSnapshot || m.phase is StopVm || m.phase
            is TerminateProcess || m.phase is TerminateGroup) && (e is Done || e is Failed)
            ==> m.can_be(e),
        m.phase is Sleep && e is Done ==> m.can_be(e),
        m.pending() == (match m.phase {
            IdlePhase::StatProcess => Some(IdleAction::StatProcess(m.pid)),
            IdlePhase::StopVm => Some(IdleAction::StopVm(4500)),
            IdlePhase::CheckProcess => Some(IdleAction::CheckProcess(m.pid)),
            IdlePhase::TerminateProcess => Some(IdleAction::TerminateProcess(m.pid)),
            IdlePhase::PollShim => Some(IdleAction::PollShim(m.ppid, 100, 1500)),
            IdlePhase::StatShim => Some(IdleAction::StatShim(m.ppid)),
            IdlePhase::TerminateGroup(pgrp) => Some(IdleAction::TerminateGroup(pgrp)),
            IdlePhase::Sleep => Some(IdleAction::Sleep(5000)),
            IdlePhase::Resume => Some(IdleAction::Resume),
            IdlePhase::KillTask => Some(IdleAction::KillTask),
            IdlePhase::DeleteTask => Some(IdleAction::DeleteTask),
            IdlePhase::DeleteContainer => Some(IdleAction::DeleteContainer),
            IdlePhase::RemoveContainerSnapshot => Some(IdleAction::RemoveContainerSnapshot),
            IdlePhase::Over(_) => None,
        }),
{
}

/// How many actions are left at most.
pub open spec fn idle_actions_left(phase: IdlePhase) -> nat {
    match phase {
        IdlePhase::StatProcess => 12,
        IdlePhase::Resume => 11,
        IdlePhase::KillTask => 10,
        IdlePhase::DeleteTask => 9,
        IdlePhase::DeleteContainer => 8,
        IdlePhase::RemoveContainerSnapshot => 7,
        IdlePhase::CheckProcess => 6,
        IdlePhase::StopVm => 5,
        IdlePhase::TerminateProcess => 5,
        IdlePhase::PollShim => 4,
        IdlePhase::StatShim => 3,
        IdlePhase::TerminateGroup(_) => 2,
        IdlePhase::Sleep => 1,
        IdlePhase::Over(_) => 0,
    }
}

/// Taking a machine down ends, whatever comes.
pub proof fn law_destruction_ends(m: DestroyIdle, e: IdleEvent)
    requires
        m.can_be(e),
    ensures
        idle_actions_left(m.next(e)) < idle_actions_left(m.phase),
{
}

/// What is to be done next to a machine that has a snapshot and does not run.
#[derive(Clone, Copy, Debug, PartialEq, Eq, Structural)]
pub enum SnapshottedAction {
    DeleteContainer,
    RemoveContainerSnapshot,
    /// Remove both files of the snapshot.
    UnlinkFiles,
}

/// How far it has come.
#[derive(Debug)]
pub enum SnapshottedPhase {
    DeleteContainer,
    RemoveContainerSnapshot,
    UnlinkFiles,
    Over(Result<(), Error>),
}

/// The taking down of a machine that has a snapshot and does not run.
#[derive(Debug)]
pub struct DestroySnapshotted {
    pub phase: SnapshottedPhase,
}

impl DestroySnapshotted {
    /// What is to be done next, unless it is over.
    pub open spec fn pending(self) -> Option<SnapshottedAction> {
        match self.phase {
            SnapshottedPhase::DeleteContainer => Some(SnapshottedAction::DeleteContainer),
            SnapshottedPhase::RemoveContainerSnapshot => Some(
                SnapshottedAction::RemoveContainerSnapshot,
            ),
            SnapshottedPhase::UnlinkFiles => Some(SnapshottedAction::UnlinkFiles),
            SnapshottedPhase::Over(_) => None,
        }
    }

    /// How it goes on after what came of the pending action. The container has to go; all
    /// else is done as far as possible.
    pub open spec fn next(self, outcome: Result<(), String>) -> SnapshottedPhase {
        match (self.phase, outcome) {
            (SnapshottedPhase::DeleteContainer, Ok(_)) => SnapshottedPhase::RemoveContainerSnapshot,
            (SnapshottedPhase::DeleteContainer, Err(err)) => SnapshottedPhase::Over(
                Err(Error::DeleteContainer(err)),
            ),
            (SnapshottedPhase::RemoveContainerSnapshot, _) => SnapshottedPhase::UnlinkFiles,
            (SnapshottedPhase::UnlinkFiles, _) => SnapshottedPhase::Over(Ok(())),
            (SnapshottedPhase::Over(r), _) => SnapshottedPhase::Over(r),
        }
    }

    pub fn new() -> (r: DestroySnapshotted)
        ensures
            r.phase is DeleteContainer,
    {
        DestroySnapshotted { phase: SnapshottedPhase::DeleteContainer }
    }

    /// What is to be done next, unless it is over.
    pub fn action(&self) -> (r: Option<SnapshottedAction>)
        ensures
            r == self.pending(),
    {
        match &self.phase {
            SnapshottedPhase::DeleteContainer => Some(SnapshottedAction::DeleteContainer),
            SnapshottedPhase::RemoveContainerSnapshot => Some(
                SnapshottedAction::RemoveContainerSnapshot,
            ),
            SnapshottedPhase::UnlinkFiles => Some(SnapshottedAction::UnlinkFiles),
            SnapshottedPhase::Over(_) => None,
        }
    }

    /// Takes what came of the pending action.
    pub fn step(&mut self, outcome: Result<(), String>)
        ensures
            final(self).phase == old(self).next(outcome),
    {
        let mut phase = SnapshottedPhase::DeleteContainer;
        std::mem::swap(&mut phase, &mut self.phase);
        self.phase = match (phase, outcome) {
            (SnapshottedPhase::DeleteContainer, Ok(_)) => SnapshottedPhase::RemoveContainerSnapshot,
            (SnapshottedPhase::DeleteContainer, Err(err)) => SnapshottedPhase::Over(
                Err(Error::DeleteContainer(err)),
            ),
            (SnapshottedPhase::RemoveContainerSnapshot, _) => SnapshottedPhase::UnlinkFiles,
            (SnapshottedPhase::UnlinkFiles, _) => SnapshottedPhase::Over(Ok(())),
            (SnapshottedPhase::Over(r), _) => SnapshottedPhase::Over(r),
        };
    }
}

/// The container of a machine that does not run has to go, and the error is told if it does
/// not; all else is done as far as possible. Once the container is gone, so are the container's
/// file system and the snapshot's files in turn, and the machine.
pub proof fn law_how_a_snapshot_is_taken_down(
    m: DestroySnapshotted,
    first: Result<(), String>,
    second: Result<(), String>,
    third: Result<(), String>,
)
    requires
        m.phase is DeleteContainer,
    ensures
        m.pending() == Some(SnapshottedAction::DeleteContainer),
        first matches Err(err) ==> m.next(first) == SnapshottedPhase::Over(
            Err::<(), _>(Error::DeleteContainer(err)),
        ),
        first is Ok ==> {
            let removing = DestroySnapshotted { phase: m.next(first) };
            let unlinking = DestroySnapshotted { phase: removing.next(second) };
            &&& removing.pending() == Some(SnapshottedAction::RemoveContainerSnapshot)
            &&& unlinking.pending() == Some(SnapshottedAction::UnlinkFiles)
            &&& unlinking.next(third) == SnapshottedPhase::Over(Ok(()))
        },
{
}

/// `after` is what becomes of taking a machine down by an event: what is known of the machine's
/// parent comes from its process, and whether its task is gone from deleting it.
pub open spec fn is_idle_step(m: DestroyIdle, e: IdleEvent, after: DestroyIdle) -> bool {
    &&& after.phase == m.next(e)
    &&& after.pid == m.pid
    &&& after.ppid == if m.phase is StatProcess && e is Process {
        e->Process_ppid
    } else {
        m.ppid
    }
    &&& after.task_deleted == if m.phase is DeleteTask {
        e is Done
    } else {
        m.task_deleted
    }
}

/// A machine is stopped exactly if deleting its task succeeded, whatever came of removing the
/// container's file system; if deleting the task failed, it is seen whether its process is there.
/// `ms[i]` is the taking down before the event `es[i]`.
pub proof fn law_task_decides_how_a_machine_ends(ms: Seq<DestroyIdle>, es: Seq<IdleEvent>)
    requires
        ms.len() == 4,
        es.len() == 3,
        forall|i: int| 0 <= i < es.len() ==> is_idle_step(ms[i], #[trigger] es[i], ms[i + 1]),
        forall|i: int| 0 <= i < es.len() ==> ms[i].can_be(#[trigger] es[i]),
        ms[0].phase is DeleteTask,
        es[1] is Done,
    ensures
        es[0] is Done ==> ms[3].phase is StopVm,
        es[0] is Failed ==> ms[3].phase is CheckProcess,
        ms[3].pid == ms[0].pid,
        ms[3].ppid == ms[0].ppid,
{
    assert(is_idle_step(ms[0], es[0], ms[1]));
    assert(is_idle_step(ms[1], es[1], ms[2]));
    assert(is_idle_step(ms[2], es[2], ms[3]));
    assert(ms[0].can_be(es[0]));
}

/// The shim that is waited for, looked at and terminated is the parent of the machine's process, as
/// it was found at first.
pub proof fn law_shim_is_the_parent(m: DestroyIdle, e: IdleEvent, after: DestroyIdle)
    requires
        m.can_be(e),
        is_idle_step(m, e, after),
    ensures
        m.phase is StatProcess ==> (e matches IdleEvent::Process { ppid, .. } ==> after.ppid
            == ppid),
        !(m.phase is StatProcess) ==> after.ppid == m.ppid,
        after.phase is PollShim ==> (after.pending() matches Some(IdleAction::PollShim(pid, _, _))
            && pid == after.ppid),
        after.phase is StatShim ==> after.pending() == Some(IdleAction::StatShim(after.ppid)),
{
}

} // verus!
