//! Making a machine with a container in it.

use vstd::prelude::*;

use crate::runtime::fcctrd::error::Error;

verus! {

/// What is to be done next.
#[derive(Clone, Copy, Debug, PartialEq, Eq, Structural)]
pub enum CreateAction {
    BuildTap,
    CreateVm,
    CreateContainer,
    /// Prepare the container's file system.
    PrepareSnapshot,
    CreateTask,
    StartTask,
    DeleteContainer,
    StopVm,
}

/// What came of it.
#[derive(Debug)]
pub enum CreateEvent {
    Done,
    Failed(String),
}

/// How far it has come.
#[derive(Debug)]
pub enum CreatePhase {
    BuildTap,
    CreateVm,
    CreateContainer,
    PrepareSnapshot,
    CreateTask,
    StartTask,
    /// It cannot go on, so the container has to go.
    DeleteContainer(Error),
    /// It cannot go on, so the machine has to go.
    StopVm(Error),
    Over(Result<(), Error>),
}

/// The making of a machine.
#[derive(Debug)]
pub struct Create {
    pub phase: CreatePhase,
}

/// There is a machine that nobody else knows of.
pub open spec fn vm_stands(phase: CreatePhase) -> bool {
    match phase {
        CreatePhase::BuildTap | CreatePhase::CreateVm | CreatePhase::Over(_) => false,
        _ => true,
    }
}

/// There is a container that nobody else knows of.
pub open spec fn container_stands(phase: CreatePhase) -> bool {
    match phase {
        CreatePhase::PrepareSnapshot
        | CreatePhase::CreateTask
        | CreatePhase::StartTask
        | CreatePhase::DeleteContainer(_) => true,
        _ => false,
    }
}

impl Create {
    /// What is to be done next, unless it is over.
    pub open spec fn pending(self) -> Option<CreateAction> {
        match self.phase {
            CreatePhase::BuildTap => Some(CreateAction::BuildTap),
            CreatePhase::CreateVm => Some(CreateAction::CreateVm),
            CreatePhase::CreateContainer => Some(CreateAction::CreateContainer),
            CreatePhase::PrepareSnapshot => Some(CreateAction::PrepareSnapshot),
            CreatePhase::CreateTask => Some(CreateAction::CreateTask),
            CreatePhase::StartTask => Some(CreateAction::StartTask),
            CreatePhase::DeleteContainer(_) => Some(CreateAction::DeleteContainer),
            CreatePhase::StopVm(_) => Some(CreateAction::StopVm),
            CreatePhase::Over(_) => None,
        }
    }

    /// How it goes on after an event. Whether a container or a machine that has to go does
    /// go is not looked at. A task that does not start leaves all as it is.
    pub open spec fn next(self, e: CreateEvent) -> CreatePhase {
        match (self.phase, e) {
            (CreatePhase::BuildTap, CreateEvent::Done) => CreatePhase::CreateVm,
            (CreatePhase::BuildTap, CreateEvent::Failed(err)) => CreatePhase::Over(
                Err(Error::Tap(err)),
            ),
            (CreatePhase::CreateVm, CreateEvent::Done) => CreatePhase::CreateContainer,
            (CreatePhase::CreateVm, CreateEvent::Failed(err)) => CreatePhase::Over(
                Err(Error::CreateVm(err)),
            ),
            (CreatePhase::CreateContainer, CreateEvent::Done) => CreatePhase::PrepareSnapshot,
            (CreatePhase::CreateContainer, CreateEvent::Failed(err)) => CreatePhase::StopVm(
                Error::CreateContainer(err),
            ),
            (CreatePhase::PrepareSnapshot, CreateEvent::Done) => CreatePhase::CreateTask,
            (CreatePhase::PrepareSnapshot, CreateEvent::Failed(err)) =>
                CreatePhase::DeleteContainer(Error::PrepareContainerSnapshot(err)),
            (CreatePhase::CreateTask, CreateEvent::Done) => CreatePhase::StartTask,
            (CreatePhase::CreateTask, CreateEvent::Failed(err)) => CreatePhase::DeleteContainer(
                Error::CreateTask(err),
            ),
            (CreatePhase::StartTask, CreateEvent::Done) => CreatePhase::Over(Ok(())),
            (CreatePhase::StartTask, CreateEvent::Failed(err)) => CreatePhase::Over(
                Err(Error::StartTask(err)),
            ),
            (CreatePhase::DeleteContainer(err), _) => CreatePhase::StopVm(err),
            (CreatePhase::StopVm(err), _) => CreatePhase::Over(Err(err)),
            (CreatePhase::Over(r), _) => CreatePhase::Over(r),
        }
    }

    /// Starts to make a machine; its network device is there, or is yet to be built.
    pub fn new(tap_is_built: bool) -> (r: Create)
        ensures
            r.phase == if tap_is_built {
                CreatePhase::CreateVm
            } else {
                CreatePhase::BuildTap
            },
    {
        Create {
            phase: if tap_is_built {
                CreatePhase::CreateVm
            } else {
                CreatePhase::BuildTap
            },
        }
    }

    /// What is to be done next, unless it is over.
    pub fn action(&self) -> (r: Option<CreateAction>)
        ensures
            r == self.pending(),
    {
        match &self.phase {
            CreatePhase::BuildTap => Some(CreateAction::BuildTap),
            CreatePhase::CreateVm => Some(CreateAction::CreateVm),
            CreatePhase::CreateContainer => Some(CreateAction::CreateContainer),
            CreatePhase::PrepareSnapshot => Some(CreateAction::PrepareSnapshot),
            CreatePhase::CreateTask => Some(CreateAction::CreateTask),
            CreatePhase::StartTask => Some(CreateAction::StartTask),
            CreatePhase::DeleteContainer(_) => Some(CreateAction::DeleteContainer),
            CreatePhase::StopVm(_) => Some(CreateAction::StopVm),
            CreatePhase::Over(_) => None,
        }
    }

    /// Takes what came of the pending action.
    pub fn step(&mut self, e: CreateEvent)
        ensures
            final(self).phase == old(self).next(e),
    {
        let mut phase = CreatePhase::BuildTap;
        std::mem::swap(&mut phase, &mut self.phase);
        self.phase = match (phase, e) {
            (CreatePhase::BuildTap, CreateEvent::Done) => CreatePhase::CreateVm,
            (CreatePhase::BuildTap, CreateEvent::Failed(err)) => CreatePhase::Over(
                Err(Error::Tap(err)),
            ),
            (CreatePhase::CreateVm, CreateEvent::Done) => CreatePhase::CreateContainer,
            (CreatePhase::CreateVm, CreateEvent::Failed(err)) => CreatePhase::Over(
                Err(Error::CreateVm(err)),
            ),
            (CreatePhase::CreateContainer, CreateEvent::Done) => CreatePhase::PrepareSnapshot,
            (CreatePhase::CreateContainer, CreateEvent::Failed(err)) => CreatePhase::StopVm(
                Error::CreateContainer(err),
            ),
            (CreatePhase::PrepareSnapshot, CreateEvent::Done) => CreatePhase::CreateTask,
            (CreatePhase::PrepareSnapshot, CreateEvent::Failed(err)) =>
                CreatePhase::DeleteContainer(Error::PrepareContainerSnapshot(err)),
            (CreatePhase::CreateTask, CreateEvent::Done) => CreatePhase::StartTask,
            (CreatePhase::CreateTask, CreateEvent::Failed(err)) => CreatePhase::DeleteContainer(
                Error::CreateTask(err),
            ),
            (CreatePhase::StartTask, CreateEvent::Done) => CreatePhase::Over(Ok(())),
            (CreatePhase::StartTask, CreateEvent::Failed(err)) => CreatePhase::Over(
                Err(Error::StartTask(err)),
            ),
            (CreatePhase::DeleteContainer(err), _) => CreatePhase::StopVm(err),
            (CreatePhase::StopVm(err), _) => CreatePhase::Over(Err(err)),
            (CreatePhase::Over(r), _) => CreatePhase::Over(r),
        };
    }
}

/// A machine that was made is stopped, and a container deleted before that, when it cannot go
/// on; the only failure that leaves them is that of the task that was to start.
pub proof fn law_failure_cleans_up(m: Create, e: CreateEvent)
    requires
        m.pending() is Some,
    ensures
        vm_stands(m.phase) && !vm_stands(m.next(e)) ==> m.phase is StopVm || m.phase is StartTask,
        container_stands(m.phase) && !container_stands(m.next(e)) ==> m.phase is DeleteContainer
            || m.phase is StartTask,
        m.next(e) is StopVm ==> !container_stands(m.next(e)) && (m.phase is DeleteContainer
            || m.phase is CreateContainer),
        m.next(e) == CreatePhase::Over(Ok(())) ==> m.phase is StartTask && e is Done,
{
}

/// The phase that carries on after one in which all went well.
pub open spec fn comes_before(phase: CreatePhase, next: CreatePhase) -> bool {
    match phase {
        CreatePhase::BuildTap => next is CreateVm,
        CreatePhase::CreateVm => next is CreateContainer,
        CreatePhase::CreateContainer => next is PrepareSnapshot,
        CreatePhase::PrepareSnapshot => next is CreateTask,
        CreatePhase::CreateTask => next is StartTask,
        CreatePhase::StartTask => next == CreatePhase::Over(Ok(())),
        _ => false,
    }
}

/// A machine whose parts can all be made is made: its device, the machine, its container, the
/// container's file system, its task, in that order; and it is up once its task was started.
/// What fails is the error that it ends in, with its cause, whatever comes of cleaning up after
/// it.
pub proof fn law_machine_is_made_or_it_is_told_why(m: Create, e: CreateEvent)
    ensures
        m.phase is BuildTap || m.phase is CreateVm || m.phase is CreateContainer || m.phase
            is PrepareSnapshot || m.phase is CreateTask || m.phase is StartTask ==> (e is Done
            <==> comes_before(m.phase, m.next(e))),
        e matches CreateEvent::Failed(err) ==> {
            &&& m.phase is BuildTap ==> m.next(e) == CreatePhase::Over(Err(Error::Tap(err)))
            &&& m.phase is CreateVm ==> m.next(e) == CreatePhase::Over(Err(Error::CreateVm(err)))
            &&& m.phase is CreateContainer ==> m.next(e) == CreatePhase::StopVm(
                Error::CreateContainer(err),
            )
            &&& m.phase is PrepareSnapshot ==> m.next(e) == CreatePhase::DeleteContainer(
                Error::PrepareContainerSnapshot(err),
            )
            &&& m.phase is CreateTask ==> m.next(e) == CreatePhase::DeleteContainer(
                Error::CreateTask(err),
            )
            &&& m.phase is StartTask ==> m.next(e) == CreatePhase::Over(Err(Error::StartTask(err)))
        },
        m.phase matches CreatePhase::DeleteContainer(err) ==> m.next(e) == CreatePhase::StopVm(err),
        m.phase matches CreatePhase::StopVm(err) ==> m.next(e) == CreatePhase::Over(
            Err::<(), _>(err),
        ),
        m.phase is Over ==> m.next(e) == m.phase,
{
}

/// Each phase has its action.
pub proof fn law_what_is_done_to_make_a_machine(m: Create)
    ensures
        m.phase is BuildTap <==> m.pending() == Some(CreateAction::BuildTap),
        m.phase is CreateVm <==> m.pending() == Some(CreateAction::CreateVm),
        m.phase is CreateContainer <==> m.pending() == Some(CreateAction::CreateContainer),
        m.phase is PrepareSnapshot <==> m.pending() == Some(CreateAction::PrepareSnapshot),
        m.phase is CreateTask <==> m.pending() == Some(CreateAction::CreateTask),
        m.phase is StartTask <==> m.pending() == Some(CreateAction::StartTask),
        m.phase is DeleteContainer <==> m.pending() == Some(CreateAction::DeleteContainer),
        m.phase is StopVm <==> m.pending() == Some(CreateAction::StopVm),
        m.phase is Over <==> m.pending() is None,
{
}

/// How many actions are left at most.
pub open spec fn create_actions_left(phase: CreatePhase) -> nat {
    match phase {
        CreatePhase::BuildTap => 7,
        CreatePhase::CreateVm => 6,
        CreatePhase::CreateContainer => 5,
        CreatePhase::PrepareSnapshot => 4,
        CreatePhase::CreateTask => 3,
        CreatePhase::DeleteContainer(_) => 2,
        CreatePhase::StartTask => 1,
        CreatePhase::StopVm(_) => 1,
        CreatePhase::Over(_) => 0,
    }
}

/// The making of a machine ends, whatever comes.
pub proof fn law_creation_ends(m: Create, e: CreateEvent)
    requires
        m.pending() is Some,
    ensures
        create_actions_left(m.next(e)) < create_actions_left(m.phase),
{
}

} // verus!
