//! Registering Functions.

use vstd::prelude::*;

use crate::runtime::fcctrd::images::{
    ensure_image, finalize_function_info, ImageConfig, PullOutcome, RegisteredImages,
};
use crate::runtime::fcctrd::info::FcctrdFunctionInfo;
use crate::runtime::registration::{RegistrationError, RuntimeFault};

verus! {

/// What is to be done next.
#[derive(Clone, Copy, Debug, PartialEq, Eq, Structural)]
pub enum RegisterAction {
    /// Make a runtime for the Function.
    MakeRuntime,
    /// Connect it to firecracker-containerd.
    InitRuntime,
    /// Pull the Function's image.
    PullImage,
    /// Get the configuration of the Function's image.
    GetImageConfig,
}

/// What came of it.
#[derive(Debug)]
pub enum RegisterEvent {
    Done,
    Failed(String),
    Pulled(PullOutcome),
    Config(ImageConfig),
}

/// How far it has come.
#[derive(Debug)]
pub enum RegisterPhase {
    MakeRuntime,
    InitRuntime,
    PullImage,
    GetImageConfig,
    Over(Result<(), RegistrationError>),
}

/// The registration of a Function.
#[derive(Debug)]
pub struct Register {
    pub phase: RegisterPhase,
}

/// An error of the runtime.
pub open spec fn runtime_error(what: RuntimeFault, err: Option<String>) -> RegisterPhase {
    RegisterPhase::Over(Err(RegistrationError::Runtime { what, err }))
}

/// The image is there, and the Function counted.
pub open spec fn after_image(fi: FcctrdFunctionInfo) -> RegisterPhase {
    if fi.parent_snapshot is None || fi.process_args is None {
        RegisterPhase::GetImageConfig
    } else {
        RegisterPhase::Over(Ok(()))
    }
}

/// A description, as far as an image's configuration completes it.
pub open spec fn completed(fi: FcctrdFunctionInfo, config: ImageConfig) -> FcctrdFunctionInfo {
    FcctrdFunctionInfo {
        parent_snapshot: if fi.parent_snapshot is Some {
            fi.parent_snapshot
        } else {
            Some(config.parent_snapshot)
        },
        process_args: match (fi.process_args, config.process_args) {
            (None, Ok(args)) => Some(args),
            _ => fi.process_args,
        },
        ..fi
    }
}

impl Register {
    /// What is to be done next, unless it is over.
    pub open spec fn pending(self) -> Option<RegisterAction> {
        match self.phase {
            RegisterPhase::MakeRuntime => Some(RegisterAction::MakeRuntime),
            RegisterPhase::InitRuntime => Some(RegisterAction::InitRuntime),
            RegisterPhase::PullImage => Some(RegisterAction::PullImage),
            RegisterPhase::GetImageConfig => Some(RegisterAction::GetImageConfig),
            RegisterPhase::Over(_) => None,
        }
    }

    /// The event is one that can come of the pending action.
    pub open spec fn can_be(self, e: RegisterEvent) -> bool {
        match self.phase {
            RegisterPhase::MakeRuntime | RegisterPhase::InitRuntime => e is Done || e is Failed,
            RegisterPhase::PullImage => e is Pulled,
            RegisterPhase::GetImageConfig => e is Config || e is Failed,
            RegisterPhase::Over(_) => false,
        }
    }

    /// The event makes the Function one that runs its image: the image is there.
    pub open spec fn counts(self, e: RegisterEvent, needs_pull: bool) -> bool {
        match (self.phase, e) {
            (RegisterPhase::InitRuntime, RegisterEvent::Done) => !needs_pull,
            (RegisterPhase::PullImage, RegisterEvent::Pulled(PullOutcome::Success)) => true,
            _ => false,
        }
    }

    /// How it goes on after an event. An image that no registered Function runs is pulled
    /// first; what is missing of the Function's description comes from the image.
    pub open spec fn next(self, e: RegisterEvent, needs_pull: bool, fi: FcctrdFunctionInfo) -> RegisterPhase {
        match (self.phase, e) {
            (RegisterPhase::MakeRuntime, RegisterEvent::Done) => RegisterPhase::InitRuntime,
            (RegisterPhase::MakeRuntime, RegisterEvent::Failed(err)) => runtime_error(
                RuntimeFault::Instantiate,
                Some(err),
            ),
            (RegisterPhase::InitRuntime, RegisterEvent::Done) => if needs_pull {
                RegisterPhase::PullImage
            } else {
                after_image(fi)
            },
            (RegisterPhase::InitRuntime, RegisterEvent::Failed(err)) => runtime_error(
                RuntimeFault::Initialize,
                Some(err),
            ),
            (RegisterPhase::PullImage, RegisterEvent::Pulled(PullOutcome::Success)) => after_image(
                fi,
            ),
            (RegisterPhase::PullImage, RegisterEvent::Pulled(PullOutcome::Status(status))) =>
                runtime_error(RuntimeFault::PullImage(status), None),
            (RegisterPhase::PullImage, RegisterEvent::Pulled(PullOutcome::NotRun(err))) =>
                runtime_error(RuntimeFault::RunImageTool, Some(err)),
            (RegisterPhase::GetImageConfig, RegisterEvent::Failed(err)) => runtime_error(
                RuntimeFault::GetImageConfig,
                Some(err),
            ),
            (RegisterPhase::GetImageConfig, RegisterEvent::Config(config)) => match (
                fi.process_args,
                config.process_args,
            ) {
                (None, Err(err)) => runtime_error(RuntimeFault::ProcessArgs, Some(err)),
                _ => RegisterPhase::Over(Ok(())),
            },
            _ => self.phase,
        }
    }

    /// The Function's description after an event.
    pub open spec fn next_info(self, e: RegisterEvent, fi: FcctrdFunctionInfo) -> FcctrdFunctionInfo {
        match (self.phase, e) {
            (RegisterPhase::GetImageConfig, RegisterEvent::Config(config)) => completed(fi, config),
            _ => fi,
        }
    }

    pub fn new() -> (r: Register)
        ensures
            r.phase is MakeRuntime,
    {
        Register { phase: RegisterPhase::MakeRuntime }
    }

    /// What is to be done next, unless it is over.
    pub fn action(&self) -> (r: Option<RegisterAction>)
        ensures
            r == self.pending(),
    {
        match &self.phase {
            RegisterPhase::MakeRuntime => Some(RegisterAction::MakeRuntime),
            RegisterPhase::InitRuntime => Some(RegisterAction::InitRuntime),
            RegisterPhase::PullImage => Some(RegisterAction::PullImage),
            RegisterPhase::GetImageConfig => Some(RegisterAction::GetImageConfig),
            RegisterPhase::Over(_) => None,
        }
    }

    fn image_is_there(images: &mut RegisteredImages, fi: &FcctrdFunctionInfo) -> (r: RegisterPhase)
        requires
            old(images).count(fi.image_ref@) < usize::MAX,
        ensures
            r == after_image(*fi),
            final(images)@ == crate::runtime::fcctrd::images::registered(
                old(images)@,
                fi.image_ref@,
            ),
    {
        images.register(&fi.image_ref);
        if fi.is_incomplete() {
            RegisterPhase::GetImageConfig
        } else {
            RegisterPhase::Over(Ok(()))
        }
    }

    /// Takes what came of the pending action; the Function is counted as soon as its image is
    /// there.
    pub fn step(
        &mut self,
        images: &mut RegisteredImages,
        fi: &mut FcctrdFunctionInfo,
        e: RegisterEvent,
    )
        requires
            old(self).can_be(e),
            old(images).count(old(fi).image_ref@) < usize::MAX,
        ensures
            final(self).phase == old(self).next(
                e,
                old(images).count(old(fi).image_ref@) == 0,
                *old(fi),
            ),
            *final(fi) == old(self).next_info(e, *old(fi)),
            final(images)@ == (if old(self).counts(
                e,
                old(images).count(old(fi).image_ref@) == 0,
            ) {
                crate::runtime::fcctrd::images::registered(old(images)@, old(fi).image_ref@)
            } else {
                old(images)@
            }),
    {
        let mut phase = RegisterPhase::MakeRuntime;
        std::mem::swap(&mut phase, &mut self.phase);
        self.phase = match (phase, e) {
            (RegisterPhase::MakeRuntime, RegisterEvent::Done) => RegisterPhase::InitRuntime,
            (RegisterPhase::MakeRuntime, RegisterEvent::Failed(err)) => RegisterPhase::Over(
                Err(
                    RegistrationError::Runtime { what: RuntimeFault::Instantiate, err: Some(err) },
                ),
            ),
            (RegisterPhase::InitRuntime, RegisterEvent::Done) => if images.needs_pull(
                fi.image_ref.as_str(),
            ) {
                RegisterPhase::PullImage
            } else {
                Self::image_is_there(images, fi)
            },
            (RegisterPhase::InitRuntime, RegisterEvent::Failed(err)) => RegisterPhase::Over(
                Err(RegistrationError::Runtime { what: RuntimeFault::Initialize, err: Some(err) }),
            ),
            (RegisterPhase::PullImage, RegisterEvent::Pulled(outcome)) => match ensure_image(
                outcome,
            ) {
                Ok(_) => Self::image_is_there(images, fi),
                Err(err) => RegisterPhase::Over(Err(err)),
            },
            (RegisterPhase::GetImageConfig, RegisterEvent::Failed(err)) =>
                match finalize_function_info(fi, Err(err)) {
                    Ok(_) => RegisterPhase::Over(Ok(())),
                    Err(err) => RegisterPhase::Over(Err(err)),
                },
            (RegisterPhase::GetImageConfig, RegisterEvent::Config(config)) =>
                match finalize_function_info(fi, Ok(config)) {
                    Ok(_) => RegisterPhase::Over(Ok(())),
                    Err(err) => RegisterPhase::Over(Err(err)),
                },
            (phase, _) => phase,
        };
    }
}

/// A Function that is registered has a complete description.
pub proof fn law_registered_function_is_complete(
    m: Register,
    e: RegisterEvent,
    needs_pull: bool,
    fi: FcctrdFunctionInfo,
)
    requires
        m.can_be(e),
        m.next(e, needs_pull, fi) == RegisterPhase::Over(Ok(())),
    ensures
        m.next_info(e, fi).parent_snapshot is Some,
        m.next_info(e, fi).process_args is Some,
{
}

/// A Function is counted once at most, and always when it is registered: after it was counted
/// the image is not looked at again.
pub proof fn law_function_is_counted_once(
    m: Register,
    e: RegisterEvent,
    needs_pull: bool,
    fi: FcctrdFunctionInfo,
)
    requires
        m.can_be(e),
    ensures
        m.counts(e, needs_pull) ==> m.next(e, needs_pull, fi) is GetImageConfig || m.next(
            e,
            needs_pull,
            fi,
        ) is Over,
        m.phase is GetImageConfig ==> !m.counts(e, needs_pull) && m.next(e, needs_pull, fi) is Over,
        m.next(e, needs_pull, fi) == RegisterPhase::Over(Ok(())) ==> m.phase is GetImageConfig
            || m.counts(e, needs_pull),
        m.next(e, needs_pull, fi) is GetImageConfig ==> m.counts(e, needs_pull),
{
}

/// A Function is registered if nothing fails: its image is pulled only if no registered Function
/// runs it, and is asked only for what is missing of the Function's description. Each failure is
/// told with its cause, and so is a description that the image does not complete.
pub proof fn law_how_a_function_is_registered(
    m: Register,
    e: RegisterEvent,
    needs_pull: bool,
    fi: FcctrdFunctionInfo,
)
    requires
        m.can_be(e),
    ensures
        ({
            let next = m.next(e, needs_pull, fi);
            let complete = fi.parent_snapshot is Some && fi.process_args is Some;
            let here = (m.phase is InitRuntime && e is Done && !needs_pull) || (m.phase is PullImage
                && (e matches RegisterEvent::Pulled(PullOutcome::Success)));
            &&& m.phase is MakeRuntime && e is Done ==> next is InitRuntime
            &&& m.phase is InitRuntime && e is Done && needs_pull ==> next is PullImage
            &&& m.counts(e, needs_pull) <==> here
            &&& here && complete ==> next == RegisterPhase::Over(Ok(()))
            &&& here && !complete ==> next is GetImageConfig
            &&& m.phase is GetImageConfig && e is Config ==> (next == RegisterPhase::Over(Ok(()))
                <==> fi.process_args is Some || e->Config_0.process_args is Ok)
            &&& next is Over && next->Over_0 is Err ==> {
                let why = next->Over_0->Err_0;
                match e {
                    RegisterEvent::Failed(err) => why == (RegistrationError::Runtime {
                        what: match m.phase {
                            RegisterPhase::MakeRuntime => RuntimeFault::Instantiate,
                            RegisterPhase::InitRuntime => RuntimeFault::Initialize,
                            _ => RuntimeFault::GetImageConfig,
                        },
                        err: Some(err),
                    }),
                    RegisterEvent::Pulled(PullOutcome::Status(status)) => why == (
                    RegistrationError::Runtime { what: RuntimeFault::PullImage(status), err: None }),
                    RegisterEvent::Pulled(PullOutcome::NotRun(err)) => why == (
                    RegistrationError::Runtime { what: RuntimeFault::RunImageTool, err: Some(err) }),
                    RegisterEvent::Config(config) => config.process_args is Err && why == (
                    RegistrationError::Runtime {
                        what: RuntimeFault::ProcessArgs,
                        err: Some(config.process_args->Err_0),
                    }),
                    _ => false,
                }
            }
            &&& e is Failed || (m.phase is PullImage && !here) ==> next is Over && next->Over_0
                is Err
        }),
{
}

/// A description is completed from the image, and what it said before stays.
pub proof fn law_what_was_said_of_a_function_stays(
    m: Register,
    e: RegisterEvent,
    fi: FcctrdFunctionInfo,
)
    ensures
        ({
            let after = m.next_info(e, fi);
            &&& after.id == fi.id
            &&& after.image_ref == fi.image_ref
            &&& after.memory == fi.memory
            &&& fi.parent_snapshot is Some ==> after.parent_snapshot == fi.parent_snapshot
            &&& fi.process_args is Some ==> after.process_args == fi.process_args
            &&& m.phase is GetImageConfig && e is Config ==> {
                &&& fi.parent_snapshot is None ==> after.parent_snapshot == Some(
                    e->Config_0.parent_snapshot,
                )
                &&& fi.process_args is None && e->Config_0.process_args is Ok
                    ==> after.process_args == Some(e->Config_0.process_args->Ok_0)
            }
            &&& !(m.phase is GetImageConfig && e is Config) ==> after == fi
        }),
{
}

/// Each phase has its action, and takes every outcome of it.
pub proof fn law_registration_takes_every_outcome(m: Register, e: RegisterEvent)
    ensures
        m.phase is MakeRuntime <==> m.pending() == Some(RegisterAction::MakeRuntime),
        m.phase is InitRuntime <==> m.pending() == Some(RegisterAction::InitRuntime),
        m.phase is PullImage <==> m.pending() == Some(RegisterAction::PullImage),
        m.phase is GetImageConfig <==> m.pending() == Some(RegisterAction::GetImageConfig),
        m.phase is Over <==> m.pending() is None,
        (m.phase is MakeRuntime || m.phase is InitRuntime) && (e is Done || e is Failed)
            ==> m.can_be(e),
        m.phase is PullImage && e is Pulled ==> m.can_be(e),
        m.phase is GetImageConfig && (e is Config || e is Failed) ==> m.can_be(e),
{
}

/// How many actions a registration in `phase` has left at most.
pub open spec fn register_actions_left(phase: RegisterPhase) -> nat {
    match phase {
        RegisterPhase::MakeRuntime => 4,
        RegisterPhase::InitRuntime => 3,
        RegisterPhase::PullImage => 2,
        RegisterPhase::GetImageConfig => 1,
        RegisterPhase::Over(_) => 0,
    }
}

/// A registration ends, whatever comes.
pub proof fn law_registration_ends(
    m: Register,
    e: RegisterEvent,
    needs_pull: bool,
    fi: FcctrdFunctionInfo,
)
    requires
        m.can_be(e),
    ensures
        register_actions_left(m.next(e, needs_pull, fi)) < register_actions_left(m.phase),
{
}

} // verus!
