//! The images that registered Functions run.

use vstd::hash_map::StringHashMap;
use vstd::prelude::*;
use vstd::string::*;

use crate::runtime::fcctrd::config::FirecrackerContainerdConfig;
use crate::runtime::fcctrd::info::FcctrdFunctionInfo;
use crate::runtime::registration::{RegistrationError, RuntimeFault};

verus! {

/// How many registered Functions run each image.
pub struct RegisteredImages {
    counts: StringHashMap<usize>,
}

impl View for RegisteredImages {
    type V = Map<Seq<char>, usize>;

    closed spec fn view(&self) -> Map<Seq<char>, usize> {
        self.counts@
    }
}

impl RegisteredImages {
    /// How many registered Functions run an image.
    pub open spec fn count(self, image_ref: Seq<char>) -> usize {
        if self@.contains_key(image_ref) {
            self@[image_ref]
        } else {
            0
        }
    }

    pub fn new() -> (r: RegisteredImages)
        ensures
            r@ == Map::<Seq<char>, usize>::empty(),
    {
        RegisteredImages { counts: StringHashMap::new() }
    }

    /// Whether an image has to be pulled, because no registered Function runs it yet.
    pub fn needs_pull(&self, image_ref: &str) -> (r: bool)
        ensures
            r == (self.count(image_ref@) == 0),
    {
        self.registrations(image_ref) == 0
    }

    /// How many Functions run an image.
    pub fn registrations(&self, image_ref: &str) -> (r: usize)
        ensures
            r == self.count(image_ref@),
    {
        match self.counts.get(image_ref) {
            Some(count) => *count,
            None => 0,
        }
    }

    /// One more Function runs an image.
    pub fn register(&mut self, image_ref: &String)
        requires
            old(self).count(image_ref@) < usize::MAX,
        ensures
            final(self)@ == registered(old(self)@, image_ref@),
    {
        let count: usize = self.registrations(image_ref.as_str());
        self.counts.insert(image_ref.clone(), count + 1);
    }

    /// One Function less runs an image. An image that was never registered stays unknown:
    /// the result says whether it was.
    pub fn deregister(&mut self, image_ref: &String) -> (r: bool)
        ensures
            r == old(self)@.contains_key(image_ref@),
            final(self)@ == deregistered(old(self)@, image_ref@),
    {
        let count: Option<usize> = match self.counts.get(image_ref.as_str()) {
            Some(count) => Some(*count),
            None => None,
        };
        match count {
            Some(count) => {
                let rest: usize = count.saturating_sub(1);
                self.counts.insert(image_ref.clone(), rest);
                true
            },
            None => false,
        }
    }
}

/// The counts after one more Function runs an image.
pub open spec fn registered(counts: Map<Seq<char>, usize>, image_ref: Seq<char>) -> Map<
    Seq<char>,
    usize,
> {
    counts.insert(
        image_ref,
        if counts.contains_key(image_ref) {
            (counts[image_ref] + 1) as usize
        } else {
            1
        },
    )
}

/// The counts after one Function less runs an image.
pub open spec fn deregistered(counts: Map<Seq<char>, usize>, image_ref: Seq<char>) -> Map<
    Seq<char>,
    usize,
> {
    if !counts.contains_key(image_ref) {
        counts
    } else if counts[image_ref] > 0 {
        counts.insert(image_ref, (counts[image_ref] - 1) as usize)
    } else {
        counts.insert(image_ref, 0)
    }
}

/// Deregistering a Function undoes its registration: its image is counted as before, and no
/// other image is touched.
pub proof fn law_deregistration_undoes_registration(
    counts: Map<Seq<char>, usize>,
    image_ref: Seq<char>,
    other: Seq<char>,
)
    requires
        counts.contains_key(image_ref) ==> counts[image_ref] < usize::MAX,
    ensures
        ({
            let after = deregistered(registered(counts, image_ref), image_ref);
            &&& after.contains_key(image_ref)
            &&& after[image_ref] == if counts.contains_key(image_ref) {
                counts[image_ref]
            } else {
                0
            }
            &&& other != image_ref ==> after.contains_key(other) == counts.contains_key(other)
                && after[other] == counts[other]
        }),
{
}

/// An image is counted once more for each Function that is registered with it, and once less
/// for each that is deregistered, but never below zero; no other image is touched either way.
pub proof fn law_images_are_counted(
    counts: Map<Seq<char>, usize>,
    image_ref: Seq<char>,
    other: Seq<char>,
)
    requires
        counts.contains_key(image_ref) ==> counts[image_ref] < usize::MAX,
    ensures
        registered(counts, image_ref).contains_key(image_ref),
        registered(counts, image_ref)[image_ref] == 1 + if counts.contains_key(image_ref) {
            counts[image_ref] as int
        } else {
            0
        },
        deregistered(counts, image_ref).dom() == counts.dom(),
        counts.contains_key(image_ref) && counts[image_ref] > 0 ==> deregistered(
            counts,
            image_ref,
        )[image_ref] == counts[image_ref] - 1,
        counts.contains_key(image_ref) && counts[image_ref] == 0 ==> deregistered(
            counts,
            image_ref,
        )[image_ref] == 0,
        other != image_ref ==> registered(counts, image_ref).contains_key(other)
            == counts.contains_key(other),
        other != image_ref && counts.contains_key(other) ==> registered(counts, image_ref)[other]
            == counts[other] && deregistered(counts, image_ref)[other] == counts[other],
{
    assert(deregistered(counts, image_ref).dom() =~= counts.dom());
}

/// The arguments of the image tool that pull an image.
pub open spec fn pull_arguments(config: FirecrackerContainerdConfig, image_ref: Seq<char>) -> Seq<
    Seq<char>,
> {
    seq![
        "--address"@,
        config.address@,
        "--namespace"@,
        config.namespace@,
        "images"@,
        "pull"@,
        "--snapshotter"@,
        config.snapshotter@,
        image_ref,
    ]
}

/// The arguments of the image tool that pull an image.
pub fn pull_args(config: &FirecrackerContainerdConfig, image_ref: &str) -> (r: Vec<String>)
    ensures
        crate::text::texts(r@) == pull_arguments(*config, image_ref@),
{
    let mut r: Vec<String> = Vec::new();
    r.push("--address".to_owned());
    r.push(config.address.clone());
    r.push("--namespace".to_owned());
    r.push(config.namespace.clone());
    r.push("images".to_owned());
    r.push("pull".to_owned());
    r.push("--snapshotter".to_owned());
    r.push(config.snapshotter.clone());
    r.push(image_ref.to_owned());
    r
}

/// What came of running the image tool.
#[derive(Debug)]
pub enum PullOutcome {
    Success,
    /// The tool failed with the status given.
    Status(String),
    /// The tool could not be run.
    NotRun(String),
}

/// Whether an image is there, given what came of running the image tool.
pub fn ensure_image(outcome: PullOutcome) -> (r: Result<(), RegistrationError>)
    ensures
        r == (match outcome {
            PullOutcome::Success => Ok(()),
            PullOutcome::Status(status) => Err(
                RegistrationError::Runtime { what: RuntimeFault::PullImage(status), err: None },
            ),
            PullOutcome::NotRun(err) => Err(
                RegistrationError::Runtime { what: RuntimeFault::RunImageTool, err: Some(err) },
            ),
        }),
{
    match outcome {
        PullOutcome::Success => Ok(()),
        PullOutcome::Status(status) => Err(
            RegistrationError::Runtime { what: RuntimeFault::PullImage(status), err: None },
        ),
        PullOutcome::NotRun(err) => Err(
            RegistrationError::Runtime { what: RuntimeFault::RunImageTool, err: Some(err) },
        ),
    }
}

/// What an image's configuration says.
#[derive(Debug)]
pub struct ImageConfig {
    /// The snapshot that file systems of the image's containers start from.
    pub parent_snapshot: String,
    /// The command that runs in them, unless the configuration does not tell.
    pub process_args: Result<String, String>,
}

/// Adds what is missing of a Function's description, given its image's configuration or why
/// that could not be got.
pub fn finalize_function_info(fi: &mut FcctrdFunctionInfo, config: Result<ImageConfig, String>) -> (r:
    Result<(), RegistrationError>)
    ensures
        match config {
            Err(err) => r == Err::<(), _>(
                RegistrationError::Runtime { what: RuntimeFault::GetImageConfig, err: Some(err) },
            ) && *final(fi) == *old(fi),
            Ok(config) => {
                let parent = if old(fi).parent_snapshot is Some {
                    old(fi).parent_snapshot
                } else {
                    Some(config.parent_snapshot)
                };
                match (old(fi).process_args, config.process_args) {
                    (None, Ok(args)) => r is Ok && *final(fi) == (FcctrdFunctionInfo {
                        parent_snapshot: parent,
                        process_args: Some(args),
                        ..*old(fi)
                    }),
                    (None, Err(err)) => r == Err::<(), _>(
                        RegistrationError::Runtime {
                            what: RuntimeFault::ProcessArgs,
                            err: Some(err),
                        },
                    ) && *final(fi) == (FcctrdFunctionInfo { parent_snapshot: parent, ..*old(fi) }),
                    (Some(_), _) => r is Ok && *final(fi) == (FcctrdFunctionInfo {
                        parent_snapshot: parent,
                        ..*old(fi)
                    }),
                }
            },
        },
{
    let config = match config {
        Ok(config) => config,
        Err(err) => {
            return Err(
                RegistrationError::Runtime { what: RuntimeFault::GetImageConfig, err: Some(err) },
            );
        },
    };
    if fi.parent_snapshot.is_none() {
        fi.parent_snapshot = Some(config.parent_snapshot);
    }
    if fi.process_args.is_none() {
        match config.process_args {
            Ok(args) => {
                fi.process_args = Some(args);
            },
            Err(err) => {
                return Err(
                    RegistrationError::Runtime { what: RuntimeFault::ProcessArgs, err: Some(err) },
                );
            },
        }
    }
    Ok(())
}

} // verus!
