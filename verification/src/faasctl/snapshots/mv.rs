//! Moving the files of snapshots.

use vstd::prelude::*;
use vstd::string::*;

use crate::faasctl::snapshots::ls::{contains_id, Snapshot};
use crate::faasctl::snapshots::{MoveCmd, SnapshotFilesExt};
use crate::metadata::{FunctionId, SandboxId};
use crate::paths::{extension, file_name, file_stem, join_paths};
use crate::text::{concat, concat3, same};

verus! {

/// Where the files are named that are to be moved.
#[derive(Clone, Copy, Debug, PartialEq, Eq, Structural)]
pub enum MoveSource {
    /// The files themselves are named.
    Paths,
    /// The Functions are named whose snapshots' files they are.
    Functions,
    /// Those Functions are named in a file.
    FunctionFile,
}

/// Why it is not known what is to be moved, or where to.
#[derive(Debug)]
#[allow(inconsistent_fields)]
pub enum MoveArgsError {
    StatDestination { path: String, err: String },
    NotADirectory(String),
    ManySources,
    InvalidSources,
}

impl MoveArgsError {
    /// The error in words, without its cause.
    pub open spec fn text(self) -> Seq<char> {
        match self {
            MoveArgsError::StatDestination { path, .. } => "failed to stat(2) destination path '"@
                + path@ + "'"@,
            MoveArgsError::NotADirectory(path) => "Destination path '"@ + path@
                + "' is not a directory"@,
            MoveArgsError::ManySources =>
                "Only one of `--func`, `--from-func-file` and positional arguments should be provided; see --help"@,
            MoveArgsError::InvalidSources => "Aborted due to invalid input source files"@,
        }
    }

    /// The error in words, without its cause.
    pub fn message(&self) -> (r: String)
        ensures
            r@ == self.text(),
    {
        match self {
            MoveArgsError::StatDestination { path, .. } => concat3(
                "failed to stat(2) destination path '",
                path.as_str(),
                "'",
            ),
            MoveArgsError::NotADirectory(path) => concat3(
                "Destination path '",
                path.as_str(),
                "' is not a directory",
            ),
            MoveArgsError::ManySources =>
                "Only one of `--func`, `--from-func-file` and positional arguments should be provided; see --help".to_owned(),
            MoveArgsError::InvalidSources => "Aborted due to invalid input source files".to_owned(),
        }
    }
}

/// How many of three things are so.
pub open spec fn how_many(a: bool, b: bool, c: bool) -> int {
    (if a {
        1int
    } else {
        0
    }) + (if b {
        1int
    } else {
        0
    }) + (if c {
        1int
    } else {
        0
    })
}

impl MoveCmd {
    /// Whether the destination can be moved to, given whether it is a directory.
    pub fn check_destination(&self, is_dir: Result<bool, String>) -> (r: Result<(), MoveArgsError>)
        ensures
            r == (match is_dir {
                Ok(true) => Ok(()),
                Ok(false) => Err(MoveArgsError::NotADirectory(self.dst)),
                Err(err) => Err(MoveArgsError::StatDestination { path: self.dst, err }),
            }),
    {
        match is_dir {
            Ok(true) => Ok(()),
            Ok(false) => Err(MoveArgsError::NotADirectory(self.dst.clone())),
            Err(err) => Err(MoveArgsError::StatDestination { path: self.dst.clone(), err }),
        }
    }

    /// Where the files are named: in one place at most. `None` if they are named nowhere.
    pub fn source(&self) -> (r: Result<Option<MoveSource>, MoveArgsError>)
        ensures
            ({
                let n = how_many(
                    self.src@.len() > 0,
                    self.func@.len() > 0,
                    self.from_func_file is Some,
                );
                r == (if n == 0 {
                    Ok(None)
                } else if n > 1 {
                    Err(MoveArgsError::ManySources)
                } else if self.src@.len() > 0 {
                    Ok(Some(MoveSource::Paths))
                } else if self.func@.len() > 0 {
                    Ok(Some(MoveSource::Functions))
                } else {
                    Ok(Some(MoveSource::FunctionFile))
                })
            }),
    {
        match (self.src.len() > 0, self.func.len() > 0, self.from_func_file.is_some()) {
            (false, false, false) => Ok(None),
            (true, false, false) => Ok(Some(MoveSource::Paths)),
            (false, true, false) => Ok(Some(MoveSource::Functions)),
            (false, false, true) => Ok(Some(MoveSource::FunctionFile)),
            _ => Err(MoveArgsError::ManySources),
        }
    }
}

/// What is known of a path that is to be moved.
#[derive(Debug)]
pub enum SourceStat {
    RegularFile,
    Other,
    Failed(String),
}

/// Why a path cannot be moved, if it cannot.
pub fn invalid_reason(stat: &SourceStat) -> (r: Option<String>)
    ensures
        match *stat {
            SourceStat::RegularFile => r is None,
            SourceStat::Other => r is Some && r->0@ == "not a regular file"@,
            SourceStat::Failed(err) => r is Some && r->0@ == "failed to stat(2): "@ + err@,
        },
{
    match stat {
        SourceStat::RegularFile => None,
        SourceStat::Other => Some("not a regular file".to_owned()),
        SourceStat::Failed(err) => Some(concat("failed to stat(2): ", err.as_str())),
    }
}

/// Whether all paths can be moved: nothing is moved otherwise.
pub fn check_sources(stats: &Vec<SourceStat>) -> (r: Result<(), MoveArgsError>)
    ensures
        r == if forall|i: int|
            0 <= i < stats@.len() ==> (#[trigger] stats@[i]) is RegularFile {
            Ok(())
        } else {
            Err(MoveArgsError::InvalidSources)
        },
{
    let mut i: usize = 0;
    while i < stats.len()
        invariant
            i <= stats.len(),
            forall|j: int| 0 <= j < i ==> (#[trigger] stats@[j]) is RegularFile,
        decreases stats.len() - i,
    {
        match &stats[i] {
            SourceStat::RegularFile => {},
            _ => {
                assert(!(stats@[i as int] is RegularFile));
                return Err(MoveArgsError::InvalidSources);
            },
        }
        i = i + 1;
    }
    Ok(())
}

/// The files of the snapshots of the Functions in a list: of each its state file and its
/// memory file, if both are known.
pub open spec fn files_of<St: SnapshotFilesExt>(
    snaps: Seq<Snapshot<St>>,
    function_ids: Seq<FunctionId>,
) -> Seq<Seq<char>>
    decreases snaps.len(),
{
    if snaps.len() == 0 {
        Seq::empty()
    } else {
        let rest = files_of(snaps.drop_last(), function_ids);
        let snap = snaps.last();
        match (snap.state.spec_state_file(), snap.state.spec_memory_file()) {
            (Some(sf), Some(mf)) => if crate::faasctl::snapshots::ls::is_in(
                function_ids,
                snap.fid@,
            ) {
                rest.push(sf).push(mf)
            } else {
                rest
            },
            _ => rest,
        }
    }
}

/// The files of the snapshots of the Functions in a list.
pub fn files_from_function_ids<St: SnapshotFilesExt>(
    snaps: &Vec<Snapshot<St>>,
    function_ids: &Vec<FunctionId>,
) -> (r: Vec<String>)
    ensures
        crate::text::texts(r@) == files_of(snaps@, function_ids@),
{
    let mut r: Vec<String> = Vec::new();
    let mut i: usize = 0;
    assert(crate::text::texts(r@) =~= files_of(snaps@.take(0), function_ids@));
    while i < snaps.len()
        invariant
            i <= snaps.len(),
            crate::text::texts(r@) == files_of(snaps@.take(i as int), function_ids@),
        decreases snaps.len() - i,
    {
        proof {
            let next = snaps@.take(i + 1);
            assert(next.drop_last() =~= snaps@.take(i as int));
            assert(next.last() == snaps@[i as int]);
        }
        let ghost before = r@;
        if contains_id(function_ids, &snaps[i].fid) {
            if let (Some(sf), Some(mf)) = (
                snaps[i].state.state_file(),
                snaps[i].state.memory_file(),
            ) {
                r.push(sf);
                r.push(mf);
                assert(crate::text::texts(r@) =~= crate::text::texts(before).push(sf@).push(mf@));
            }
        }
        i = i + 1;
    }
    assert(snaps@.take(i as int) =~= snaps@);
    r
}

/// How an optional text is shown.
pub uninterp spec fn shown_option(s: Option<Seq<char>>) -> Seq<char>;

/// Formats an optional text with `{:?}`.
#[verifier::external_body]
pub(crate) fn show_option(s: &Option<String>) -> (r: String)
    ensures
        r@ == shown_option(crate::faasctl::snapshots::text_of(*s)),
{
    format!("{s:?}")
}

/// Whether a file of that extension is a memory file or, if not, a state file; `None` if it is
/// neither.
pub open spec fn is_memory_extension(ext: Option<Seq<char>>) -> Option<bool> {
    match ext {
        Some(ext) => if ext == "memory"@ {
            Some(true)
        } else if ext == "state"@ {
            Some(false)
        } else {
            None
        },
        None => None,
    }
}

/// What is wrong with a file that is to be moved.
#[derive(Debug)]
pub enum MoveFault {
    StatDestination,
    /// There is a file at the destination.
    Overwrite,
    /// The file has no name.
    NoSandboxId,
    /// It is neither a memory file nor a state file.
    Extension,
    StatSource,
    /// The database has no snapshot of the file's name.
    NoSnapshot,
    ReadState,
    /// The database has no path for the file.
    NotStored,
    /// The path in the database could not be looked at.
    StatStored(String),
    /// The path in the database is that of another file.
    DifferentFiles,
    Copy,
    UpdateDb,
}

/// Why a file was not moved.
#[derive(Debug)]
pub struct MoveError {
    pub what: MoveFault,
    pub err: Option<String>,
}

/// What is to be done next for a file.
#[derive(Clone, Copy, Debug, PartialEq, Eq, Structural)]
pub enum MoveAction {
    /// See whether there is a file at the destination.
    StatDestination,
    /// Find the inode of the file.
    StatSource,
    /// Look the snapshot up in the database.
    ReadState,
    /// Find the inode of the file that the database speaks of.
    StatStored,
    Copy,
    UpdateDb,
    RemoveSource,
}

/// What came of it.
#[derive(Debug)]
pub enum MoveEvent {
    Done,
    /// There is such a file.
    Found,
    /// There is no such file, or no such snapshot.
    NotFound,
    Inode(u64),
    /// The path of the file in the database, if it is there.
    Stored(Option<String>),
    Failed(String),
}

/// How far it has come.
#[derive(Debug)]
pub enum MovePhase {
    StatDestination,
    StatSource,
    ReadState,
    StatStored(String),
    Copy,
    UpdateDb,
    RemoveSource,
    Over(Result<(), MoveError>),
}

/// The moving of a file.
#[derive(Debug)]
pub struct MoveFile {
    pub src: String,
    pub dst: String,
    /// Keep the file where it was, too.
    pub no_rm: bool,
    /// The snapshot that the file belongs to, as soon as it is known.
    pub sid: Option<SandboxId>,
    pub is_memory_file: bool,
    /// The inode of the file, as soon as it is known.
    pub src_ino: u64,
    pub phase: MovePhase,
}

/// An error without a cause.
pub open spec fn fault(what: MoveFault) -> MovePhase {
    MovePhase::Over(Err(MoveError { what, err: None }))
}

/// An error with a cause.
pub open spec fn caused(what: MoveFault, err: String) -> MovePhase {
    MovePhase::Over(Err(MoveError { what, err: Some(err) }))
}

impl MoveFile {
    /// The file's name is known to be that of a snapshot's file once it has been looked at.
    pub open spec fn wf(self) -> bool {
        match self.phase {
            MovePhase::StatDestination | MovePhase::Over(Err(_)) => true,
            _ => {
                &&& self.sid is Some
                &&& crate::paths::stem_of(self.src@) == Some(self.sid->0@)
                &&& is_memory_extension(crate::paths::extension_of(self.src@)) == Some(self.is_memory_file)
            },
        }
    }

    /// What is to be done next, unless it is over.
    pub open spec fn pending(self) -> Option<MoveAction> {
        match self.phase {
            MovePhase::StatDestination => Some(MoveAction::StatDestination),
            MovePhase::StatSource => Some(MoveAction::StatSource),
            MovePhase::ReadState => Some(MoveAction::ReadState),
            MovePhase::StatStored(_) => Some(MoveAction::StatStored),
            MovePhase::Copy => Some(MoveAction::Copy),
            MovePhase::UpdateDb => Some(MoveAction::UpdateDb),
            MovePhase::RemoveSource => Some(MoveAction::RemoveSource),
            MovePhase::Over(_) => None,
        }
    }

    /// The event is one that can come of the pending action.
    pub open spec fn can_be(self, e: MoveEvent) -> bool {
        match self.phase {
            MovePhase::StatDestination => e is Found || e is NotFound || e is Failed,
            MovePhase::StatSource | MovePhase::StatStored(_) => e is Inode || e is Failed,
            MovePhase::ReadState => e is Stored || e is NotFound || e is Failed,
            MovePhase::Copy | MovePhase::UpdateDb | MovePhase::RemoveSource => e is Done || e
                is Failed,
            MovePhase::Over(_) => false,
        }
    }

    /// How it goes on after an event.
    pub open spec fn next(self, e: MoveEvent) -> MovePhase {
        match (self.phase, e) {
            (MovePhase::StatDestination, MoveEvent::NotFound) => match (
                crate::paths::stem_of(self.src@),
                is_memory_extension(crate::paths::extension_of(self.src@)),
            ) {
                (None, _) => fault(MoveFault::NoSandboxId),
                (Some(_), None) => fault(MoveFault::Extension),
                (Some(_), Some(_)) => MovePhase::StatSource,
            },
            (MovePhase::StatDestination, MoveEvent::Failed(err)) => caused(
                MoveFault::StatDestination,
                err,
            ),
            (MovePhase::StatDestination, _) => fault(MoveFault::Overwrite),
            (MovePhase::StatSource, MoveEvent::Failed(err)) => caused(MoveFault::StatSource, err),
            (MovePhase::StatSource, _) => MovePhase::ReadState,
            (MovePhase::ReadState, MoveEvent::Stored(Some(path))) => MovePhase::StatStored(path),
            (MovePhase::ReadState, MoveEvent::Stored(None)) => fault(MoveFault::NotStored),
            (MovePhase::ReadState, MoveEvent::Failed(err)) => caused(MoveFault::ReadState, err),
            (MovePhase::ReadState, _) => fault(MoveFault::NoSnapshot),
            (MovePhase::StatStored(path), MoveEvent::Inode(ino)) => if ino == self.src_ino {
                MovePhase::Copy
            } else {
                fault(MoveFault::DifferentFiles)
            },
            (MovePhase::StatStored(path), MoveEvent::Failed(err)) => caused(
                MoveFault::StatStored(path),
                err,
            ),
            (MovePhase::Copy, MoveEvent::Failed(err)) => caused(MoveFault::Copy, err),
            (MovePhase::Copy, _) => MovePhase::UpdateDb,
            (MovePhase::UpdateDb, MoveEvent::Failed(err)) => caused(MoveFault::UpdateDb, err),
            (MovePhase::UpdateDb, _) => if self.no_rm {
                MovePhase::Over(Ok(()))
            } else {
                MovePhase::RemoveSource
            },
            (MovePhase::RemoveSource, _) => MovePhase::Over(Ok(())),
            _ => self.phase,
        }
    }

    /// Starts to move a file to a directory, under the name that it has; `None` if it has
    /// none.
    pub fn new(src: String, dst_dir: &str, no_rm: bool) -> (r: Option<MoveFile>)
        ensures
            match r {
                Some(m) => {
                    &&& m.src == src
                    &&& crate::paths::file_name_of(src@) is Some
                    &&& m.dst@ == crate::paths::joined(dst_dir@, crate::paths::file_name_of(src@)->0)
                    &&& crate::paths::is_plain_name(crate::paths::file_name_of(src@)->0)
                        ==> crate::paths::file_name_of(m.dst@) == crate::paths::file_name_of(src@)
                    &&& m.no_rm == no_rm
                    &&& m.phase is StatDestination
                    &&& m.wf()
                },
                None => crate::paths::file_name_of(src@) is None,
            },
    {
        match file_name(src.as_str()) {
            Some(name) => {
                let dst = join_paths(dst_dir, name.as_str());
                Some(
                    MoveFile {
                        src,
                        dst,
                        no_rm,
                        sid: None,
                        is_memory_file: false,
                        src_ino: 0,
                        phase: MovePhase::StatDestination,
                    },
                )
            },
            None => None,
        }
    }

    /// What is to be done next, unless it is over.
    pub fn action(&self) -> (r: Option<MoveAction>)
        ensures
            r == self.pending(),
    {
        match &self.phase {
            MovePhase::StatDestination => Some(MoveAction::StatDestination),
            MovePhase::StatSource => Some(MoveAction::StatSource),
            MovePhase::ReadState => Some(MoveAction::ReadState),
            MovePhase::StatStored(_) => Some(MoveAction::StatStored),
            MovePhase::Copy => Some(MoveAction::Copy),
            MovePhase::UpdateDb => Some(MoveAction::UpdateDb),
            MovePhase::RemoveSource => Some(MoveAction::RemoveSource),
            MovePhase::Over(_) => None,
        }
    }

    /// Takes the file's name apart.
    fn parse_source(&mut self) -> (r: MovePhase)
        ensures
            r == (match (crate::paths::stem_of(old(self).src@), is_memory_extension(crate::paths::extension_of(old(self).src@))) {
                (None, _) => fault(MoveFault::NoSandboxId),
                (Some(_), None) => fault(MoveFault::Extension),
                (Some(_), Some(_)) => MovePhase::StatSource,
            }),
            final(self).src == old(self).src,
            final(self).dst == old(self).dst,
            final(self).no_rm == old(self).no_rm,
            final(self).src_ino == old(self).src_ino,
            r is StatSource ==> final(self).sid is Some && crate::paths::stem_of(old(self).src@) == Some(
                final(self).sid->0@,
            ) && is_memory_extension(crate::paths::extension_of(old(self).src@)) == Some(
                final(self).is_memory_file,
            ),
            !(r is StatSource) ==> *final(self) == *old(self),
    {
        let sid = match file_stem(self.src.as_str()) {
            Some(sid) => sid,
            None => {
                return MovePhase::Over(
                    Err(MoveError { what: MoveFault::NoSandboxId, err: None }),
                );
            },
        };
        let memory = match extension(self.src.as_str()) {
            Some(ext) => if same(ext.as_str(), "memory") {
                Some(true)
            } else if same(ext.as_str(), "state") {
                Some(false)
            } else {
                None
            },
            None => None,
        };
        match memory {
            Some(is_memory_file) => {
                self.sid = Some(sid);
                self.is_memory_file = is_memory_file;
                MovePhase::StatSource
            },
            None => MovePhase::Over(Err(MoveError { what: MoveFault::Extension, err: None })),
        }
    }

    /// Takes what came of the pending action.
    pub fn step(&mut self, e: MoveEvent)
        requires
            old(self).wf(),
            old(self).can_be(e),
        ensures
            final(self).src == old(self).src,
            final(self).dst == old(self).dst,
            final(self).no_rm == old(self).no_rm,
            final(self).src_ino == (match (old(self).phase, e) {
                (MovePhase::StatSource, MoveEvent::Inode(ino)) => ino,
                _ => old(self).src_ino,
            }),
            !(old(self).phase is StatDestination && old(self).next(e) is StatSource) ==> {
                &&& final(self).sid == old(self).sid
                &&& final(self).is_memory_file == old(self).is_memory_file
            },
            final(self).phase == old(self).next(e),
            is_move_step(*old(self), e, *final(self)),
            final(self).wf(),
    {
        let mut phase = MovePhase::StatDestination;
        std::mem::swap(&mut phase, &mut self.phase);
        let next = match (phase, e) {
            (MovePhase::StatDestination, MoveEvent::NotFound) => self.parse_source(),
            (MovePhase::StatDestination, MoveEvent::Failed(err)) => MovePhase::Over(
                Err(MoveError { what: MoveFault::StatDestination, err: Some(err) }),
            ),
            (MovePhase::StatDestination, _) => MovePhase::Over(
                Err(MoveError { what: MoveFault::Overwrite, err: None }),
            ),
            (MovePhase::StatSource, MoveEvent::Failed(err)) => MovePhase::Over(
                Err(MoveError { what: MoveFault::StatSource, err: Some(err) }),
            ),
            (MovePhase::StatSource, MoveEvent::Inode(ino)) => {
                self.src_ino = ino;
                MovePhase::ReadState
            },
            (MovePhase::ReadState, MoveEvent::Stored(Some(path))) => MovePhase::StatStored(path),
            (MovePhase::ReadState, MoveEvent::Stored(None)) => MovePhase::Over(
                Err(MoveError { what: MoveFault::NotStored, err: None }),
            ),
            (MovePhase::ReadState, MoveEvent::Failed(err)) => MovePhase::Over(
                Err(MoveError { what: MoveFault::ReadState, err: Some(err) }),
            ),
            (MovePhase::ReadState, _) => MovePhase::Over(
                Err(MoveError { what: MoveFault::NoSnapshot, err: None }),
            ),
            (MovePhase::StatStored(_), MoveEvent::Inode(ino)) => if ino == self.src_ino {
                MovePhase::Copy
            } else {
                MovePhase::Over(Err(MoveError { what: MoveFault::DifferentFiles, err: None }))
            },
            (MovePhase::StatStored(path), MoveEvent::Failed(err)) => MovePhase::Over(
                Err(MoveError { what: MoveFault::StatStored(path), err: Some(err) }),
            ),
            (MovePhase::Copy, MoveEvent::Failed(err)) => MovePhase::Over(
                Err(MoveError { what: MoveFault::Copy, err: Some(err) }),
            ),
            (MovePhase::Copy, _) => MovePhase::UpdateDb,
            (MovePhase::UpdateDb, MoveEvent::Failed(err)) => MovePhase::Over(
                Err(MoveError { what: MoveFault::UpdateDb, err: Some(err) }),
            ),
            (MovePhase::UpdateDb, _) => if self.no_rm {
                MovePhase::Over(Ok(()))
            } else {
                MovePhase::RemoveSource
            },
            (MovePhase::RemoveSource, _) => MovePhase::Over(Ok(())),
            (phase, _) => phase,
        };
        self.phase = next;
    }

    /// What is wrong, in words.
    pub open spec fn fault_text(self, what: MoveFault) -> Seq<char> {
        let sid = match self.sid {
            Some(sid) => sid@,
            None => ""@,
        };
        let kind = if self.is_memory_file {
            "memory"@
        } else {
            "state"@
        };
        match what {
            MoveFault::StatDestination => "failed to stat(2) destination path"@,
            MoveFault::Overwrite => "skipping overwrite of '"@ + self.dst@ + "'"@,
            MoveFault::NoSandboxId => "Failed to parse Sandbox ID from '"@ + shown_option(
                crate::paths::stem_of(self.src@),
            ) + "'"@,
            MoveFault::Extension => "Unexpected file extension: "@ + shown_option(
                crate::paths::extension_of(self.src@),
            ),
            MoveFault::StatSource => "failed to stat(2) source file '"@ + self.src@ + "'"@,
            MoveFault::NoSnapshot => "Sandbox ID '"@ + sid + "' not found in table SNAPSHOTS"@,
            MoveFault::ReadState => "failed to read state of Sandbox '"@ + sid
                + "' from table SNAPSHOTS"@,
            MoveFault::NotStored => "No snapshot "@ + kind + " file related to '"@ + self.src@
                + "' is stored in table SNAPSHOTS for Sandbox '"@ + sid + "'"@,
            MoveFault::StatStored(path) => "Failed to stat(2) file '"@ + path@ + "'"@,
            MoveFault::DifferentFiles => "File paths refer to different files"@,
            MoveFault::Copy => "failed to copy file '"@ + self.src@ + "' -> '"@ + self.dst@ + "'"@,
            MoveFault::UpdateDb => "failed to update DB after copying file '"@ + self.src@
                + "' to destination '"@ + self.dst@ + "'"@,
        }
    }

    /// What is wrong, in words.
    pub fn fault_message(&self, what: &MoveFault) -> (r: String)
        ensures
            r@ == self.fault_text(*what),
    {
        let sid = match &self.sid {
            Some(sid) => sid.as_str(),
            None => "",
        };
        match what {
            MoveFault::StatDestination => "failed to stat(2) destination path".to_owned(),
            MoveFault::Overwrite => concat3("skipping overwrite of '", self.dst.as_str(), "'"),
            MoveFault::NoSandboxId => concat3(
                "Failed to parse Sandbox ID from '",
                show_option(&file_stem(self.src.as_str())).as_str(),
                "'",
            ),
            MoveFault::Extension => concat(
                "Unexpected file extension: ",
                show_option(&extension(self.src.as_str())).as_str(),
            ),
            MoveFault::StatSource => concat3(
                "failed to stat(2) source file '",
                self.src.as_str(),
                "'",
            ),
            MoveFault::NoSnapshot => concat3("Sandbox ID '", sid, "' not found in table SNAPSHOTS"),
            MoveFault::ReadState => concat3(
                "failed to read state of Sandbox '",
                sid,
                "' from table SNAPSHOTS",
            ),
            MoveFault::NotStored => {
                let mut r = concat3(
                    "No snapshot ",
                    if self.is_memory_file {
                        "memory"
                    } else {
                        "state"
                    },
                    " file related to '",
                );
                r.append(self.src.as_str());
                r.append("' is stored in table SNAPSHOTS for Sandbox '");
                r.append(sid);
                r.append("'");
                r
            },
            MoveFault::StatStored(path) => concat3("Failed to stat(2) file '", path.as_str(), "'"),
            MoveFault::DifferentFiles => "File paths refer to different files".to_owned(),
            MoveFault::Copy => {
                let mut r = concat3("failed to copy file '", self.src.as_str(), "' -> '");
                r.append(self.dst.as_str());
                r.append("'");
                r
            },
            MoveFault::UpdateDb => {
                let mut r = concat3(
                    "failed to update DB after copying file '",
                    self.src.as_str(),
                    "' to destination '",
                );
                r.append(self.dst.as_str());
                r.append("'");
                r
            },
        }
    }
}

/// The path in the database of the file that is to be moved.
pub fn stored_file<St: SnapshotFilesExt>(state: &St, is_memory_file: bool) -> (r: Option<String>)
    ensures
        crate::faasctl::snapshots::text_of(r) == if is_memory_file {
            state.spec_memory_file()
        } else {
            state.spec_state_file()
        },
{
    if is_memory_file {
        state.memory_file()
    } else {
        state.state_file()
    }
}

/// Writes the path that a file was moved to into a snapshot; the rest of it stays.
pub fn update_state<St: SnapshotFilesExt>(state: &mut St, is_memory_file: bool, dst: String)
    ensures
        *final(state) == (if is_memory_file {
            old(state).spec_rewritten(None, Some(dst))
        } else {
            old(state).spec_rewritten(Some(dst), None)
        }),
        final(state).spec_state_id() == old(state).spec_state_id(),
        final(state).spec_memory_file() == if is_memory_file {
            Some(dst@)
        } else {
            old(state).spec_memory_file()
        },
        final(state).spec_state_file() == if is_memory_file {
            old(state).spec_state_file()
        } else {
            Some(dst@)
        },
{
    if is_memory_file {
        state.rewrite_files(None, Some(dst));
    } else {
        state.rewrite_files(Some(dst), None);
    }
}

/// A file is copied only if nothing was found at its destination and it is the one that the
/// database speaks of; the database is changed only once it is copied, and the file goes only
/// once the database is changed, and only if it is to go.
pub proof fn law_nothing_is_lost(m: MoveFile, e: MoveEvent)
    requires
        m.wf(),
        m.can_be(e),
    ensures
        m.next(e) is StatSource ==> m.phase is StatDestination && e is NotFound,
        m.next(e) is ReadState ==> m.phase is StatSource && e is Inode,
        m.next(e) is StatStored ==> m.phase is ReadState && e == MoveEvent::Stored(
            Some(m.next(e)->StatStored_0),
        ),
        m.next(e) is Copy ==> m.phase is StatStored && e == MoveEvent::Inode(m.src_ino),
        m.next(e) is UpdateDb ==> m.phase is Copy && e is Done,
        m.next(e) is RemoveSource ==> m.phase is UpdateDb && e is Done && !m.no_rm,
        m.next(e) == MovePhase::Over(Ok(())) ==> (m.phase is UpdateDb && e is Done && m.no_rm)
            || m.phase is RemoveSource,
{
}

/// One step of the moving of a file, as [`MoveFile::step`] takes it.
pub open spec fn is_move_step(m: MoveFile, e: MoveEvent, after: MoveFile) -> bool {
    &&& after.phase == m.next(e)
    &&& after.src == m.src
    &&& after.no_rm == m.no_rm
    &&& after.src_ino == if m.phase is StatSource && e is Inode {
        e->Inode_0
    } else {
        m.src_ino
    }
}

/// A file that can be moved is moved: if nothing is at the destination, the file is named after
/// a snapshot's file and can be looked at, and the database has a path for it, any path, of the
/// same file, then the file is copied, the database is changed and the file is removed, unless
/// it is to stay. It does not matter whether removing it works. `ms[i]` is the move before the
/// event `es[i]`.
pub proof fn law_file_is_moved(ms: Seq<MoveFile>, es: Seq<MoveEvent>)
    requires
        es.len() >= 6,
        ms.len() == es.len() + 1,
        forall|i: int| 0 <= i < es.len() ==> is_move_step(ms[i], #[trigger] es[i], ms[i + 1]),
        ms[0].phase is StatDestination,
        es[0] is NotFound,
        crate::paths::stem_of(ms[0].src@) is Some,
        crate::paths::extension_of(ms[0].src@) == Some("memory"@) || crate::paths::extension_of(
            ms[0].src@,
        ) == Some("state"@),
        es[1] is Inode,
        es[2] matches MoveEvent::Stored(Some(_)),
        es[3] is Inode,
        es[3]->Inode_0 == es[1]->Inode_0,
        es[4] is Done,
        es[5] is Done,
        es.len() > 6 ==> es[6] is Done || es[6] is Failed,
    ensures
        ms[1].phase is StatSource,
        ms[2].phase is ReadState,
        ms[3].phase == MovePhase::StatStored(es[2]->Stored_0->0),
        ms[4].phase is Copy,
        ms[5].phase is UpdateDb,
        ms[0].no_rm ==> ms[6].phase == MovePhase::Over(Ok(())),
        !ms[0].no_rm ==> ms[6].phase is RemoveSource,
        !ms[0].no_rm && es.len() > 6 ==> ms[7].phase == MovePhase::Over(Ok(())),
{
    assert(is_move_step(ms[0], es[0], ms[1]));
    assert(is_move_step(ms[1], es[1], ms[2]));
    assert(is_move_step(ms[2], es[2], ms[3]));
    assert(is_move_step(ms[3], es[3], ms[4]));
    assert(is_move_step(ms[4], es[4], ms[5]));
    assert(is_move_step(ms[5], es[5], ms[6]));
    if es.len() > 6 {
        assert(is_move_step(ms[6], es[6], ms[7]));
    }
}

/// Each reason not to move a file comes of what it says, and of nothing else: something at the
/// destination, a name that is not that of a snapshot's file, no such snapshot or no path for
/// the file in the database, another file at that path, or an action that failed; and what
/// failed is told as it was reported.
pub proof fn law_why_a_file_is_not_moved(m: MoveFile, e: MoveEvent)
    requires
        m.wf(),
        m.can_be(e),
    ensures
        m.next(e) is Over && m.next(e)->Over_0 is Err <==> {
            ||| m.phase is StatDestination && e is Found
            ||| m.phase is StatDestination && (crate::paths::stem_of(m.src@) is None || !(
            crate::paths::extension_of(m.src@) == Some("memory"@) || crate::paths::extension_of(
                m.src@,
            ) == Some("state"@)))
            ||| m.phase is ReadState && (e is NotFound || (e matches MoveEvent::Stored(None)))
            ||| m.phase is StatStored && (e matches MoveEvent::Inode(ino) && ino != m.src_ino)
            ||| e is Failed && !(m.phase is RemoveSource)
        },
        m.next(e) is Over && m.next(e)->Over_0 is Err ==> {
            let err = m.next(e)->Over_0->Err_0;
            &&& err.err is Some <==> e is Failed
            &&& e is Failed ==> err.err == Some(e->Failed_0)
            &&& err.what is DifferentFiles <==> m.phase is StatStored && e is Inode
            &&& err.what is Overwrite <==> m.phase is StatDestination && e is Found
            &&& err.what is NoSandboxId <==> m.phase is StatDestination && e is NotFound
                && crate::paths::stem_of(m.src@) is None
            &&& err.what is Extension <==> m.phase is StatDestination && e is NotFound
                && crate::paths::stem_of(m.src@) is Some
            &&& err.what is NoSnapshot <==> m.phase is ReadState && e is NotFound
            &&& err.what is NotStored <==> m.phase is ReadState && e is Stored
            &&& err.what is StatDestination <==> m.phase is StatDestination && e is Failed
            &&& err.what is StatSource <==> m.phase is StatSource
            &&& err.what is ReadState <==> m.phase is ReadState && e is Failed
            &&& err.what is Copy <==> m.phase is Copy
            &&& err.what is UpdateDb <==> m.phase is UpdateDb
            &&& err.what matches MoveFault::StatStored(path) ==> m.phase == MovePhase::StatStored(
                path,
            ) && e is Failed
        },
{
}

/// Every outcome of an action can be taken: what was found or not, the inode, what the database
/// says, success and failure.
pub proof fn law_moving_takes_every_outcome(m: MoveFile, e: MoveEvent)
    ensures
        m.pending() is Some && e is Failed ==> m.can_be(e),
        m.pending() == Some(MoveAction::StatDestination) ==> (m.can_be(e) <==> e is Found || e
            is NotFound || e is Failed),
        m.pending() == Some(MoveAction::StatSource) || m.pending() == Some(MoveAction::StatStored)
            ==> (m.can_be(e) <==> e is Inode || e is Failed),
        m.pending() == Some(MoveAction::ReadState) ==> (m.can_be(e) <==> e is Stored || e
            is NotFound || e is Failed),
        m.pending() == Some(MoveAction::Copy) || m.pending() == Some(MoveAction::UpdateDb)
            || m.pending() == Some(MoveAction::RemoveSource) ==> (m.can_be(e) <==> e is Done || e
            is Failed),
        m.phase is Over <==> m.pending() is None,
        m.phase is StatDestination <==> m.pending() == Some(MoveAction::StatDestination),
        m.phase is StatSource <==> m.pending() == Some(MoveAction::StatSource),
        m.phase is ReadState <==> m.pending() == Some(MoveAction::ReadState),
        m.phase is StatStored <==> m.pending() == Some(MoveAction::StatStored),
        m.phase is Copy <==> m.pending() == Some(MoveAction::Copy),
        m.phase is UpdateDb <==> m.pending() == Some(MoveAction::UpdateDb),
        m.phase is RemoveSource <==> m.pending() == Some(MoveAction::RemoveSource),
{
}

/// How many actions are left at most.
pub open spec fn move_actions_left(phase: MovePhase) -> nat {
    match phase {
        MovePhase::StatDestination => 7,
        MovePhase::StatSource => 6,
        MovePhase::ReadState => 5,
        MovePhase::StatStored(_) => 4,
        MovePhase::Copy => 3,
        MovePhase::UpdateDb => 2,
        MovePhase::RemoveSource => 1,
        MovePhase::Over(_) => 0,
    }
}

/// The moving of a file ends, whatever comes.
pub proof fn law_moving_ends(m: MoveFile, e: MoveEvent)
    requires
        m.wf(),
        m.can_be(e),
    ensures
        move_actions_left(m.next(e)) < move_actions_left(m.phase),
{
}

/// How many files were moved, and how many were not.
#[derive(Debug)]
pub struct MoveTally {
    pub succeeded: u64,
    pub failed: u64,
}

impl MoveTally {
    pub fn new() -> (r: MoveTally)
        ensures
            r.succeeded == 0,
            r.failed == 0,
    {
        MoveTally { succeeded: 0, failed: 0 }
    }

    /// One more file was moved, or was not.
    pub fn record(&mut self, moved: bool)
        requires
            old(self).succeeded + old(self).failed < u64::MAX,
        ensures
            final(self).succeeded == old(self).succeeded + (if moved {
                1int
            } else {
                0
            }),
            final(self).failed == old(self).failed + (if moved {
                0int
            } else {
                1
            }),
    {
        if moved {
            self.succeeded = self.succeeded + 1;
        } else {
            self.failed = self.failed + 1;
        }
    }
}

/// The files of snapshots are moved in the order of the snapshots: of each the state file and then
/// the memory file, if its Function is named and both are known, and none otherwise.
pub proof fn law_which_files_are_moved<St: SnapshotFilesExt>(
    a: Seq<Snapshot<St>>,
    b: Seq<Snapshot<St>>,
    function_ids: Seq<FunctionId>,
)
    ensures
        files_of(a + b, function_ids) == files_of(a, function_ids) + files_of(b, function_ids),
        a.len() == 0 ==> files_of(a, function_ids).len() == 0,
        a.len() == 1 ==> {
            let (state, memory) = (a[0].state.spec_state_file(), a[0].state.spec_memory_file());
            let named = exists|i: int|
                0 <= i < function_ids.len() && (#[trigger] function_ids[i])@ == a[0].fid@;
            &&& named && state is Some && memory is Some ==> files_of(a, function_ids) == seq![
                state->0,
                memory->0,
            ]
            &&& !named || state is None || memory is None ==> files_of(a, function_ids).len() == 0
        },
    decreases b.len(),
{
    if a.len() == 1 {
        assert(a.drop_last() =~= Seq::<Snapshot<St>>::empty());
        assert(files_of(a.drop_last(), function_ids) =~= Seq::<Seq<char>>::empty());
        let (state, memory) = (a[0].state.spec_state_file(), a[0].state.spec_memory_file());
        if state is Some && memory is Some {
            assert(Seq::<Seq<char>>::empty().push(state->0).push(memory->0) =~= seq![
                state->0,
                memory->0,
            ]);
        }
    }
    if b.len() == 0 {
        assert(a + b =~= a);
        assert(files_of(a, function_ids) + files_of(b, function_ids) =~= files_of(a, function_ids));
    } else {
        assert((a + b).drop_last() =~= a + b.drop_last());
        law_which_files_are_moved(a, b.drop_last(), function_ids);
        assert(files_of(a + b, function_ids) =~= files_of(a, function_ids) + files_of(
            b,
            function_ids,
        ));
    }
}

/// Memory files and state files are told apart by their extensions, and any other file is neither.
pub proof fn law_extensions(ext: Seq<char>)
    ensures
        is_memory_extension(Some("memory"@)) == Some(true),
        is_memory_extension(Some("state"@)) == Some(false),
        is_memory_extension(Some(ext)) is Some ==> ext == "memory"@ || ext == "state"@,
        is_memory_extension(None) is None,
{
    reveal_strlit("memory");
    reveal_strlit("state");
    assert("memory"@.len() == 6 && "state"@.len() == 5);
}

/// Of three things none is so exactly if all are not, and more than one exactly if two are.
pub proof fn law_how_many_are_so(a: bool, b: bool, c: bool)
    ensures
        how_many(a, b, c) == 0 <==> !a && !b && !c,
        how_many(a, b, c) > 1 <==> (a && b) || (a && c) || (b && c),
        how_many(a, b, c) == 3 <==> a && b && c,
{
}

} // verus!
