//! Making many sandboxes at once.

use vstd::prelude::*;
use vstd::string::*;

use crate::faasctl::counts::Counts;
use crate::faasctl::sandbox::{KeepaliveHint, ProvisioningMode};
use crate::metadata::SandboxId;
use crate::status::StatusCode;
use crate::text::{concat3, itoa_u64, lines, trim};

verus! {

/// Makes sandboxes for Functions, and possibly snapshots of them.
#[derive(Debug)]
pub struct SeedCmd {
    /// A file that says how many sandboxes each Function gets.
    pub func_counts: Option<String>,
    /// A file with a line for each sandbox that is wanted.
    pub sb_stats: Option<String>,
    pub also_snapshot: bool,
    pub no_force_fresh: bool,
    pub initial_keepalive_hint: Option<KeepaliveHint>,
}

/// Which file says what is wanted.
#[derive(Clone, Copy, Debug, PartialEq, Eq, Structural)]
pub enum SeedSource {
    FuncCounts,
    SbStats,
}

/// Why it is not known what is wanted, or not all of it was made.
#[derive(Debug)]
#[allow(inconsistent_fields)]
pub enum SeedError {
    BothFiles,
    NoFile,
    /// The path could not be looked at.
    Stat { path: String, err: String },
    NotAFile(SeedSource),
    /// A line of the file is not what it should be.
    BadLine { path: String, line: String, err: String },
    NotAnObject(String),
    NoFunctionId(String),
    /// So many Functions did not get all that they were to get.
    Incomplete(u64),
}

impl SeedError {
    /// The error in words, without its cause.
    pub open spec fn text(self) -> Seq<char> {
        match self {
            SeedError::BothFiles =>
                "Both function counts and sandbox stats JSON files provided; choose one"@,
            SeedError::NoFile =>
                "Provide either a function counts or a sandbox stats JSON files"@,
            SeedError::Stat { path, .. } => "failed to stat(2) path '"@ + path@ + "'"@,
            SeedError::NotAFile(SeedSource::FuncCounts) =>
                "`--func-counts` does not point to a normal file"@,
            SeedError::NotAFile(SeedSource::SbStats) =>
                "`--sb-stats` does not point to a normal file"@,
            SeedError::BadLine { path, line, .. } => "failed to JSON-deserialize line in '"@ + path@
                + "': '"@ + line@ + "'"@,
            SeedError::NotAnObject(line) => "Expected JSON object; found line: '"@ + line@ + "'"@,
            SeedError::NoFunctionId(line) => "Function ID key 'fid' not found in line: '"@ + line@
                + "'"@,
            SeedError::Incomplete(n) => "Partial or total failure for "@ + crate::text::decimal(
                n as nat,
            ) + " Functions"@,
        }
    }

    /// The error in words, without its cause.
    pub fn message(&self) -> (r: String)
        ensures
            r@ == self.text(),
    {
        match self {
            SeedError::BothFiles =>
                "Both function counts and sandbox stats JSON files provided; choose one".to_owned(),
            SeedError::NoFile =>
                "Provide either a function counts or a sandbox stats JSON files".to_owned(),
            SeedError::Stat { path, .. } => concat3("failed to stat(2) path '", path.as_str(), "'"),
            SeedError::NotAFile(SeedSource::FuncCounts) =>
                "`--func-counts` does not point to a normal file".to_owned(),
            SeedError::NotAFile(SeedSource::SbStats) =>
                "`--sb-stats` does not point to a normal file".to_owned(),
            SeedError::BadLine { path, line, .. } => {
                let mut r = concat3(
                    "failed to JSON-deserialize line in '",
                    path.as_str(),
                    "': '",
                );
                r.append(line.as_str());
                r.append("'");
                r
            },
            SeedError::NotAnObject(line) => concat3(
                "Expected JSON object; found line: '",
                line.as_str(),
                "'",
            ),
            SeedError::NoFunctionId(line) => concat3(
                "Function ID key 'fid' not found in line: '",
                line.as_str(),
                "'",
            ),
            SeedError::Incomplete(n) => concat3(
                "Partial or total failure for ",
                itoa_u64(*n).as_str(),
                " Functions",
            ),
        }
    }
}

impl SeedCmd {
    /// Which file says what is wanted: there has to be exactly one.
    pub fn source(&self) -> (r: Result<SeedSource, SeedError>)
        ensures
            r == (match (self.func_counts, self.sb_stats) {
                (Some(_), Some(_)) => Err(SeedError::BothFiles),
                (None, None) => Err(SeedError::NoFile),
                (Some(_), None) => Ok(SeedSource::FuncCounts),
                (None, Some(_)) => Ok(SeedSource::SbStats),
            }),
    {
        match (&self.func_counts, &self.sb_stats) {
            (Some(_), Some(_)) => Err(SeedError::BothFiles),
            (None, None) => Err(SeedError::NoFile),
            (Some(_), None) => Ok(SeedSource::FuncCounts),
            (None, Some(_)) => Ok(SeedSource::SbStats),
        }
    }

    /// Whether the arguments can be worked with, given whether the file that was given is a
    /// regular one.
    pub fn validate_args(&self, is_file: Result<bool, String>) -> (r: Result<(), SeedError>)
        ensures
            match (self.func_counts, self.sb_stats) {
                (Some(_), Some(_)) => r == Err::<(), _>(SeedError::BothFiles),
                (None, None) => r == Err::<(), _>(SeedError::NoFile),
                (Some(path), None) => r == checked(SeedSource::FuncCounts, path, is_file),
                (None, Some(path)) => r == checked(SeedSource::SbStats, path, is_file),
            },
    {
        let (source, path) = match (&self.func_counts, &self.sb_stats) {
            (Some(_), Some(_)) => {
                return Err(SeedError::BothFiles);
            },
            (None, None) => {
                return Err(SeedError::NoFile);
            },
            (Some(path), None) => (SeedSource::FuncCounts, path.clone()),
            (None, Some(path)) => (SeedSource::SbStats, path.clone()),
        };
        match is_file {
            Ok(true) => Ok(()),
            Ok(false) => Err(SeedError::NotAFile(source)),
            Err(err) => Err(SeedError::Stat { path, err }),
        }
    }

    /// How new sandboxes are provided.
    pub fn mode(&self) -> (r: ProvisioningMode)
        ensures
            r == seed_mode(self.no_force_fresh),
    {
        if self.no_force_fresh {
            ProvisioningMode::PreferSnapshot
        } else {
            ProvisioningMode::ForceFresh
        }
    }
}

/// Whether a file can be worked with.
pub open spec fn checked(source: SeedSource, path: String, is_file: Result<bool, String>) -> Result<
    (),
    SeedError,
> {
    match is_file {
        Ok(true) => Ok(()),
        Ok(false) => Err(SeedError::NotAFile(source)),
        Err(err) => Err(SeedError::Stat { path, err }),
    }
}

/// How sandboxes are provided: new ones, unless that is not to be forced.
pub open spec fn seed_mode(no_force_fresh: bool) -> ProvisioningMode {
    if no_force_fresh {
        ProvisioningMode::PreferSnapshot
    } else {
        ProvisioningMode::ForceFresh
    }
}

/// The numbers in a JSON object, or why the text is no such object.
pub uninterp spec fn json_counts(text: Seq<char>) -> Result<Map<Seq<char>, u64>, Seq<char>>;

/// Calls `serde_json::from_str` for a map from strings to `u64`; the error is shown with
/// `{:#}`. The numbers come in any order.
#[verifier::external_body]
pub(crate) fn parse_counts(text: &str) -> (r: Result<Vec<(String, u64)>, String>)
    ensures
        match r {
            Ok(entries) => json_counts(text@) is Ok && json_counts(text@)->Ok_0
                == crate::faasctl::counts::said(entries@),
            Err(err) => json_counts(text@) is Err && json_counts(text@)->Err_0 == err@,
        },
{
    serde_json::from_str::<std::collections::HashMap<String, u64>>(text)
        .map(|counts| counts.into_iter().collect())
        .map_err(|err| format!("{err:#}"))
}

/// The text under a key in a JSON object: an error if it is no JSON text, `None` if it is no
/// object, `Some(None)` if there is no text under the key.
pub uninterp spec fn json_text_field(text: Seq<char>, key: Seq<char>) -> Result<
    Option<Option<Seq<char>>>,
    Seq<char>,
>;

/// Calls `serde_json::from_str` for a `serde_json::Value`, and then `serde_json::Map::get` and
/// `serde_json::Value::as_str` if it is an object; the error is shown with `{:#}`.
#[verifier::external_body]
pub(crate) fn parse_text_field(text: &str, key: &str) -> (r: Result<Option<Option<String>>, String>)
    ensures
        match r {
            Ok(Some(Some(s))) => json_text_field(text@, key@) == Ok::<_, Seq<char>>(
                Some(Some(s@)),
            ),
            Ok(Some(None)) => json_text_field(text@, key@) == Ok::<_, Seq<char>>(
                Some(None::<Seq<char>>),
            ),
            Ok(None) => json_text_field(text@, key@) == Ok::<_, Seq<char>>(
                None::<Option<Seq<char>>>,
            ),
            Err(err) => json_text_field(text@, key@) is Err && json_text_field(text@, key@)->Err_0
                == err@,
        },
{
    match serde_json::from_str(text) {
        Ok(serde_json::Value::Object(map)) => Ok(
            Some(map.get(key).and_then(|value| value.as_str()).map(|s| s.to_owned())),
        ),
        Ok(_) => Ok(None),
        Err(err) => Err(format!("{err:#}")),
    }
}

/// What the lines of a file say, where the last number said of a Function counts; `None` if
/// one of them says nothing.
pub open spec fn counts_in(lines: Seq<Seq<char>>) -> Option<Map<Seq<char>, u64>>
    decreases lines.len(),
{
    if lines.len() == 0 {
        Some(Map::empty())
    } else {
        match (counts_in(lines.drop_last()), json_counts(crate::text::trimmed(lines.last()))) {
            (Some(counts), Ok(more)) => Some(counts.union_prefer_right(more)),
            _ => None,
        }
    }
}

/// Reads how many sandboxes each Function gets from the contents of the file at `path`.
pub fn read_counts(path: &String, contents: &str) -> (r: Result<Counts, SeedError>)
    ensures
        match r {
            Ok(counts) => counts.wf() && counts_in(crate::text::lines_of(contents@)) == Some(
                counts@,
            ),
            Err(SeedError::BadLine { path: p, line, err }) => {
                &&& p == *path
                &&& json_counts(line@) is Err
                &&& json_counts(line@)->Err_0 == err@
                &&& exists|i: int|
                    {
                        &&& 0 <= i < crate::text::lines_of(contents@).len()
                        &&& line@ == crate::text::trimmed(
                            #[trigger] crate::text::lines_of(contents@)[i],
                        )
                        &&& counts_in(crate::text::lines_of(contents@).take(i)) is Some
                    }
            },
            Err(_) => false,
        },
{
    let all = lines(contents);
    let ghost texts = crate::text::lines_of(contents@);
    let mut counts = Counts::new();
    let mut i: usize = 0;
    assert(texts.take(0) =~= Seq::<Seq<char>>::empty());
    while i < all.len()
        invariant
            texts == crate::text::lines_of(contents@),
            crate::text::texts(all@) == texts,
            i <= all.len(),
            counts.wf(),
            counts_in(texts.take(i as int)) == Some(counts@),
        decreases all.len() - i,
    {
        let line = trim(all[i].as_str());
        proof {
            assert(texts[i as int] == crate::text::texts(all@)[i as int]);
            let next = texts.take(i + 1);
            assert(next.drop_last() =~= texts.take(i as int));
            assert(next.last() == all[i as int]@);
        }
        match parse_counts(line.as_str()) {
            Ok(entries) => {
                counts.extend(entries);
            },
            Err(err) => {
                return Err(SeedError::BadLine { path: path.clone(), line, err });
            },
        }
        i = i + 1;
    }
    assert(texts.take(i as int) =~= texts);
    Ok(counts)
}

/// The Functions that the lines of a file name; `None` if one of them names none.
pub open spec fn function_ids_in(lines: Seq<Seq<char>>) -> Option<Seq<Seq<char>>>
    decreases lines.len(),
{
    if lines.len() == 0 {
        Some(Seq::empty())
    } else {
        match (
            function_ids_in(lines.drop_last()),
            json_text_field(crate::text::trimmed(lines.last()), "fid"@),
        ) {
            (Some(ids), Ok(Some(Some(id)))) => Some(ids.push(id)),
            _ => None,
        }
    }
}

/// The Function that a line names, given what its JSON text says.
pub fn function_id_of(
    path: &String,
    line: String,
    field: Result<Option<Option<String>>, String>,
) -> (r: Result<String, SeedError>)
    ensures
        r == (match field {
            Ok(Some(Some(id))) => Ok(id),
            Ok(Some(None)) => Err(SeedError::NoFunctionId(line)),
            Ok(None) => Err(SeedError::NotAnObject(line)),
            Err(err) => Err(SeedError::BadLine { path: *path, line, err }),
        }),
{
    match field {
        Ok(Some(Some(id))) => Ok(id),
        Ok(Some(None)) => Err(SeedError::NoFunctionId(line)),
        Ok(None) => Err(SeedError::NotAnObject(line)),
        Err(err) => Err(SeedError::BadLine { path: path.clone(), line, err }),
    }
}

/// The line that an error of reading a file of wanted sandboxes is about.
pub open spec fn offending_line(err: SeedError) -> Option<Seq<char>> {
    match err {
        SeedError::BadLine { line, .. } => Some(line@),
        SeedError::NotAnObject(line) => Some(line@),
        SeedError::NoFunctionId(line) => Some(line@),
        _ => None,
    }
}

/// The error fits what a line's JSON text says.
pub open spec fn explains(err: SeedError, path: String) -> bool {
    match err {
        SeedError::BadLine { path: p, line, err } => p == path && json_text_field(line@, "fid"@)
            is Err && json_text_field(line@, "fid"@)->Err_0 == err@,
        SeedError::NotAnObject(line) => json_text_field(line@, "fid"@) matches Ok(None),
        SeedError::NoFunctionId(line) => json_text_field(line@, "fid"@) matches Ok(Some(None)),
        _ => false,
    }
}

/// Reads how many sandboxes each Function gets from the contents of the file at `path`, which
/// has a line for each of them.
pub fn read_stats(path: &String, contents: &str) -> (r: Result<Counts, SeedError>)
    ensures
        match r {
            Ok(counts) => counts.wf() && function_ids_in(crate::text::lines_of(contents@)) is Some
                && counts@ == crate::faasctl::counts::tally(
                function_ids_in(crate::text::lines_of(contents@))->0,
            ),
            Err(err) => explains(err, *path) && exists|i: int|
                {
                    &&& 0 <= i < crate::text::lines_of(contents@).len()
                    &&& offending_line(err) == Some(
                        crate::text::trimmed(#[trigger] crate::text::lines_of(contents@)[i]),
                    )
                    &&& function_ids_in(crate::text::lines_of(contents@).take(i)) is Some
                },
        },
{
    let all = lines(contents);
    let ghost texts = crate::text::lines_of(contents@);
    let mut counts = Counts::new();
    let mut i: usize = 0;
    assert(texts.take(0) =~= Seq::<Seq<char>>::empty());
    while i < all.len()
        invariant
            texts == crate::text::lines_of(contents@),
            crate::text::texts(all@) == texts,
            i <= all.len(),
            counts.wf(),
            function_ids_in(texts.take(i as int)) is Some,
            function_ids_in(texts.take(i as int))->0.len() == i,
            counts@ == crate::faasctl::counts::tally(function_ids_in(texts.take(i as int))->0),
        decreases all.len() - i,
    {
        let ghost ids = function_ids_in(texts.take(i as int))->0;
        let line = trim(all[i].as_str());
        proof {
            assert(texts[i as int] == crate::text::texts(all@)[i as int]);
            let next = texts.take(i + 1);
            assert(next.drop_last() =~= texts.take(i as int));
            assert(next.last() == all[i as int]@);
        }
        let field = parse_text_field(line.as_str(), "fid");
        match function_id_of(path, line, field) {
            Ok(id) => {
                proof {
                    crate::faasctl::counts::law_tally_counts(ids, id@);
                    assert(ids.push(id@).drop_last() =~= ids);
                    assert(ids.push(id@).last() == id@);
                }
                counts.add_one(id);
            },
            Err(err) => {
                return Err(err);
            },
        }
        i = i + 1;
    }
    assert(texts.take(i as int) =~= texts);
    Ok(counts)
}

/// What came of making all sandboxes.
#[derive(Debug)]
pub struct SeedTally {
    /// How many sandboxes were made.
    pub prepared: u64,
    /// How many Functions did not get all that they were to get.
    pub incomplete: u64,
}

impl SeedTally {
    pub fn new() -> (r: SeedTally)
        ensures
            r.prepared == 0,
            r.incomplete == 0,
    {
        SeedTally { prepared: 0, incomplete: 0 }
    }

    /// A Function got `prepared` sandboxes, and was to get `count`. Whether these are all.
    pub fn record(&mut self, prepared: u64, count: u64) -> (r: bool)
        requires
            old(self).prepared + prepared <= u64::MAX,
            old(self).incomplete < u64::MAX,
        ensures
            r == (prepared >= count),
            final(self).prepared == old(self).prepared + prepared,
            final(self).incomplete == old(self).incomplete + (if r {
                0int
            } else {
                1
            }),
    {
        self.prepared = self.prepared + prepared;
        if prepared < count {
            self.incomplete = self.incomplete + 1;
            false
        } else {
            true
        }
    }

    /// Whether all Functions got what they were to get.
    pub fn finish(&self) -> (r: Result<(), SeedError>)
        ensures
            r == if self.incomplete == 0 {
                Ok(())
            } else {
                Err(SeedError::Incomplete(self.incomplete))
            },
    {
        if self.incomplete == 0 {
            Ok(())
        } else {
            Err(SeedError::Incomplete(self.incomplete))
        }
    }
}

/// How often preparing a sandbox is tried again.
pub const PREPARE_RETRIES: u32 = 3;

/// How often a snapshot is tried.
pub const SNAPSHOT_ATTEMPTS: u32 = 3;

/// What is known of a sandbox.
#[derive(Debug)]
pub struct SandboxInfo {
    pub sandbox_id: SandboxId,
}

/// What is to be done next for one sandbox.
#[derive(Clone, Copy, Debug, PartialEq, Eq, Structural)]
pub enum SeedAction {
    /// Prepare it.
    Prepare(ProvisioningMode),
    /// Wait for a while, for the so-manieth time in a row.
    Sleep(u32),
    /// Make a snapshot of it.
    CreateSnapshot,
    /// Destroy it if it is not active, and keep its snapshot.
    Destroy,
}

/// What came of it.
#[derive(Debug)]
pub enum SeedEvent {
    Prepared(SandboxInfo),
    /// The orchestrator answered with a status.
    Status(StatusCode, String),
    Failed(String),
    Done,
}

/// Why a sandbox was not made.
#[derive(Debug)]
pub enum SeedFault {
    Status(StatusCode),
    Prepare(String),
    Snapshot(String),
}

/// How far it has come.
#[derive(Debug)]
pub enum SeedPhase {
    Prepare,
    PrepareSleep,
    Snapshot(SandboxInfo),
    SnapshotSleep(SandboxInfo),
    /// The snapshot was made, or could not be for the reason given.
    Destroy(SandboxInfo, Option<String>),
    Over(Result<SandboxInfo, SeedFault>),
}

/// The making of one sandbox, and of its snapshot if it is to have one.
#[derive(Debug)]
pub struct SeedOne {
    pub also_snapshot: bool,
    pub no_force_fresh: bool,
    /// How often it may be tried again.
    pub left: u32,
    pub phase: SeedPhase,
}

impl SeedOne {
    /// A snapshot that is tried has a try left, and one that is tried again has had one.
    pub open spec fn wf(self) -> bool {
        match self.phase {
            SeedPhase::Prepare => self.left <= PREPARE_RETRIES,
            SeedPhase::PrepareSleep => self.left < PREPARE_RETRIES,
            SeedPhase::Snapshot(_) => self.also_snapshot && 0 < self.left <= SNAPSHOT_ATTEMPTS,
            SeedPhase::SnapshotSleep(_) => self.also_snapshot && 0 < self.left < SNAPSHOT_ATTEMPTS,
            SeedPhase::Destroy(_, _) => self.also_snapshot,
            SeedPhase::Over(_) => true,
        }
    }

    /// What is to be done next, unless it is over.
    pub open spec fn pending(self) -> Option<SeedAction> {
        match self.phase {
            SeedPhase::Prepare => Some(SeedAction::Prepare(seed_mode(self.no_force_fresh))),
            SeedPhase::PrepareSleep => Some(SeedAction::Sleep((PREPARE_RETRIES - self.left) as u32)),
            SeedPhase::Snapshot(_) => Some(SeedAction::CreateSnapshot),
            SeedPhase::SnapshotSleep(_) => Some(
                SeedAction::Sleep((SNAPSHOT_ATTEMPTS - self.left) as u32),
            ),
            SeedPhase::Destroy(_, _) => Some(SeedAction::Destroy),
            SeedPhase::Over(_) => None,
        }
    }

    /// The event is one that can come of the pending action.
    pub open spec fn can_be(self, e: SeedEvent) -> bool {
        match self.phase {
            SeedPhase::Prepare => !(e is Done),
            SeedPhase::PrepareSleep | SeedPhase::SnapshotSleep(_) => e is Done,
            SeedPhase::Snapshot(_) | SeedPhase::Destroy(_, _) => !(e is Prepared),
            SeedPhase::Over(_) => false,
        }
    }

    /// How it goes on after an event, and how often it may be tried again then.
    pub open spec fn next(self, e: SeedEvent) -> (SeedPhase, u32) {
        match (self.phase, e) {
            (SeedPhase::Prepare, SeedEvent::Prepared(info)) => if self.also_snapshot {
                (SeedPhase::Snapshot(info), SNAPSHOT_ATTEMPTS)
            } else {
                (SeedPhase::Over(Ok(info)), self.left)
            },
            (SeedPhase::Prepare, SeedEvent::Status(code, _)) => if code is Unavailable && self.left
                > 0 {
                (SeedPhase::PrepareSleep, (self.left - 1) as u32)
            } else {
                (SeedPhase::Over(Err(SeedFault::Status(code))), self.left)
            },
            (SeedPhase::Prepare, SeedEvent::Failed(err)) => (
                SeedPhase::Over(Err(SeedFault::Prepare(err))),
                self.left,
            ),
            (SeedPhase::PrepareSleep, _) => (SeedPhase::Prepare, self.left),
            (SeedPhase::Snapshot(info), SeedEvent::Done) => (
                SeedPhase::Destroy(info, None),
                self.left,
            ),
            (SeedPhase::Snapshot(info), SeedEvent::Status(_, err)) => if self.left > 1 {
                (SeedPhase::SnapshotSleep(info), (self.left - 1) as u32)
            } else {
                (SeedPhase::Destroy(info, Some(err)), 0)
            },
            (SeedPhase::Snapshot(info), SeedEvent::Failed(err)) => if self.left > 1 {
                (SeedPhase::SnapshotSleep(info), (self.left - 1) as u32)
            } else {
                (SeedPhase::Destroy(info, Some(err)), 0)
            },
            (SeedPhase::SnapshotSleep(info), _) => (SeedPhase::Snapshot(info), self.left),
            (SeedPhase::Destroy(info, None), _) => (SeedPhase::Over(Ok(info)), self.left),
            (SeedPhase::Destroy(info, Some(err)), _) => (
                SeedPhase::Over(Err(SeedFault::Snapshot(err))),
                self.left,
            ),
            _ => (self.phase, self.left),
        }
    }

    pub fn new(also_snapshot: bool, no_force_fresh: bool) -> (r: SeedOne)
        ensures
            r == (SeedOne {
                also_snapshot,
                no_force_fresh,
                left: PREPARE_RETRIES,
                phase: SeedPhase::Prepare,
            }),
            r.wf(),
    {
        SeedOne { also_snapshot, no_force_fresh, left: PREPARE_RETRIES, phase: SeedPhase::Prepare }
    }

    /// What is to be done next, unless it is over.
    pub fn action(&self) -> (r: Option<SeedAction>)
        requires
            self.wf(),
        ensures
            r == self.pending(),
    {
        match &self.phase {
            SeedPhase::Prepare => Some(
                SeedAction::Prepare(
                    if self.no_force_fresh {
                        ProvisioningMode::PreferSnapshot
                    } else {
                        ProvisioningMode::ForceFresh
                    },
                ),
            ),
            SeedPhase::PrepareSleep => Some(SeedAction::Sleep(PREPARE_RETRIES - self.left)),
            SeedPhase::Snapshot(_) => Some(SeedAction::CreateSnapshot),
            SeedPhase::SnapshotSleep(_) => Some(SeedAction::Sleep(SNAPSHOT_ATTEMPTS - self.left)),
            SeedPhase::Destroy(_, _) => Some(SeedAction::Destroy),
            SeedPhase::Over(_) => None,
        }
    }

    fn snapshot_failed(&mut self, info: SandboxInfo, err: String) -> (r: SeedPhase)
        requires
            old(self).left > 0,
        ensures
            (r, final(self).left) == (if old(self).left > 1 {
                (SeedPhase::SnapshotSleep(info), (old(self).left - 1) as u32)
            } else {
                (SeedPhase::Destroy(info, Some(err)), 0u32)
            }),
            final(self).also_snapshot == old(self).also_snapshot,
            final(self).no_force_fresh == old(self).no_force_fresh,
    {
        self.left = self.left - 1;
        if self.left > 0 {
            SeedPhase::SnapshotSleep(info)
        } else {
            SeedPhase::Destroy(info, Some(err))
        }
    }

    /// Takes what came of the pending action.
    pub fn step(&mut self, e: SeedEvent)
        requires
            old(self).wf(),
            old(self).can_be(e),
        ensures
            final(self).also_snapshot == old(self).also_snapshot,
            final(self).no_force_fresh == old(self).no_force_fresh,
            (final(self).phase, final(self).left) == old(self).next(e),
            final(self).wf(),
    {
        let mut phase = SeedPhase::Prepare;
        std::mem::swap(&mut phase, &mut self.phase);
        let next = match (phase, e) {
            (SeedPhase::Prepare, SeedEvent::Prepared(info)) => if self.also_snapshot {
                self.left = SNAPSHOT_ATTEMPTS;
                SeedPhase::Snapshot(info)
            } else {
                SeedPhase::Over(Ok(info))
            },
            (SeedPhase::Prepare, SeedEvent::Status(code, _)) => match code {
                StatusCode::Unavailable if self.left > 0 => {
                    self.left = self.left - 1;
                    SeedPhase::PrepareSleep
                },
                _ => SeedPhase::Over(Err(SeedFault::Status(code))),
            },
            (SeedPhase::Prepare, SeedEvent::Failed(err)) => SeedPhase::Over(
                Err(SeedFault::Prepare(err)),
            ),
            (SeedPhase::PrepareSleep, _) => SeedPhase::Prepare,
            (SeedPhase::Snapshot(info), SeedEvent::Done) => SeedPhase::Destroy(info, None),
            (SeedPhase::Snapshot(info), SeedEvent::Status(_, err)) => self.snapshot_failed(
                info,
                err,
            ),
            (SeedPhase::Snapshot(info), SeedEvent::Failed(err)) => self.snapshot_failed(info, err),
            (SeedPhase::SnapshotSleep(info), _) => SeedPhase::Snapshot(info),
            (SeedPhase::Destroy(info, None), _) => SeedPhase::Over(Ok(info)),
            (SeedPhase::Destroy(_, Some(err)), _) => SeedPhase::Over(
                Err(SeedFault::Snapshot(err)),
            ),
            (phase, _) => phase,
        };
        self.phase = next;
    }
}

/// The sandbox that is there in a phase.
pub open spec fn seeded(phase: SeedPhase) -> Option<SandboxInfo> {
    match phase {
        SeedPhase::Snapshot(info) => Some(info),
        SeedPhase::SnapshotSleep(info) => Some(info),
        SeedPhase::Destroy(info, _) => Some(info),
        _ => None,
    }
}

/// A sandbox that is to have a snapshot is destroyed whether it got one or not, and counts
/// only if it did.
pub proof fn law_snapshotted_sandboxes_are_destroyed(m: SeedOne, e: SeedEvent)
    requires
        m.wf(),
        m.can_be(e),
    ensures
        seeded(m.phase) is Some ==> seeded(m.next(e).0) == seeded(m.phase) || m.phase is Destroy,
        m.also_snapshot && m.next(e).0 is Over && m.next(e).0->Over_0 is Ok ==> m.phase matches
            SeedPhase::Destroy(_, None),
        m.phase is Destroy ==> m.next(e).0 is Over,
        m.next(e).0 matches SeedPhase::Destroy(_, None) ==> m.phase is Snapshot && e is Done,
{
}

/// A sandbox that was prepared counts at once if it is to have no snapshot. Otherwise it counts
/// once its snapshot was made, however many tries are left and whatever comes of destroying it;
/// and what counts is the sandbox that was prepared.
pub proof fn law_what_counts_as_seeded(m: SeedOne, e: SeedEvent, info: SandboxInfo)
    requires
        m.wf(),
        m.can_be(e),
    ensures
        m.phase is Prepare && e == SeedEvent::Prepared(info) ==> m.next(e).0 == if m.also_snapshot {
            SeedPhase::Snapshot(info)
        } else {
            SeedPhase::Over(Ok(info))
        },
        m.phase == SeedPhase::Snapshot(info) && e is Done ==> m.next(e).0 == SeedPhase::Destroy(
            info,
            None,
        ),
        m.phase == SeedPhase::Destroy(info, None) ==> m.next(e).0 == SeedPhase::Over(
            Ok::<_, SeedFault>(info),
        ),
        m.next(e).0 == SeedPhase::Over(Ok::<_, SeedFault>(info)) ==> (m.phase is Prepare && e
            == SeedEvent::Prepared(info) && !m.also_snapshot) || m.phase == SeedPhase::Destroy(
            info,
            None,
        ),
{
}

/// A sandbox does not count only if preparing it failed for good, or if its snapshot could not be
/// made; and the reason that is given is the one that there was.
pub proof fn law_why_a_sandbox_is_not_seeded(m: SeedOne, e: SeedEvent)
    requires
        m.wf(),
        m.can_be(e),
    ensures
        m.next(e).0 is Over && m.next(e).0->Over_0 is Err ==> match m.next(e).0->Over_0->Err_0 {
            SeedFault::Prepare(err) => m.phase is Prepare && e == SeedEvent::Failed(err),
            SeedFault::Status(code) => m.phase is Prepare && e is Status && e->Status_0 == code && (
            !(code is Unavailable) || m.left == 0),
            SeedFault::Snapshot(err) => m.phase is Destroy && m.phase->Destroy_1 == Some(err),
        },
        m.phase is Prepare && e is Failed ==> m.next(e).0 == SeedPhase::Over(
            Err::<SandboxInfo, _>(SeedFault::Prepare(e->Failed_0)),
        ),
        m.phase is Destroy && m.phase->Destroy_1 is Some ==> m.next(e).0 == SeedPhase::Over(
            Err::<SandboxInfo, _>(SeedFault::Snapshot(m.phase->Destroy_1->0)),
        ),
{
}

/// A preparation is tried again, after a while, as long as the orchestrator is unavailable and
/// there are tries left: three more at most. No other status is tried again.
pub proof fn law_preparation_is_tried_again(m: SeedOne, e: SeedEvent)
    requires
        m.wf(),
        m.can_be(e),
    ensures
        m.phase is Prepare && e is Status ==> {
            &&& m.next(e).0 is PrepareSleep <==> e->Status_0 is Unavailable && m.left > 0
            &&& m.next(e).0 is PrepareSleep ==> m.next(e).1 == m.left - 1
            &&& !(m.next(e).0 is PrepareSleep) ==> m.next(e).0 == SeedPhase::Over(
                Err::<SandboxInfo, _>(SeedFault::Status(e->Status_0)),
            )
        },
        m.phase is PrepareSleep ==> m.next(e) == (SeedPhase::Prepare, m.left) && m.pending() == Some(
            SeedAction::Sleep((3 - m.left) as u32),
        ),
{
}

/// A snapshot is tried three times, after a while each, and then given up on for the last reason
/// that there was; with the same sandbox all along.
pub proof fn law_snapshot_is_tried_three_times(m: SeedOne, e: SeedEvent, info: SandboxInfo)
    requires
        m.wf(),
        m.can_be(e),
    ensures
        m.phase is Prepare && m.next(e).0 is Snapshot ==> m.next(e).1 == 3,
        m.phase == SeedPhase::Snapshot(info) && !(e is Done) ==> {
            let why = match e {
                SeedEvent::Status(_, why) => why,
                _ => e->Failed_0,
            };
            if m.left > 1 {
                m.next(e).0 == SeedPhase::SnapshotSleep(info) && m.next(e).1 == m.left - 1
            } else {
                m.next(e).0 == SeedPhase::Destroy(info, Some(why))
            }
        },
        m.phase == SeedPhase::SnapshotSleep(info) ==> m.next(e).0 == SeedPhase::Snapshot(info)
            && m.next(e).1 == m.left && m.pending() == Some(SeedAction::Sleep((3 - m.left) as u32)),
{
}

/// Each phase has its action, and takes every outcome of it; a new sandbox is forced unless that
/// is not to be.
pub proof fn law_what_is_done_for_a_sandbox(m: SeedOne, e: SeedEvent)
    ensures
        m.phase is Prepare ==> m.pending() == Some(
            SeedAction::Prepare(
                if m.no_force_fresh {
                    ProvisioningMode::PreferSnapshot
                } else {
                    ProvisioningMode::ForceFresh
                },
            ),
        ),
        m.phase is Snapshot ==> m.pending() == Some(SeedAction::CreateSnapshot),
        m.phase is Destroy ==> m.pending() == Some(SeedAction::Destroy),
        m.phase is Over <==> m.pending() is None,
        m.phase is Prepare && (e is Prepared || e is Status || e is Failed) ==> m.can_be(e),
        (m.phase is Snapshot || m.phase is Destroy) && (e is Done || e is Status || e is Failed)
            ==> m.can_be(e),
        (m.phase is PrepareSleep || m.phase is SnapshotSleep) && e is Done ==> m.can_be(e),
{
}

/// A sandbox whose preparation and whose snapshot work at the first try is seeded, after it was
/// destroyed, whatever came of that.
pub proof fn law_sandbox_is_seeded(
    first: SeedOne,
    snapshot: SeedOne,
    destroy: SeedOne,
    last: SeedOne,
    info: SandboxInfo,
    destroyed: SeedEvent,
)
    requires
        first.phase is Prepare,
        first.also_snapshot,
        first.wf(),
        (snapshot.phase, snapshot.left) == first.next(SeedEvent::Prepared(info)),
        (destroy.phase, destroy.left) == snapshot.next(SeedEvent::Done),
        (last.phase, last.left) == destroy.next(destroyed),
        !(destroyed is Prepared),
    ensures
        snapshot.pending() == Some(SeedAction::CreateSnapshot),
        destroy.pending() == Some(SeedAction::Destroy),
        last.phase == SeedPhase::Over(Ok::<_, SeedFault>(info)),
{
}

/// How many actions are left at most.
pub open spec fn seed_actions_left(phase: SeedPhase, left: u32) -> nat {
    match phase {
        SeedPhase::Prepare => 2 * left as nat + 8,
        SeedPhase::PrepareSleep => 2 * left as nat + 9,
        SeedPhase::Snapshot(_) => 2 * left as nat,
        SeedPhase::SnapshotSleep(_) => 2 * left as nat + 1,
        SeedPhase::Destroy(_, _) => 1,
        SeedPhase::Over(_) => 0,
    }
}

/// The making of a sandbox ends, whatever comes.
pub proof fn law_seeding_ends(m: SeedOne, e: SeedEvent)
    requires
        m.wf(),
        m.can_be(e),
    ensures
        seed_actions_left(m.next(e).0, m.next(e).1) < seed_actions_left(m.phase, m.left),
{
}

/// Only a regular file can be worked with. What is none is told by the argument that it was given
/// with, and what could not be looked at by its path.
pub proof fn law_which_files_can_be_read(
    source: SeedSource,
    path: String,
    is_file: Result<bool, String>,
)
    ensures
        checked(source, path, is_file) is Ok <==> is_file == Ok::<_, String>(true),
        is_file == Ok::<_, String>(false) ==> checked(source, path, is_file)->Err_0
            == SeedError::NotAFile(source),
        is_file is Err ==> checked(source, path, is_file)->Err_0 == (SeedError::Stat {
            path,
            err: is_file->Err_0,
        }),
{
}

/// New sandboxes are forced unless that was turned off; snapshots are never required.
pub proof fn law_how_sandboxes_are_seeded(no_force_fresh: bool)
    ensures
        seed_mode(no_force_fresh) == ProvisioningMode::ForceFresh <==> !no_force_fresh,
        seed_mode(no_force_fresh) != ProvisioningMode::RequireSnapshot,
{
}

/// A file of numbers says what its lines say, and of a Function what the last of them says; if one
/// line is no JSON object of numbers, the file says nothing.
pub proof fn law_what_a_file_of_numbers_says(a: Seq<Seq<char>>, b: Seq<Seq<char>>)
    ensures
        counts_in(Seq::empty()) == Some(Map::<Seq<char>, u64>::empty()),
        counts_in(a + b) is Some <==> counts_in(a) is Some && counts_in(b) is Some,
        counts_in(a + b) is Some ==> counts_in(a + b)->0 == counts_in(a)->0.union_prefer_right(
            counts_in(b)->0,
        ),
        a.len() == 1 ==> {
            let said = json_counts(crate::text::trimmed(a[0]));
            &&& counts_in(a) is Some <==> said is Ok
            &&& counts_in(a) is Some ==> counts_in(a)->0 == said->Ok_0
        },
    decreases b.len(),
{
    if a.len() == 1 {
        assert(a.drop_last() =~= Seq::<Seq<char>>::empty());
        if counts_in(a) is Some {
            let said = json_counts(crate::text::trimmed(a[0]))->Ok_0;
            assert(Map::<Seq<char>, u64>::empty().union_prefer_right(said) =~= said);
        }
    }
    if b.len() == 0 {
        assert(a + b =~= a);
        if counts_in(a) is Some {
            let all = counts_in(a)->0;
            assert(all.union_prefer_right(Map::<Seq<char>, u64>::empty()) =~= all);
        }
    } else {
        let front = b.drop_last();
        law_what_a_file_of_numbers_says(a, front);
        assert((a + b).drop_last() =~= a + front);
        if counts_in(a + b) is Some {
            let (x, y) = (counts_in(a)->0, counts_in(front)->0);
            let z = json_counts(crate::text::trimmed(b.last()))->Ok_0;
            assert(x.union_prefer_right(y).union_prefer_right(z) =~= x.union_prefer_right(
                y.union_prefer_right(z),
            ));
        }
    }
}

/// A file of sandboxes names the Functions that its lines name, in their order, one in each line;
/// if one line names none, the file names none.
pub proof fn law_what_a_file_of_sandboxes_names(a: Seq<Seq<char>>, b: Seq<Seq<char>>)
    ensures
        function_ids_in(Seq::empty()) == Some(Seq::<Seq<char>>::empty()),
        function_ids_in(a + b) is Some <==> function_ids_in(a) is Some && function_ids_in(b) is Some,
        function_ids_in(a + b) is Some ==> function_ids_in(a + b)->0 == function_ids_in(a)->0
            + function_ids_in(b)->0,
        function_ids_in(a) is Some ==> function_ids_in(a)->0.len() == a.len(),
        a.len() == 1 ==> function_ids_in(a) == (match json_text_field(
            crate::text::trimmed(a[0]),
            "fid"@,
        ) {
            Ok(Some(Some(id))) => Some(seq![id]),
            _ => None,
        }),
    decreases a.len() + b.len(),
{
    if a.len() > 0 {
        law_what_a_file_of_sandboxes_names(a.drop_last(), Seq::empty());
    }
    if a.len() == 1 {
        assert(a.drop_last() =~= Seq::<Seq<char>>::empty());
        if function_ids_in(a) is Some {
            let id = json_text_field(crate::text::trimmed(a[0]), "fid"@)->Ok_0->0->0;
            assert(Seq::<Seq<char>>::empty().push(id) =~= seq![id]);
        }
    }
    if b.len() == 0 {
        assert(a + b =~= a);
        if function_ids_in(a) is Some {
            assert(function_ids_in(a)->0 + Seq::<Seq<char>>::empty() =~= function_ids_in(a)->0);
        }
    } else {
        let front = b.drop_last();
        law_what_a_file_of_sandboxes_names(a, front);
        assert((a + b).drop_last() =~= a + front);
        if function_ids_in(a + b) is Some {
            assert(function_ids_in(a + b)->0 =~= function_ids_in(a)->0 + function_ids_in(b)->0);
        }
    }
}

/// A line that is no JSON text, one that is no object and one that names no Function are told
/// apart, and a line that names one is not complained of.
pub proof fn law_what_is_wrong_with_a_line(err: SeedError, path: String, line: Seq<char>)
    requires
        explains(err, path),
        offending_line(err) == Some(line),
    ensures
        ({
            let said = json_text_field(line, "fid"@);
            &&& err is BadLine <==> said is Err
            &&& err is NotAnObject <==> said is Ok && said->Ok_0 is None
            &&& err is NoFunctionId <==> said is Ok && said->Ok_0 is Some && said->Ok_0->0 is None
            &&& err matches SeedError::BadLine { path: p, line: l, err: e } ==> p == path && l@
                == line && e@ == said->Err_0
            &&& !(said is Ok && said->Ok_0 is Some && said->Ok_0->0 is Some)
        }),
{
}

} // verus!
