//! Snapshots in the orchestrator's database.

pub mod cp2m;
pub mod db;
pub mod forget;
pub mod ls;
pub mod mv;
pub mod sb_stats;
pub mod sync;

use vstd::prelude::*;
use vstd::string::*;

use crate::metadata::{FunctionId, SandboxStats};
use crate::runtime::SnapshotState;
use crate::text::split_text;

verus! {

/// Lists the snapshots in the database.
#[derive(Debug)]
pub struct ListCmd {
    /// Only of these Functions, if there are any.
    pub func: Vec<FunctionId>,
    /// And of those in this file, if it is given.
    pub from_func_file: Option<String>,
    pub json: bool,
}

/// Moves the files of snapshots to a directory.
#[derive(Debug)]
pub struct MoveCmd {
    /// Keep the files where they were, too.
    pub no_rm: bool,
    pub func: Vec<FunctionId>,
    pub from_func_file: Option<String>,
    pub dst: String,
    pub src: Vec<String>,
}

/// Removes snapshots from the database, but not their files.
#[derive(Debug)]
pub struct ForgetCmd {
    /// Only show what would be removed.
    pub dry_run: bool,
    pub func: Vec<FunctionId>,
    pub from_func_file: Option<String>,
}

#[derive(Debug)]
pub enum SbStatsSubCmd {
    /// Lists the counters of snapshots.
    List { json: bool },
    /// Sets them to zero.
    Zero,
}

/// Counters of snapshots.
#[derive(Debug)]
pub struct SbStatsCmd {
    pub subcmd: SbStatsSubCmd,
}

/// Looks for snapshots whose files are gone.
#[derive(Debug)]
pub struct SyncCmd {
    pub json: bool,
    /// Remove them from the database.
    pub fix: bool,
}

#[derive(Debug)]
pub enum SnapshotsSubCmd {
    List(ListCmd),
    Move(MoveCmd),
    Forget(ForgetCmd),
    SbStats(SbStatsCmd),
    Sync(SyncCmd),
}

/// Manipulates snapshots.
#[derive(Debug)]
pub struct SnapshotsCmd {
    pub db_path: String,
    pub cmd: SnapshotsSubCmd,
}

/// The parts of a text that are not empty.
pub open spec fn nonempty(parts: Seq<Seq<char>>) -> Seq<Seq<char>> {
    parts.filter(|p: Seq<char>| p.len() > 0)
}

/// The Functions in a file of names, one in each line that is not empty.
pub fn read_func_file(contents: &str) -> (r: Vec<FunctionId>)
    ensures
        crate::text::texts(r@) == nonempty(crate::text::split_on(contents@, '\n')),
{
    let parts = split_text(contents, '\n');
    let ghost all = crate::text::texts(parts@);
    let mut r: Vec<FunctionId> = Vec::new();
    let mut i: usize = 0;
    reveal(Seq::filter);
    assert(all.take(0) =~= Seq::<Seq<char>>::empty());
    while i < parts.len()
        invariant
            all == crate::text::texts(parts@),
            i <= parts.len(),
            crate::text::texts(r@) == nonempty(all.take(i as int)),
        decreases parts.len() - i,
    {
        proof {
            let next = all.take(i + 1);
            assert(next.drop_last() =~= all.take(i as int));
            assert(next.last() == parts@[i as int]@);
            reveal(Seq::filter);
        }
        let ghost done = r@;
        if parts[i].as_str().unicode_len() > 0 {
            r.push(parts[i].clone());
            assert(crate::text::texts(r@) =~= crate::text::texts(done).push(parts@[i as int]@));
        }
        i = i + 1;
    }
    assert(all.take(i as int) =~= all);
    r
}

/// What survives of a sandbox, with its counters.
pub trait SnapshotStateStatsExt: Sized {
    /// The counters.
    spec fn spec_stats(&self) -> SandboxStats;

    /// The same with all counters at zero.
    spec fn cleared(self) -> Self;

    /// Clearing the counters changes nothing else, and is done after once.
    proof fn lemma_cleared(s: Self)
        ensures
            s.cleared().spec_stats() == SandboxStats::zero(),
            s.cleared().cleared() == s.cleared(),
            s.spec_stats() == SandboxStats::zero() ==> s.cleared() == s,
    ;

    fn stats(&self) -> (r: SandboxStats)
        ensures
            r == self.spec_stats(),
    ;

    /// Sets all counters to zero.
    fn clear_stats(&mut self)
        ensures
            *final(self) == old(self).cleared(),
    ;
}

impl SnapshotStateStatsExt for crate::runtime::fcctrd::sandbox::MicroVmState {
    open spec fn spec_stats(&self) -> SandboxStats {
        self.stats
    }

    open spec fn cleared(self) -> crate::runtime::fcctrd::sandbox::MicroVmState {
        crate::runtime::fcctrd::sandbox::MicroVmState { stats: SandboxStats::zero(), ..self }
    }

    proof fn lemma_cleared(s: crate::runtime::fcctrd::sandbox::MicroVmState) {
    }

    fn stats(&self) -> (r: SandboxStats) {
        self.stats
    }

    fn clear_stats(&mut self) {
        self.stats = SandboxStats::default();
    }
}

impl SnapshotStateStatsExt for crate::runtime::fc::sandbox::MicroVmState {
    open spec fn spec_stats(&self) -> SandboxStats {
        self.stats
    }

    open spec fn cleared(self) -> crate::runtime::fc::sandbox::MicroVmState {
        crate::runtime::fc::sandbox::MicroVmState { stats: SandboxStats::zero(), ..self }
    }

    proof fn lemma_cleared(s: crate::runtime::fc::sandbox::MicroVmState) {
    }

    fn stats(&self) -> (r: SandboxStats) {
        self.stats
    }

    fn clear_stats(&mut self) {
        self.stats = SandboxStats::default();
    }
}

/// What survives of a sandbox, with the paths of its files.
pub trait SnapshotFilesExt: SnapshotState + Sized {
    /// The path of the state file, if it is known.
    spec fn spec_state_file(&self) -> Option<Seq<char>>;

    /// The path of the memory file, if it is known.
    spec fn spec_memory_file(&self) -> Option<Seq<char>>;

    /// The same with the paths that are given, and with its own where none is.
    spec fn spec_rewritten(&self, new_state: Option<String>, new_memory: Option<String>) -> Self;

    fn state_file(&self) -> (r: Option<String>)
        ensures
            r is Some == self.spec_state_file() is Some,
            r is Some ==> r->0@ == self.spec_state_file()->0,
    ;

    fn memory_file(&self) -> (r: Option<String>)
        ensures
            r is Some == self.spec_memory_file() is Some,
            r is Some ==> r->0@ == self.spec_memory_file()->0,
    ;

    /// Replaces the paths that are given, and nothing else.
    fn rewrite_files(&mut self, new_state: Option<String>, new_memory: Option<String>)
        ensures
            *final(self) == old(self).spec_rewritten(new_state, new_memory),
            final(self).spec_state_file() == (match new_state {
                Some(path) => Some(path@),
                None => old(self).spec_state_file(),
            }),
            final(self).spec_memory_file() == (match new_memory {
                Some(path) => Some(path@),
                None => old(self).spec_memory_file(),
            }),
            final(self).spec_state_id() == old(self).spec_state_id(),
    ;
}

/// An optional text.
pub open spec fn text_of(s: Option<String>) -> Option<Seq<char>> {
    match s {
        Some(s) => Some(s@),
        None => None,
    }
}

impl SnapshotFilesExt for crate::runtime::fcctrd::sandbox::MicroVmState {
    open spec fn spec_state_file(&self) -> Option<Seq<char>> {
        text_of(self.vm.snapshot_state_file)
    }

    open spec fn spec_memory_file(&self) -> Option<Seq<char>> {
        text_of(self.vm.snapshot_memory_file)
    }

    open spec fn spec_rewritten(
        &self,
        new_state: Option<String>,
        new_memory: Option<String>,
    ) -> crate::runtime::fcctrd::sandbox::MicroVmState {
        let vm = crate::runtime::fcctrd::sandbox::Vm {
            snapshot_state_file: if new_state is Some {
                new_state
            } else {
                self.vm.snapshot_state_file
            },
            snapshot_memory_file: if new_memory is Some {
                new_memory
            } else {
                self.vm.snapshot_memory_file
            },
            ..self.vm
        };
        crate::runtime::fcctrd::sandbox::MicroVmState { vm, ..*self }
    }

    fn state_file(&self) -> (r: Option<String>) {
        crate::runtime::fcctrd::info::copied(&self.vm.snapshot_state_file)
    }

    fn memory_file(&self) -> (r: Option<String>) {
        crate::runtime::fcctrd::info::copied(&self.vm.snapshot_memory_file)
    }

    fn rewrite_files(&mut self, new_state: Option<String>, new_memory: Option<String>) {
        if let Some(path) = new_state {
            self.vm.snapshot_state_file = Some(path);
        }
        if let Some(path) = new_memory {
            self.vm.snapshot_memory_file = Some(path);
        }
    }
}

impl SnapshotFilesExt for crate::runtime::fc::sandbox::MicroVmState {
    open spec fn spec_state_file(&self) -> Option<Seq<char>> {
        Some(self.snapshot.spec_state())
    }

    open spec fn spec_memory_file(&self) -> Option<Seq<char>> {
        Some(self.snapshot.spec_memory())
    }

    open spec fn spec_rewritten(
        &self,
        new_state: Option<String>,
        new_memory: Option<String>,
    ) -> crate::runtime::fc::sandbox::MicroVmState {
        let snapshot = self.snapshot.spec_rewritten(new_state, new_memory);
        crate::runtime::fc::sandbox::MicroVmState { snapshot, ..*self }
    }

    fn state_file(&self) -> (r: Option<String>) {
        Some(self.snapshot.state().to_owned())
    }

    fn memory_file(&self) -> (r: Option<String>) {
        Some(self.snapshot.memory().to_owned())
    }

    fn rewrite_files(&mut self, new_state: Option<String>, new_memory: Option<String>) {
        self.snapshot = self.snapshot.rewritten(new_state, new_memory);
    }
}

/// The names in a file stay in their order, and only the empty ones are left out.
pub proof fn law_which_names_are_in_a_file(a: Seq<Seq<char>>, b: Seq<Seq<char>>)
    ensures
        nonempty(a + b) == nonempty(a) + nonempty(b),
        a.len() == 0 ==> nonempty(a).len() == 0,
        a.len() == 1 && a[0].len() > 0 ==> nonempty(a) == a,
        a.len() == 1 && a[0].len() == 0 ==> nonempty(a).len() == 0,
{
    let keep = |p: Seq<char>| p.len() > 0;
    Seq::filter_distributes_over_add(a, b, keep);
    reveal(Seq::filter);
    if a.len() == 1 {
        assert(a.drop_last() =~= Seq::<Seq<char>>::empty());
        assert(a.drop_last().filter(keep) =~= Seq::<Seq<char>>::empty());
        assert(a.drop_last().push(a[0]) =~= a);
    }
}

/// Rewriting the files of what survives of a machine changes the paths that are given, and nothing
/// else.
pub proof fn law_rewriting_changes_paths_only(
    state: crate::runtime::fcctrd::sandbox::MicroVmState,
    new_state: Option<String>,
    new_memory: Option<String>,
)
    ensures
        ({
            let after = state.spec_rewritten(new_state, new_memory);
            &&& after.stats == state.stats
            &&& after.tap == state.tap
            &&& after.vm.id == state.vm.id
            &&& after.vm.pid == state.vm.pid
            &&& after.vm.cgroup_path == state.vm.cgroup_path
            &&& after.vm.snapshot_state_file == (if new_state is Some {
                new_state
            } else {
                state.vm.snapshot_state_file
            })
            &&& after.vm.snapshot_memory_file == (if new_memory is Some {
                new_memory
            } else {
                state.vm.snapshot_memory_file
            })
        }),
{
}

/// Clearing the counters of what survives of a machine changes nothing else of it.
pub proof fn law_clearing_changes_counters_only(
    a: crate::runtime::fcctrd::sandbox::MicroVmState,
    b: crate::runtime::fc::sandbox::MicroVmState,
)
    ensures
        a.cleared().tap == a.tap && a.cleared().vm == a.vm,
        b.cleared().tap == b.tap && b.cleared().snapshot == b.snapshot,
        a.cleared().stats.invocations == 0 && a.cleared().stats.restorations == 0,
        b.cleared().stats.invocations == 0 && b.cleared().stats.restorations == 0,
{
}

} // verus!
