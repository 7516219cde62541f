//! Removing snapshots from the database, and leaving their files alone.

use vstd::prelude::*;

use crate::faasctl::snapshots::db::{Db, DbOp};
use crate::faasctl::snapshots::ForgetCmd;
use crate::metadata::{FunctionId, SandboxId};

verus! {

/// Where the Functions are named whose snapshots are to be removed.
#[derive(Clone, Copy, Debug, PartialEq, Eq, Structural)]
pub enum ForgetSource {
    Arguments,
    File,
}

/// Why it is not known whose snapshots are to be removed.
#[derive(Clone, Copy, Debug, PartialEq, Eq, Structural)]
pub enum ForgetError {
    BothSources,
    NoFunctions,
}

impl ForgetError {
    /// The error in words.
    pub open spec fn text(self) -> Seq<char> {
        match self {
            ForgetError::BothSources =>
                "Only one of `--func` and `--from-func-file` should be provided; see --help"@,
            ForgetError::NoFunctions => "No Function IDs specified"@,
        }
    }

    /// The error in words.
    pub fn message(&self) -> (r: &'static str)
        ensures
            r@ == self.text(),
    {
        match self {
            ForgetError::BothSources =>
                "Only one of `--func` and `--from-func-file` should be provided; see --help",
            ForgetError::NoFunctions => "No Function IDs specified",
        }
    }
}

impl ForgetCmd {
    /// Where the Functions are named: there has to be exactly one such place.
    pub fn source(&self) -> (r: Result<ForgetSource, ForgetError>)
        ensures
            r == (match (self.func@.len() > 0, self.from_func_file is Some) {
                (true, true) => Err(ForgetError::BothSources),
                (false, false) => Err(ForgetError::NoFunctions),
                (false, true) => Ok(ForgetSource::File),
                (true, false) => Ok(ForgetSource::Arguments),
            }),
    {
        match (self.func.len() > 0, self.from_func_file.is_some()) {
            (true, true) => Err(ForgetError::BothSources),
            (false, false) => Err(ForgetError::NoFunctions),
            (false, true) => Ok(ForgetSource::File),
            (true, false) => Ok(ForgetSource::Arguments),
        }
    }
}

/// The names among what was read.
pub open spec fn readable(reads: Seq<Result<SandboxId, String>>) -> Seq<SandboxId>
    decreases reads.len(),
{
    if reads.len() == 0 {
        Seq::empty()
    } else {
        let rest = readable(reads.drop_last());
        match reads.last() {
            Ok(sid) => rest.push(sid),
            Err(_) => rest,
        }
    }
}

/// The removal of snapshots, one after another.
pub open spec fn removals(sids: Seq<SandboxId>) -> Seq<DbOp> {
    Seq::new(sids.len(), |i: int| DbOp::RemoveSnapshot(sids[i]))
}

/// What is removed of a Function, given what came of reading the names of its snapshots: those
/// that could be read, and then all names; nothing if nothing could be read, or if nothing is
/// to be removed.
pub open spec fn forget_plan(
    fid: FunctionId,
    read: Result<Vec<Result<SandboxId, String>>, String>,
    dry_run: bool,
) -> Seq<DbOp> {
    match read {
        Ok(reads) => if dry_run {
            Seq::empty()
        } else {
            removals(readable(reads@)).push(DbOp::RemoveFunction(fid))
        },
        Err(_) => Seq::empty(),
    }
}

/// What is removed of a Function, given what came of reading the names of its snapshots.
pub fn forget(
    fid: &FunctionId,
    read: Result<Vec<Result<SandboxId, String>>, String>,
    dry_run: bool,
) -> (r: Vec<DbOp>)
    ensures
        r@ == forget_plan(*fid, read, dry_run),
{
    let mut ops: Vec<DbOp> = Vec::new();
    if dry_run {
        return ops;
    }
    if let Ok(reads) = read {
        let ghost all = reads@;
        assert(ops@ =~= removals(readable(all.take(0))));
        for one in it: reads
            invariant
                it.seq() == all,
                ops@ == removals(readable(all.take(it.index() as int))),
        {
            proof {
                let next = all.take(it.index() + 1);
                assert(next.drop_last() =~= all.take(it.index() as int));
                assert(next.last() == one);
            }
            if let Ok(sid) = one {
                ops.push(DbOp::RemoveSnapshot(sid));
            }
            assert(ops@ =~= removals(readable(all.take(it.index() + 1))));
        }
        assert(all.take(all.len() as int) =~= all);
        ops.push(DbOp::RemoveFunction(fid.clone()));
    }
    ops
}

/// The snapshots that would be removed, given what came of reading the names of a Function's
/// snapshots.
pub fn shown(read: Result<Vec<Result<SandboxId, String>>, String>) -> (r: Vec<SandboxId>)
    ensures
        r@ == (match read {
            Ok(reads) => readable(reads@),
            Err(_) => Seq::<SandboxId>::empty(),
        }),
{
    let mut r: Vec<SandboxId> = Vec::new();
    if let Ok(reads) = read {
        let ghost all = reads@;
        assert(r@ =~= readable(all.take(0)));
        for one in it: reads
            invariant
                it.seq() == all,
                r@ == readable(all.take(it.index() as int)),
        {
            proof {
                let next = all.take(it.index() + 1);
                assert(next.drop_last() =~= all.take(it.index() as int));
                assert(next.last() == one);
            }
            if let Ok(sid) = one {
                r.push(sid);
            }
        }
        assert(all.take(all.len() as int) =~= all);
    }
    r
}

/// The names in a list.
pub open spec fn names(sids: Seq<SandboxId>) -> Set<Seq<char>> {
    Set::new(|s: Seq<char>| exists|i: int| 0 <= i < sids.len() && (#[trigger] sids[i])@ == s)
}

/// The tables without a Function and its snapshots.
pub open spec fn forgotten<St>(db: Db<St>, fid: Seq<char>) -> Db<St> {
    if db.per_func.contains_key(fid) {
        Db { per_func: db.per_func.remove(fid), snaps: db.snaps.remove_keys(db.per_func[fid]) }
    } else {
        db
    }
}

proof fn lemma_removals<St>(db: Db<St>, sids: Seq<SandboxId>)
    ensures
        crate::faasctl::snapshots::db::applied_all(db, removals(sids)) == (Db {
            per_func: db.per_func,
            snaps: db.snaps.remove_keys(names(sids)),
        }),
    decreases sids.len(),
{
    let want = db.snaps.remove_keys(names(sids));
    if sids.len() == 0 {
        assert(removals(sids) =~= Seq::<DbOp>::empty());
        assert(want =~= db.snaps);
    } else {
        let rest = sids.drop_last();
        lemma_removals(db, rest);
        assert(removals(sids).drop_last() =~= removals(rest));
        assert(removals(sids).last() == DbOp::RemoveSnapshot(sids.last()));
        assert forall|s: Seq<char>| names(sids).contains(s) == (names(rest).contains(s) || s
            == sids.last()@) by {
            if names(rest).contains(s) {
                let i = choose|i: int| 0 <= i < rest.len() && (#[trigger] rest[i])@ == s;
                assert(sids[i]@ == s);
            }
            if names(sids).contains(s) && s != sids.last()@ {
                let i = choose|i: int| 0 <= i < sids.len() && (#[trigger] sids[i])@ == s;
                assert(rest[i]@ == s);
            }
            if s == sids.last()@ {
                assert(sids[sids.len() - 1]@ == s);
            }
        }
        assert(db.snaps.remove_keys(names(rest)).remove(sids.last()@) =~= want);
    }
}

/// Forgetting a Function whose snapshots' names can all be read leaves the tables without the
/// Function and its snapshots, and all other Functions keep the names of theirs. If the tables
/// are consistent, they stay so, and those snapshots stay too.
pub proof fn law_forget_removes_the_function<St>(
    db: Db<St>,
    fid: FunctionId,
    reads: Vec<Result<SandboxId, String>>,
)
    requires
        names(readable(reads@)) == (if db.per_func.contains_key(fid@) {
            db.per_func[fid@]
        } else {
            Set::empty()
        }),
    ensures
        crate::faasctl::snapshots::db::applied_all(db, forget_plan(fid, Ok(reads), false))
            == forgotten(db, fid@),
        forall|g: Seq<char>| #[trigger]
            db.per_func.contains_key(g) && g != fid@ ==> {
                &&& forgotten(db, fid@).per_func.contains_key(g)
                &&& forgotten(db, fid@).per_func[g] == db.per_func[g]
            },
        db.consistent() ==> forgotten(db, fid@).consistent(),
        db.consistent() ==> forall|g: Seq<char>, s: Seq<char>|
            #![trigger db.per_func[g].contains(s)]
            g != fid@ && db.per_func.contains_key(g) && db.per_func[g].contains(s) ==> {
                &&& forgotten(db, fid@).snaps.contains_key(s)
                &&& forgotten(db, fid@).snaps[s] == db.snaps[s]
            },
{
    let sids = readable(reads@);
    let ops = forget_plan(fid, Ok(reads), false);
    lemma_removals(db, sids);
    assert(ops.drop_last() =~= removals(sids));
    let want = forgotten(db, fid@);
    if !db.per_func.contains_key(fid@) {
        assert(db.snaps.remove_keys(names(sids)) =~= db.snaps);
        assert(db.per_func.remove(fid@) =~= db.per_func);
    }
    assert(crate::faasctl::snapshots::db::applied_all(db, ops) == want);
    if db.consistent() {
        lemma_forgotten_is_consistent(db, fid@);
        assert forall|g: Seq<char>, s: Seq<char>|
            #![trigger db.per_func[g].contains(s)]
            g != fid@ && db.per_func.contains_key(g) && db.per_func[g].contains(s) implies {
            &&& want.snaps.contains_key(s)
            &&& want.snaps[s] == db.snaps[s]
        } by {
            assert(want.per_func[g].contains(s));
        }
    }
}

proof fn lemma_forgotten_is_consistent<St>(db: Db<St>, fid: Seq<char>)
    requires
        db.consistent(),
    ensures
        forgotten(db, fid).consistent(),
{
    let want = forgotten(db, fid);
    assert forall|s: Seq<char>| #[trigger] want.snaps.contains_key(s) implies exists|f: Seq<char>|
        want.per_func.contains_key(f) && #[trigger] want.per_func[f].contains(s) by {
        assert(db.snaps.contains_key(s));
        let f = choose|f: Seq<char>|
            db.per_func.contains_key(f) && #[trigger] db.per_func[f].contains(s);
        assert(want.per_func[f].contains(s));
    }
    assert forall|f: Seq<char>, s: Seq<char>|
        #![trigger want.per_func[f].contains(s)]
        want.per_func.contains_key(f) && want.per_func[f].contains(s) implies want.snaps.contains_key(
        s,
    ) by {
        assert(db.per_func[f].contains(s));
        if db.per_func.contains_key(fid) && db.per_func[fid].contains(s) {
            assert(f == fid);
        }
    }
    assert forall|f: Seq<char>, g: Seq<char>, s: Seq<char>|
        #![trigger want.per_func[f].contains(s), want.per_func[g].contains(s)]
        want.per_func.contains_key(f) && want.per_func.contains_key(g) && want.per_func[f].contains(
            s,
        ) && want.per_func[g].contains(s) implies f == g by {
        assert(db.per_func[f].contains(s) && db.per_func[g].contains(s));
    }
}

/// A trial run changes nothing, and neither does a Function that cannot be read.
pub proof fn law_dry_run_changes_nothing<St>(
    db: Db<St>,
    fid: FunctionId,
    read: Result<Vec<Result<SandboxId, String>>, String>,
    err: String,
)
    ensures
        crate::faasctl::snapshots::db::applied_all(db, forget_plan(fid, read, true)) == db,
        crate::faasctl::snapshots::db::applied_all(
            db,
            forget_plan(fid, Err::<Vec<Result<SandboxId, String>>, String>(err), false),
        ) == db,
{
}

/// The names that could be read are all of those that were, in their order: what is read of two
/// stretches of names is what is read of the one and then of the other, a name that was read is
/// itself, and one that was not is nothing.
pub proof fn law_which_names_could_be_read(
    a: Seq<Result<SandboxId, String>>,
    b: Seq<Result<SandboxId, String>>,
)
    ensures
        readable(a + b) == readable(a) + readable(b),
        a.len() == 0 ==> readable(a).len() == 0,
        a.len() == 1 && a[0] is Ok ==> readable(a) == seq![a[0]->Ok_0],
        a.len() == 1 && a[0] is Err ==> readable(a).len() == 0,
    decreases b.len(),
{
    if a.len() == 1 {
        assert(a.drop_last() =~= Seq::<Result<SandboxId, String>>::empty());
        assert(readable(a.drop_last()) =~= Seq::<SandboxId>::empty());
    }
    if b.len() == 0 {
        assert(a + b =~= a);
        assert(readable(a) + readable(b) =~= readable(a));
    } else {
        assert((a + b).drop_last() =~= a + b.drop_last());
        law_which_names_could_be_read(a, b.drop_last());
        assert(readable(a + b) =~= readable(a) + readable(b));
    }
}

/// A name was read, in whichever place.
pub open spec fn name_was_read(reads: Seq<Result<SandboxId, String>>, s: Seq<char>) -> bool {
    exists|i: int| 0 <= i < reads.len() && (#[trigger] reads[i]) is Ok && reads[i]->Ok_0@ == s
}

proof fn lemma_names_are_those_read(reads: Seq<Result<SandboxId, String>>, s: Seq<char>)
    ensures
        names(readable(reads)).contains(s) <==> name_was_read(reads, s),
    decreases reads.len(),
{
    if reads.len() > 0 {
        let front = reads.drop_last();
        let (rest, all) = (readable(front), readable(reads));
        lemma_names_are_those_read(front, s);
        if names(rest).contains(s) {
            let k = choose|k: int| 0 <= k < rest.len() && (#[trigger] rest[k])@ == s;
            assert(all[k]@ == s);
        }
        if names(all).contains(s) {
            let k = choose|k: int| 0 <= k < all.len() && (#[trigger] all[k])@ == s;
            if k < rest.len() {
                assert(rest[k]@ == s);
                let i = choose|i: int|
                    0 <= i < front.len() && (#[trigger] front[i]) is Ok && front[i]->Ok_0@ == s;
                assert(reads[i] == front[i]);
            } else {
                assert(reads[reads.len() - 1] is Ok);
            }
        }
        if name_was_read(reads, s) {
            let i = choose|i: int|
                0 <= i < reads.len() && (#[trigger] reads[i]) is Ok && reads[i]->Ok_0@ == s;
            if i < front.len() {
                assert(front[i] == reads[i]);
            } else {
                assert(all[all.len() - 1]@ == s);
            }
        }
    }
}

/// Forgetting a Function removes its names, whether all of them could be read or not, and of
/// what survives of sandboxes exactly what goes by a name that was read; the rest of the tables
/// stays as it is.
pub proof fn law_what_is_forgotten<St>(
    db: Db<St>,
    fid: FunctionId,
    reads: Vec<Result<SandboxId, String>>,
    s: Seq<char>,
)
    ensures
        ({
            let after = crate::faasctl::snapshots::db::applied_all(
                db,
                forget_plan(fid, Ok(reads), false),
            );
            &&& after.per_func == db.per_func.remove(fid@)
            &&& after.snaps.contains_key(s) <==> db.snaps.contains_key(s) && !name_was_read(
                reads@,
                s,
            )
            &&& after.snaps.contains_key(s) ==> after.snaps[s] == db.snaps[s]
        }),
{
    let sids = readable(reads@);
    let ops = forget_plan(fid, Ok(reads), false);
    lemma_removals(db, sids);
    assert(ops.drop_last() =~= removals(sids));
    lemma_names_are_those_read(reads@, s);
}

/// The names of a Function's snapshots go last, so that what is left after an interruption can
/// still be forgotten; nothing is done twice.
pub proof fn law_names_go_last(fid: FunctionId, reads: Vec<Result<SandboxId, String>>, i: int)
    requires
        0 <= i < forget_plan(fid, Ok(reads), false).len(),
    ensures
        forget_plan(fid, Ok(reads), false).len() <= reads@.len() + 1,
        forget_plan(fid, Ok(reads), false).last() == DbOp::RemoveFunction(fid),
        i + 1 < forget_plan(fid, Ok(reads), false).len() ==> forget_plan(fid, Ok(reads), false)[i]
            is RemoveSnapshot,
{
    lemma_readable_len(reads@);
}

proof fn lemma_readable_len(reads: Seq<Result<SandboxId, String>>)
    ensures
        readable(reads).len() <= reads.len(),
    decreases reads.len(),
{
    if reads.len() > 0 {
        lemma_readable_len(reads.drop_last());
    }
}

} // verus!
