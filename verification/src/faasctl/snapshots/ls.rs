//! Listing the snapshots in the database.

use vstd::prelude::*;

use crate::faasctl::snapshots::db::Db;
use crate::metadata::{FunctionId, SandboxId};

verus! {

/// A snapshot in the database.
#[derive(Debug)]
pub struct Snapshot<St> {
    pub fid: FunctionId,
    pub sid: SandboxId,
    pub state: St,
}

/// What came of looking a snapshot up.
#[derive(Debug)]
pub enum StateRead<St> {
    Found(St),
    /// There is no snapshot of that name, although a Function has one.
    Missing,
    Failed(String),
}

/// What came of reading the name of one of a Function's snapshots.
#[derive(Debug)]
pub enum SidRead<St> {
    Sid { sid: SandboxId, state: StateRead<St> },
    Failed(String),
}

/// What came of reading a Function and the names of its snapshots.
#[derive(Debug)]
pub enum FuncRead<St> {
    Func { fid: FunctionId, sids: Vec<SidRead<St>> },
    Failed(String),
}

/// The snapshot that was read, if it was.
pub open spec fn read_snapshot<St>(fid: FunctionId, read: SidRead<St>) -> Option<Snapshot<St>> {
    match read {
        SidRead::Sid { sid, state: StateRead::Found(state) } => Some(Snapshot { fid, sid, state }),
        _ => None,
    }
}

/// The snapshots of a Function that were read, in the order of their names.
pub open spec fn listed_sids<St>(fid: FunctionId, reads: Seq<SidRead<St>>) -> Seq<Snapshot<St>>
    decreases reads.len(),
{
    if reads.len() == 0 {
        Seq::empty()
    } else {
        let rest = listed_sids(fid, reads.drop_last());
        match read_snapshot(fid, reads.last()) {
            Some(snap) => rest.push(snap),
            None => rest,
        }
    }
}

/// The snapshots of a Function that were read.
pub open spec fn listed_func<St>(read: FuncRead<St>) -> Seq<Snapshot<St>> {
    match read {
        FuncRead::Func { fid, sids } => listed_sids(fid, sids@),
        FuncRead::Failed(_) => Seq::empty(),
    }
}

/// The snapshots that were read, one Function after another.
pub open spec fn listed<St>(reads: Seq<FuncRead<St>>) -> Seq<Snapshot<St>>
    decreases reads.len(),
{
    if reads.len() == 0 {
        Seq::empty()
    } else {
        listed(reads.drop_last()) + listed_func(reads.last())
    }
}

fn list_sids<St>(fid: &FunctionId, reads: Vec<SidRead<St>>, out: &mut Vec<Snapshot<St>>)
    ensures
        final(out)@ == old(out)@ + listed_sids(*fid, reads@),
{
    let ghost before = out@;
    let ghost all = reads@;
    assert(listed_sids(*fid, all.take(0)) =~= Seq::<Snapshot<St>>::empty());
    assert(out@ =~= before + listed_sids(*fid, all.take(0)));
    for read in it: reads
        invariant
            it.seq() == all,
            out@ == before + listed_sids(*fid, all.take(it.index() as int)),
    {
        proof {
            let next = all.take(it.index() + 1);
            assert(next.drop_last() =~= all.take(it.index() as int));
            assert(next.last() == read);
        }
        match read {
            SidRead::Sid { sid, state: StateRead::Found(state) } => {
                out.push(Snapshot { fid: fid.clone(), sid, state });
            },
            _ => {},
        }
        assert(out@ =~= before + listed_sids(*fid, all.take(it.index() + 1)));
    }
    assert(all.take(all.len() as int) =~= all);
}

/// The snapshots in the database, given what came of reading its tables: what could not be
/// read, or is not there, is left out.
pub fn ls_snapshots<St>(reads: Vec<FuncRead<St>>) -> (r: Vec<Snapshot<St>>)
    ensures
        r@ == listed(reads@),
{
    let ghost all = reads@;
    let mut r: Vec<Snapshot<St>> = Vec::new();
    assert(r@ =~= listed(all.take(0)));
    for read in it: reads
        invariant
            it.seq() == all,
            r@ == listed(all.take(it.index() as int)),
    {
        proof {
            let next = all.take(it.index() + 1);
            assert(next.drop_last() =~= all.take(it.index() as int));
            assert(next.last() == read);
        }
        let ghost before = r@;
        match read {
            FuncRead::Func { fid, sids } => {
                list_sids(&fid, sids, &mut r);
            },
            FuncRead::Failed(_) => {
                assert(before + Seq::<Snapshot<St>>::empty() =~= before);
            },
        }
    }
    assert(all.take(all.len() as int) =~= all);
    r
}

/// A Function is in a list.
pub open spec fn is_in(list: Seq<FunctionId>, fid: Seq<char>) -> bool {
    exists|i: int| 0 <= i < list.len() && (#[trigger] list[i])@ == fid
}

/// Whether a Function is in a list.
pub fn contains_id(list: &Vec<FunctionId>, fid: &FunctionId) -> (r: bool)
    ensures
        r == is_in(list@, fid@),
{
    let mut i: usize = 0;
    while i < list.len()
        invariant
            i <= list.len(),
            forall|j: int| 0 <= j < i ==> (#[trigger] list@[j])@ != fid@,
        decreases list.len() - i,
    {
        if list[i] == *fid {
            return true;
        }
        i = i + 1;
    }
    false
}

/// The Functions that a listing is about: those that were named and those in the file that
/// was given.
pub fn wanted_functions(func: Vec<FunctionId>, from_file: Option<Vec<FunctionId>>) -> (r: Vec<
    FunctionId,
>)
    ensures
        r@ == func@ + (match from_file {
            Some(more) => more@,
            None => Seq::<FunctionId>::empty(),
        }),
{
    let mut r = func;
    if let Some(more) = from_file {
        let mut more = more;
        r.append(&mut more);
    } else {
        assert(func@ + Seq::<FunctionId>::empty() =~= func@);
    }
    r
}

/// The snapshots of the Functions in a list, or all if there are none in it.
pub open spec fn of_functions<St>(snaps: Seq<Snapshot<St>>, list: Seq<FunctionId>) -> Seq<
    Snapshot<St>,
> {
    if list.len() == 0 {
        snaps
    } else {
        snaps.filter(|s: Snapshot<St>| is_in(list, s.fid@))
    }
}

/// The snapshots of the Functions in a list, or all if there are none in it.
pub fn list<St>(snaps: Vec<Snapshot<St>>, retained: &Vec<FunctionId>) -> (r: Vec<Snapshot<St>>)
    ensures
        r@ == of_functions(snaps@, retained@),
{
    if retained.len() == 0 {
        return snaps;
    }
    let ghost all = snaps@;
    let ghost keep = |s: Snapshot<St>| is_in(retained@, s.fid@);
    let mut r: Vec<Snapshot<St>> = Vec::new();
    reveal(Seq::filter);
    assert(all.take(0).filter(keep) =~= Seq::<Snapshot<St>>::empty());
    for snap in it: snaps
        invariant
            it.seq() == all,
            keep == (|s: Snapshot<St>| is_in(retained@, s.fid@)),
            r@ == all.take(it.index() as int).filter(keep),
    {
        proof {
            let next = all.take(it.index() + 1);
            assert(next.drop_last() =~= all.take(it.index() as int));
            assert(next.last() == snap);
            reveal(Seq::filter);
        }
        if contains_id(retained, &snap.fid) {
            r.push(snap);
        }
    }
    assert(all.take(all.len() as int) =~= all);
    r
}

/// A name was read together with its snapshot.
pub open spec fn was_read<St>(read: FuncRead<St>, j: int, snap: Snapshot<St>) -> bool {
    match read {
        FuncRead::Func { fid, sids } => 0 <= j < sids@.len() && read_snapshot(fid, sids@[j]) == Some(
            snap,
        ),
        FuncRead::Failed(_) => false,
    }
}

proof fn lemma_listed_sids<St>(fid: FunctionId, reads: Seq<SidRead<St>>, snap: Snapshot<St>)
    ensures
        listed_sids(fid, reads).contains(snap) <==> exists|j: int|
            0 <= j < reads.len() && read_snapshot(fid, #[trigger] reads[j]) == Some(snap),
    decreases reads.len(),
{
    if reads.len() > 0 {
        let front = reads.drop_last();
        let rest = listed_sids(fid, front);
        let all = listed_sids(fid, reads);
        lemma_listed_sids(fid, front, snap);
        if all.contains(snap) {
            let k = choose|k: int| 0 <= k < all.len() && all[k] == snap;
            if k < rest.len() {
                assert(rest[k] == snap);
                let j = choose|j: int|
                    0 <= j < front.len() && read_snapshot(fid, #[trigger] front[j]) == Some(snap);
                assert(reads[j] == front[j]);
            } else {
                assert(reads[reads.len() - 1] == reads.last());
            }
        }
        if exists|j: int|
            0 <= j < reads.len() && read_snapshot(fid, #[trigger] reads[j]) == Some(snap) {
            let j = choose|j: int|
                0 <= j < reads.len() && read_snapshot(fid, #[trigger] reads[j]) == Some(snap);
            if j < front.len() {
                assert(front[j] == reads[j]);
                let k = choose|k: int| 0 <= k < rest.len() && rest[k] == snap;
                assert(all[k] == snap);
            } else {
                assert(all[all.len() - 1] == snap);
            }
        }
    }
}

/// What is listed is what was read: no more and no less.
pub proof fn law_listing_is_what_was_read<St>(reads: Seq<FuncRead<St>>, snap: Snapshot<St>)
    ensures
        listed(reads).contains(snap) <==> exists|i: int, j: int|
            0 <= i < reads.len() && #[trigger] was_read(reads[i], j, snap),
    decreases reads.len(),
{
    if reads.len() > 0 {
        let front = reads.drop_last();
        let head = listed(front);
        let tail = listed_func(reads.last());
        let all = listed(reads);
        law_listing_is_what_was_read(front, snap);
        match reads.last() {
            FuncRead::Func { fid, sids } => lemma_listed_sids(fid, sids@, snap),
            FuncRead::Failed(_) => {},
        }
        assert(reads[reads.len() - 1] == reads.last());
        if all.contains(snap) {
            let k = choose|k: int| 0 <= k < all.len() && all[k] == snap;
            if k < head.len() {
                assert(head[k] == snap);
                let (i, j) = choose|i: int, j: int|
                    0 <= i < front.len() && #[trigger] was_read(front[i], j, snap);
                assert(was_read(reads[i], j, snap));
            } else {
                assert(tail[k - head.len()] == snap);
                let sids = reads.last()->sids@;
                let fid = reads.last()->fid;
                let j = choose|j: int|
                    0 <= j < sids.len() && read_snapshot(fid, #[trigger] sids[j]) == Some(snap);
                assert(was_read(reads[reads.len() - 1], j, snap));
            }
        }
        if exists|i: int, j: int|
            0 <= i < reads.len() && #[trigger] was_read(reads[i], j, snap) {
            let (i, j) = choose|i: int, j: int|
                0 <= i < reads.len() && #[trigger] was_read(reads[i], j, snap);
            if i < front.len() {
                assert(was_read(front[i], j, snap));
                let k = choose|k: int| 0 <= k < head.len() && head[k] == snap;
                assert(all[k] == snap);
            } else {
                let sids = reads.last()->sids@;
                let fid = reads.last()->fid;
                assert(read_snapshot(fid, sids[j]) == Some(snap));
                assert(tail.contains(snap));
                let k = choose|k: int| 0 <= k < tail.len() && tail[k] == snap;
                assert(all[head.len() + k] == snap);
            }
        }
    }
}

/// All of the tables could be read.
pub open spec fn is_faithful<St>(db: Db<St>, reads: Seq<FuncRead<St>>) -> bool {
    &&& forall|i: int, j: int, snap: Snapshot<St>|
        0 <= i < reads.len() && #[trigger] was_read(reads[i], j, snap) ==> {
            &&& db.per_func.contains_key(snap.fid@)
            &&& db.per_func[snap.fid@].contains(snap.sid@)
            &&& db.snaps.contains_key(snap.sid@)
            &&& db.snaps[snap.sid@] == snap.state
        }
    &&& forall|f: Seq<char>, s: Seq<char>|
        #![trigger db.per_func[f].contains(s)]
        db.per_func.contains_key(f) && db.per_func[f].contains(s) ==> exists|
            i: int,
            j: int,
            snap: Snapshot<St>,
        |
            0 <= i < reads.len() && #[trigger] was_read(reads[i], j, snap) && snap.fid@ == f
                && snap.sid@ == s
}

/// If all of the tables could be read, every snapshot of every Function is listed, as it is in
/// the database, and nothing else is.
pub proof fn law_listing_is_complete<St>(
    db: Db<St>,
    reads: Seq<FuncRead<St>>,
    f: Seq<char>,
    s: Seq<char>,
)
    requires
        is_faithful(db, reads),
    ensures
        forall|snap: Snapshot<St>| #[trigger]
            listed(reads).contains(snap) ==> db.per_func.contains_key(snap.fid@)
                && db.per_func[snap.fid@].contains(snap.sid@) && db.snaps.contains_key(snap.sid@)
                && db.snaps[snap.sid@] == snap.state,
        db.per_func.contains_key(f) && db.per_func[f].contains(s) ==> exists|snap: Snapshot<St>|
            #[trigger] listed(reads).contains(snap) && snap.fid@ == f && snap.sid@ == s,
{
    assert forall|snap: Snapshot<St>| #[trigger] listed(reads).contains(
        snap,
    ) implies db.per_func.contains_key(snap.fid@) && db.per_func[snap.fid@].contains(snap.sid@)
        && db.snaps.contains_key(snap.sid@) && db.snaps[snap.sid@] == snap.state by {
        law_listing_is_what_was_read(reads, snap);
    }
    if db.per_func.contains_key(f) && db.per_func[f].contains(s) {
        let (i, j, snap) = choose|i: int, j: int, snap: Snapshot<St>|
            0 <= i < reads.len() && #[trigger] was_read(reads[i], j, snap) && snap.fid@ == f
                && snap.sid@ == s;
        law_listing_is_what_was_read(reads, snap);
        assert(listed(reads).contains(snap));
    }
}

/// The snapshots of Functions are listed in the order in which the Functions were read, and of a
/// Function that could not be read none is.
pub proof fn law_functions_are_listed_in_order<St>(
    a: Seq<FuncRead<St>>,
    b: Seq<FuncRead<St>>,
)
    ensures
        listed(a + b) == listed(a) + listed(b),
        a.len() == 0 ==> listed(a).len() == 0,
        a.len() == 1 ==> listed(a) == listed_func(a[0]),
        a.len() == 1 && a[0] is Failed ==> listed(a).len() == 0,
    decreases b.len(),
{
    if a.len() == 1 {
        assert(a.drop_last() =~= Seq::<FuncRead<St>>::empty());
        assert(listed(a.drop_last()) =~= Seq::<Snapshot<St>>::empty());
        assert(listed(a) =~= listed_func(a[0]));
    }
    if b.len() == 0 {
        assert(a + b =~= a);
        assert(listed(a) + listed(b) =~= listed(a));
    } else {
        assert((a + b).drop_last() =~= a + b.drop_last());
        law_functions_are_listed_in_order(a, b.drop_last());
        assert(listed(a + b) =~= listed(a) + listed(b));
    }
}

proof fn lemma_sids_in_order<St>(fid: FunctionId, a: Seq<SidRead<St>>, b: Seq<SidRead<St>>)
    ensures
        listed_sids(fid, a + b) == listed_sids(fid, a) + listed_sids(fid, b),
    decreases b.len(),
{
    if b.len() == 0 {
        assert(a + b =~= a);
        assert(listed_sids(fid, a) + listed_sids(fid, b) =~= listed_sids(fid, a));
    } else {
        assert((a + b).drop_last() =~= a + b.drop_last());
        lemma_sids_in_order(fid, a, b.drop_last());
        assert(listed_sids(fid, a + b) =~= listed_sids(fid, a) + listed_sids(fid, b));
    }
}

/// The snapshots of a Function are listed in the order in which their names were read. One that
/// was found is listed under its name and that of the Function, with what survives of it; one
/// that is missing or could not be read is not listed, and leaves no gap.
pub proof fn law_names_are_listed_in_order<St>(
    fid: FunctionId,
    a: Vec<SidRead<St>>,
    b: Vec<SidRead<St>>,
    both: Vec<SidRead<St>>,
)
    requires
        both@ == a@ + b@,
    ensures
        listed_func(FuncRead::Func { fid, sids: both }) == listed_func(
            FuncRead::Func { fid, sids: a },
        ) + listed_func(FuncRead::Func { fid, sids: b }),
        a@.len() == 0 ==> listed_func(FuncRead::Func { fid, sids: a }).len() == 0,
        a@.len() == 1 ==> (match a@[0] {
            SidRead::Sid { sid, state: StateRead::Found(state) } => listed_func(
                FuncRead::Func { fid, sids: a },
            ) == seq![Snapshot { fid, sid, state }],
            _ => listed_func(FuncRead::Func { fid, sids: a }).len() == 0,
        }),
{
    lemma_sids_in_order(fid, a@, b@);
    if a@.len() == 1 {
        assert(a@.drop_last() =~= Seq::<SidRead<St>>::empty());
        assert(listed_sids(fid, a@.drop_last()) =~= Seq::<Snapshot<St>>::empty());
    }
}

/// Without a list of Functions everything is shown. With one, the snapshots of the Functions in
/// it are shown in the order that they have, and no others.
pub proof fn law_what_is_shown<St>(
    a: Seq<Snapshot<St>>,
    b: Seq<Snapshot<St>>,
    list: Seq<FunctionId>,
)
    ensures
        list.len() == 0 ==> of_functions(a, list) == a,
        of_functions(a + b, list) == of_functions(a, list) + of_functions(b, list),
        a.len() == 1 && list.len() > 0 && (exists|i: int|
            0 <= i < list.len() && (#[trigger] list[i])@ == a[0].fid@) ==> of_functions(a, list)
            == a,
        a.len() == 1 && list.len() > 0 && (forall|i: int|
            0 <= i < list.len() ==> (#[trigger] list[i])@ != a[0].fid@) ==> of_functions(
            a,
            list,
        ).len() == 0,
{
    let keep = |s: Snapshot<St>| is_in(list, s.fid@);
    Seq::filter_distributes_over_add(a, b, keep);
    if a.len() == 1 {
        reveal(Seq::filter);
        assert(a.drop_last() =~= Seq::<Snapshot<St>>::empty());
        assert(a.drop_last().filter(keep) =~= Seq::<Snapshot<St>>::empty());
        assert(keep(a[0]) == is_in(list, a[0].fid@));
        assert(a.drop_last().push(a[0]) =~= a);
    }
}

} // verus!
