//! Bringing the database in line with the file system.

use vstd::prelude::*;

use crate::faasctl::snapshots::db::{Db, DbOp};
use crate::faasctl::snapshots::ls::Snapshot;
use crate::metadata::SandboxId;

verus! {

/// What is known of a file of a snapshot.
#[derive(Clone, Copy, Debug, PartialEq, Eq, Structural)]
pub enum FileCheck {
    /// Its path is not in the database.
    NotStored,
    Found,
    NotFound,
    /// It could not be looked at.
    Failed,
}

/// A file is gone for certain.
pub open spec fn is_gone(check: FileCheck) -> bool {
    check is NotStored || check is NotFound
}

/// Whether a snapshot is complete: neither of its files is gone for certain.
pub fn check_snapshot(state: FileCheck, memory: FileCheck) -> (r: bool)
    ensures
        r == (!is_gone(state) && !is_gone(memory)),
{
    let state_gone = match state {
        FileCheck::NotStored | FileCheck::NotFound => true,
        FileCheck::Found | FileCheck::Failed => false,
    };
    let memory_gone = match memory {
        FileCheck::NotStored | FileCheck::NotFound => true,
        FileCheck::Found | FileCheck::Failed => false,
    };
    !state_gone && !memory_gone
}

/// A snapshot of that name is incomplete.
pub open spec fn is_incomplete<St>(
    snaps: Seq<Snapshot<St>>,
    complete: Seq<bool>,
    sid: Seq<char>,
) -> bool {
    exists|i: int| 0 <= i < snaps.len() && (#[trigger] snaps[i]).sid@ == sid && !complete[i]
}

/// The incomplete snapshots.
pub open spec fn incomplete<St>(snaps: Seq<Snapshot<St>>, complete: Seq<bool>) -> Seq<Snapshot<St>> {
    snaps.filter(|s: Snapshot<St>| is_incomplete(snaps, complete, s.sid@))
}

fn any_incomplete<St>(snaps: &Vec<Snapshot<St>>, complete: &Vec<bool>, sid: &SandboxId) -> (r: bool)
    requires
        snaps@.len() == complete@.len(),
    ensures
        r == is_incomplete(snaps@, complete@, sid@),
{
    let mut i: usize = 0;
    while i < snaps.len()
        invariant
            snaps@.len() == complete@.len(),
            i <= snaps.len(),
            forall|j: int| 0 <= j < i ==> (#[trigger] snaps@[j]).sid@ != sid@ || complete@[j],
        decreases snaps.len() - i,
    {
        if snaps[i].sid == *sid && !complete[i] {
            return true;
        }
        i = i + 1;
    }
    false
}

/// The incomplete snapshots, given which of them are complete: a name that two Functions share
/// is incomplete if it is so for either.
pub fn incomplete_snapshots<St>(snaps: Vec<Snapshot<St>>, complete: &Vec<bool>) -> (r: Vec<
    Snapshot<St>,
>)
    requires
        snaps@.len() == complete@.len(),
    ensures
        r@ == incomplete(snaps@, complete@),
{
    let ghost all = snaps@;
    let mut keep: Vec<bool> = Vec::new();
    let mut i: usize = 0;
    while i < snaps.len()
        invariant
            all == snaps@,
            snaps@.len() == complete@.len(),
            i <= snaps.len(),
            keep@.len() == i,
            forall|j: int|
                0 <= j < i ==> #[trigger] keep@[j] == is_incomplete(
                    all,
                    complete@,
                    all[j].sid@,
                ),
        decreases snaps.len() - i,
    {
        keep.push(any_incomplete(&snaps, complete, &snaps[i].sid));
        i = i + 1;
    }
    let ghost wanted = |s: Snapshot<St>| is_incomplete(all, complete@, s.sid@);
    let mut r: Vec<Snapshot<St>> = Vec::new();
    let mut k: usize = 0;
    reveal(Seq::filter);
    assert(all.take(0).filter(wanted) =~= Seq::<Snapshot<St>>::empty());
    for snap in it: snaps
        invariant
            it.seq() == all,
            k == it.index(),
            keep.len() == all.len(),
            forall|j: int|
                0 <= j < all.len() ==> #[trigger] keep@[j] == is_incomplete(
                    all,
                    complete@,
                    all[j].sid@,
                ),
            wanted == (|s: Snapshot<St>| is_incomplete(all, complete@, s.sid@)),
            r@ == all.take(it.index() as int).filter(wanted),
    {
        proof {
            let next = all.take(it.index() + 1);
            assert(next.drop_last() =~= all.take(it.index() as int));
            assert(next.last() == snap);
            reveal(Seq::filter);
        }
        if keep[k] {
            r.push(snap);
        }
        k = k + 1;
    }
    assert(all.take(all.len() as int) =~= all);
    r
}

/// The removal of snapshots from the tables: of each its name, and then what survives of it.
pub open spec fn removal_plan<St>(snaps: Seq<Snapshot<St>>) -> Seq<DbOp>
    decreases snaps.len(),
{
    if snaps.len() == 0 {
        Seq::empty()
    } else {
        removal_plan(snaps.drop_last()).push(
            DbOp::RemovePair(snaps.last().fid, snaps.last().sid),
        ).push(DbOp::RemoveSnapshot(snaps.last().sid))
    }
}

/// The removal of snapshots from the tables; all of it is done, or nothing.
pub fn remove_db_snapshots<St>(snaps: &Vec<Snapshot<St>>) -> (r: Vec<DbOp>)
    ensures
        r@ == removal_plan(snaps@),
{
    let mut r: Vec<DbOp> = Vec::new();
    let mut i: usize = 0;
    assert(r@ =~= removal_plan(snaps@.take(0)));
    while i < snaps.len()
        invariant
            i <= snaps.len(),
            r@ == removal_plan(snaps@.take(i as int)),
        decreases snaps.len() - i,
    {
        proof {
            let next = snaps@.take(i + 1);
            assert(next.drop_last() =~= snaps@.take(i as int));
            assert(next.last() == snaps@[i as int]);
        }
        r.push(DbOp::RemovePair(snaps[i].fid.clone(), snaps[i].sid.clone()));
        r.push(DbOp::RemoveSnapshot(snaps[i].sid.clone()));
        i = i + 1;
    }
    assert(snaps@.take(i as int) =~= snaps@);
    r
}

/// A snapshot of that name is in a list.
pub open spec fn has_sid<St>(snaps: Seq<Snapshot<St>>, sid: Seq<char>) -> bool {
    exists|i: int| 0 <= i < snaps.len() && (#[trigger] snaps[i]).sid@ == sid
}

/// The tables `after` are those of `db` without the snapshots in a list.
pub open spec fn is_without<St>(after: Db<St>, db: Db<St>, snaps: Seq<Snapshot<St>>) -> bool {
    &&& forall|s: Seq<char>| #[trigger]
        after.snaps.contains_key(s) == (db.snaps.contains_key(s) && !has_sid(snaps, s))
    &&& forall|s: Seq<char>| #[trigger]
        after.snaps.contains_key(s) ==> after.snaps[s] == db.snaps[s]
    &&& forall|f: Seq<char>, s: Seq<char>| #[trigger]
        has_pair(after, f, s) == (has_pair(db, f, s) && !has_sid(snaps, s))
}

/// A Function has a snapshot of that name.
pub open spec fn has_pair<St>(db: Db<St>, fid: Seq<char>, sid: Seq<char>) -> bool {
    db.per_func.contains_key(fid) && db.per_func[fid].contains(sid)
}

/// Removing snapshots under the Functions that they belong to removes exactly them: nothing
/// is left of them in the tables, all others stay as they are, and consistent tables stay
/// consistent.
pub proof fn law_fix_removes_exactly_the_listed<St>(db: Db<St>, snaps: Seq<Snapshot<St>>)
    requires
        db.consistent(),
        forall|i: int|
            0 <= i < snaps.len() ==> has_pair(db, (#[trigger] snaps[i]).fid@, snaps[i].sid@),
    ensures
        is_without(
            crate::faasctl::snapshots::db::applied_all(db, removal_plan(snaps)),
            db,
            snaps,
        ),
        crate::faasctl::snapshots::db::applied_all(db, removal_plan(snaps)).consistent(),
    decreases snaps.len(),
{
    let after = crate::faasctl::snapshots::db::applied_all(db, removal_plan(snaps));
    if snaps.len() > 0 {
        let rest = snaps.drop_last();
        let last = snaps.last();
        let (fid, sid) = (last.fid@, last.sid@);
        assert forall|i: int| 0 <= i < rest.len() implies has_pair(
            db,
            (#[trigger] rest[i]).fid@,
            rest[i].sid@,
        ) by {
            assert(rest[i] == snaps[i]);
        }
        law_fix_removes_exactly_the_listed(db, rest);
        let mid = crate::faasctl::snapshots::db::applied_all(db, removal_plan(rest));
        let pair = DbOp::RemovePair(last.fid, last.sid);
        let unpaired = crate::faasctl::snapshots::db::applied(mid, pair);
        let plan = removal_plan(snaps);
        assert(plan.drop_last() =~= removal_plan(rest).push(pair));
        assert(plan.drop_last().drop_last() =~= removal_plan(rest));
        assert(crate::faasctl::snapshots::db::applied_all(db, plan.drop_last()) == unpaired);
        assert(after == crate::faasctl::snapshots::db::applied(
            unpaired,
            DbOp::RemoveSnapshot(last.sid),
        ));
        assert(snaps[snaps.len() - 1] == last);
        assert(has_pair(db, fid, sid));
        assert forall|s: Seq<char>| #[trigger] has_sid(snaps, s) == (has_sid(rest, s) || s == sid) by {
            if has_sid(rest, s) {
                let i = choose|i: int| 0 <= i < rest.len() && (#[trigger] rest[i]).sid@ == s;
                assert(snaps[i].sid@ == s);
            }
            if has_sid(snaps, s) && s != sid {
                let i = choose|i: int| 0 <= i < snaps.len() && (#[trigger] snaps[i]).sid@ == s;
                assert(rest[i].sid@ == s);
            }
        }
        assert forall|f: Seq<char>, s: Seq<char>| #[trigger]
            has_pair(after, f, s) == (has_pair(db, f, s) && !has_sid(snaps, s)) by {
            assert(has_pair(mid, f, s) == (has_pair(db, f, s) && !has_sid(rest, s)));
            if f == fid && mid.per_func.contains_key(fid) {
                let left = mid.per_func[fid].remove(sid);
                assert(left == Set::<Seq<char>>::empty() ==> !left.contains(s));
            }
            assert(has_pair(unpaired, f, s) == (has_pair(mid, f, s) && !(f == fid && s == sid)));
            if has_pair(db, f, s) && s == sid {
                assert(db.per_func[f].contains(s) && db.per_func[fid].contains(s));
                assert(f == fid);
            }
        }
        assert forall|s: Seq<char>| #[trigger]
            after.snaps.contains_key(s) == (db.snaps.contains_key(s) && !has_sid(snaps, s)) by {
            assert(mid.snaps.contains_key(s) == (db.snaps.contains_key(s) && !has_sid(rest, s)));
        }
        assert forall|s: Seq<char>| #[trigger] after.snaps.contains_key(s) implies after.snaps[s]
            == db.snaps[s] by {
            assert(mid.snaps.contains_key(s));
        }
    }
    lemma_without_is_consistent(after, db, snaps);
}

proof fn lemma_without_is_consistent<St>(after: Db<St>, db: Db<St>, snaps: Seq<Snapshot<St>>)
    requires
        db.consistent(),
        is_without(after, db, snaps),
    ensures
        after.consistent(),
{
    assert forall|f: Seq<char>, s: Seq<char>|
        #![trigger after.per_func[f].contains(s)]
        after.per_func.contains_key(f) && after.per_func[f].contains(
            s,
        ) implies after.snaps.contains_key(s) by {
        assert(has_pair(after, f, s));
        assert(db.per_func[f].contains(s));
    }
    assert forall|s: Seq<char>| #[trigger] after.snaps.contains_key(s) implies exists|f: Seq<char>|
        after.per_func.contains_key(f) && #[trigger] after.per_func[f].contains(s) by {
        assert(db.snaps.contains_key(s));
        let f = choose|f: Seq<char>|
            db.per_func.contains_key(f) && #[trigger] db.per_func[f].contains(s);
        assert(has_pair(db, f, s));
        assert(has_pair(after, f, s));
        assert(after.per_func[f].contains(s));
    }
    assert forall|f: Seq<char>, g: Seq<char>, s: Seq<char>|
        #![trigger after.per_func[f].contains(s), after.per_func[g].contains(s)]
        after.per_func.contains_key(f) && after.per_func.contains_key(g)
            && after.per_func[f].contains(s) && after.per_func[g].contains(s) implies f == g by {
        assert(has_pair(after, f, s) && has_pair(after, g, s));
        assert(db.per_func[f].contains(s) && db.per_func[g].contains(s));
    }
}

/// Only what is known of a file counts against it: one that was found is not gone, nor is one
/// that could not be looked at. One that was looked for in vain is gone, and so is one that
/// nobody knows the path of.
pub proof fn law_which_files_are_gone(check: FileCheck)
    ensures
        check == FileCheck::Found || check == FileCheck::Failed ==> !is_gone(check),
        check == FileCheck::NotFound || check == FileCheck::NotStored ==> is_gone(check),
{
}

/// Every incomplete snapshot is found, and nothing is found but what goes by the name of an
/// incomplete one. Where no two go by one name, exactly the incomplete ones are found.
pub proof fn law_which_snapshots_are_incomplete<St>(
    snaps: Seq<Snapshot<St>>,
    complete: Seq<bool>,
    i: int,
    k: int,
)
    requires
        snaps.len() == complete.len(),
        0 <= i < snaps.len(),
    ensures
        !complete[i] ==> incomplete(snaps, complete).contains(snaps[i]),
        0 <= k < incomplete(snaps, complete).len() ==> exists|j: int|
            0 <= j < snaps.len() && !complete[j] && (#[trigger] snaps[j]).sid@ == incomplete(
                snaps,
                complete,
            )[k].sid@,
        (forall|j: int| 0 <= j < snaps.len() && j != i ==> (#[trigger] snaps[j]).sid@ != snaps[i].sid@)
            ==> (incomplete(snaps, complete).contains(snaps[i]) <==> !complete[i]),
        incomplete(snaps, complete).len() <= snaps.len(),
{
    let wanted = |s: Snapshot<St>| is_incomplete(snaps, complete, s.sid@);
    let found = incomplete(snaps, complete);
    snaps.lemma_filter_len(wanted);
    if !complete[i] {
        assert(wanted(snaps[i]));
        snaps.lemma_filter_contains(wanted, i);
    }
    if 0 <= k < found.len() {
        snaps.lemma_filter_pred(wanted, k);
        assert(wanted(found[k]));
        let j = choose|j: int|
            0 <= j < snaps.len() && (#[trigger] snaps[j]).sid@ == found[k].sid@ && !complete[j];
        assert(snaps[j].sid@ == found[k].sid@);
    }
    if found.contains(snaps[i]) {
        let m = choose|m: int| 0 <= m < found.len() && found[m] == snaps[i];
        snaps.lemma_filter_pred(wanted, m);
        assert(wanted(found[m]));
    }
}

/// Where nothing is complete everything is found as it was listed, and where everything is
/// nothing is.
pub proof fn law_all_or_nothing_is_incomplete<St>(snaps: Seq<Snapshot<St>>, complete: Seq<bool>)
    requires
        snaps.len() == complete.len(),
    ensures
        (forall|i: int| 0 <= i < complete.len() ==> !#[trigger] complete[i]) ==> incomplete(
            snaps,
            complete,
        ) == snaps,
        (forall|i: int| 0 <= i < complete.len() ==> #[trigger] complete[i]) ==> incomplete(
            snaps,
            complete,
        ).len() == 0,
{
    let wanted = |s: Snapshot<St>| is_incomplete(snaps, complete, s.sid@);
    if forall|i: int| 0 <= i < complete.len() ==> !#[trigger] complete[i] {
        assert forall|i: int| 0 <= i < snaps.len() implies wanted(#[trigger] snaps[i]) by {
            assert(!complete[i]);
        }
        lemma_filter_keeps_all(snaps, wanted);
    }
    if forall|i: int| 0 <= i < complete.len() ==> #[trigger] complete[i] {
        if incomplete(snaps, complete).len() > 0 {
            snaps.lemma_filter_pred(wanted, 0);
            let one = incomplete(snaps, complete)[0];
            assert(wanted(one));
            let j = choose|j: int|
                0 <= j < snaps.len() && (#[trigger] snaps[j]).sid@ == one.sid@ && !complete[j];
            assert(complete[j]);
        }
    }
}

proof fn lemma_filter_keeps_all<T>(s: Seq<T>, pred: spec_fn(T) -> bool)
    requires
        forall|i: int| 0 <= i < s.len() ==> pred(#[trigger] s[i]),
    ensures
        s.filter(pred) == s,
    decreases s.len(),
{
    reveal(Seq::filter);
    if s.len() > 0 {
        let front = s.drop_last();
        assert forall|i: int| 0 <= i < front.len() implies pred(#[trigger] front[i]) by {
            assert(front[i] == s[i]);
        }
        lemma_filter_keeps_all(front, pred);
        assert(pred(s[s.len() - 1]));
        assert(front.push(s.last()) =~= s);
    }
}

} // verus!
