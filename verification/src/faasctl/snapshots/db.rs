//! The tables of the database, and what is done to them.

use vstd::prelude::*;

use crate::metadata::{FunctionId, SandboxId};

verus! {

/// The tables of the database that speak of snapshots.
#[verifier::ext_equal]
pub struct Db<St> {
    /// The names of each Function's snapshots; a Function without any is not there.
    pub per_func: Map<Seq<char>, Set<Seq<char>>>,
    /// What survives of each sandbox.
    pub snaps: Map<Seq<char>, St>,
}

impl<St> Db<St> {
    /// Each snapshot belongs to exactly one Function, and is there.
    pub open spec fn consistent(self) -> bool {
        &&& forall|f: Seq<char>, s: Seq<char>|
            #![trigger self.per_func[f].contains(s)]
            self.per_func.contains_key(f) && self.per_func[f].contains(s)
                ==> self.snaps.contains_key(s)
        &&& forall|s: Seq<char>| #[trigger]
            self.snaps.contains_key(s) ==> exists|f: Seq<char>|
                self.per_func.contains_key(f) && #[trigger] self.per_func[f].contains(s)
        &&& forall|f: Seq<char>, g: Seq<char>, s: Seq<char>|
            #![trigger self.per_func[f].contains(s), self.per_func[g].contains(s)]
            self.per_func.contains_key(f) && self.per_func.contains_key(g)
                && self.per_func[f].contains(s) && self.per_func[g].contains(s) ==> f == g
    }
}

/// A change to the tables.
#[derive(Debug)]
pub enum DbOp {
    /// Remove what survives of a sandbox.
    RemoveSnapshot(SandboxId),
    /// Remove the names of all snapshots of a Function.
    RemoveFunction(FunctionId),
    /// Remove the name of one snapshot of a Function.
    RemovePair(FunctionId, SandboxId),
}

/// The tables after a change; one that finds nothing to remove changes nothing.
pub open spec fn applied<St>(db: Db<St>, op: DbOp) -> Db<St> {
    match op {
        DbOp::RemoveSnapshot(sid) => Db { snaps: db.snaps.remove(sid@), ..db },
        DbOp::RemoveFunction(fid) => Db { per_func: db.per_func.remove(fid@), ..db },
        DbOp::RemovePair(fid, sid) => if db.per_func.contains_key(fid@) {
            let rest = db.per_func[fid@].remove(sid@);
            if rest == Set::<Seq<char>>::empty() {
                Db { per_func: db.per_func.remove(fid@), ..db }
            } else {
                Db { per_func: db.per_func.insert(fid@, rest), ..db }
            }
        } else {
            db
        },
    }
}

/// The tables after some changes.
pub open spec fn applied_all<St>(db: Db<St>, ops: Seq<DbOp>) -> Db<St>
    decreases ops.len(),
{
    if ops.len() == 0 {
        db
    } else {
        applied(applied_all(db, ops.drop_last()), ops.last())
    }
}

} // verus!
