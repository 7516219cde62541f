//! The counters of snapshots in the database.

use vstd::prelude::*;
use vstd::seq_lib::*;

use crate::faasctl::snapshots::ls::{Snapshot, StateRead};
use crate::faasctl::snapshots::SnapshotStateStatsExt;
use crate::metadata::SandboxStats;

verus! {

/// No snapshot is used less than one that comes after it.
pub open spec fn is_descending<St: SnapshotStateStatsExt>(snaps: Seq<Snapshot<St>>) -> bool {
    forall|i: int, j: int|
        0 <= i < j < snaps.len() ==> !SandboxStats::less_used(
            (#[trigger] snaps[i]).state.spec_stats(),
            (#[trigger] snaps[j]).state.spec_stats(),
        )
}

/// Where a snapshot goes among others that are in order: before the first that is used less.
fn place<St: SnapshotStateStatsExt>(snaps: &Vec<Snapshot<St>>, stats: SandboxStats) -> (r: usize)
    requires
        is_descending(snaps@),
    ensures
        r <= snaps@.len(),
        forall|i: int|
            0 <= i < r ==> !SandboxStats::less_used(
                (#[trigger] snaps@[i]).state.spec_stats(),
                stats,
            ),
        forall|i: int|
            r <= i < snaps@.len() ==> SandboxStats::less_used(
                (#[trigger] snaps@[i]).state.spec_stats(),
                stats,
            ),
{
    let mut i: usize = 0;
    while i < snaps.len()
        invariant
            is_descending(snaps@),
            i <= snaps.len(),
            forall|k: int|
                0 <= k < i ==> !SandboxStats::less_used(
                    (#[trigger] snaps@[k]).state.spec_stats(),
                    stats,
                ),
        decreases snaps.len() - i,
    {
        if snaps[i].state.stats().is_less_used(&stats) {
            assert forall|k: int| i <= k < snaps@.len() implies SandboxStats::less_used(
                (#[trigger] snaps@[k]).state.spec_stats(),
                stats,
            ) by {
                if k > i {
                    assert(!SandboxStats::less_used(
                        snaps@[i as int].state.spec_stats(),
                        snaps@[k].state.spec_stats(),
                    ));
                }
            }
            return i;
        }
        i = i + 1;
    }
    i
}

/// The same snapshots, from the most to the least used.
pub fn sort_by_usage<St: SnapshotStateStatsExt>(snaps: Vec<Snapshot<St>>) -> (r: Vec<Snapshot<St>>)
    ensures
        r@.to_multiset() == snaps@.to_multiset(),
        is_descending(r@),
{
    let ghost all = snaps@;
    let mut r: Vec<Snapshot<St>> = Vec::new();
    assert(all.take(0) =~= r@);
    for snap in it: snaps
        invariant
            it.seq() == all,
            is_descending(r@),
            r@.to_multiset() == all.take(it.index() as int).to_multiset(),
    {
        let ghost before = r@;
        let at: usize = place(&r, snap.state.stats());
        proof {
            assert(all.take(it.index() + 1) =~= all.take(it.index() as int).push(snap));
            to_multiset_build(all.take(it.index() as int), snap);
            to_multiset_insert(before, at as int, snap);
        }
        r.insert(at, snap);
        assert forall|i: int, j: int| 0 <= i < j < r@.len() implies !SandboxStats::less_used(
            (#[trigger] r@[i]).state.spec_stats(),
            (#[trigger] r@[j]).state.spec_stats(),
        ) by {
            let oi = if i < at {
                i
            } else {
                i - 1
            };
            let oj = if j < at {
                j
            } else {
                j - 1
            };
            if i != at {
                assert(r@[i] == before[oi]);
            }
            if j != at {
                assert(r@[j] == before[oj]);
            }
        }
    }
    assert(all.take(all.len() as int) =~= all);
    r
}

/// What is to be written for a snapshot that was read: the same with its counters at zero;
/// nothing if it is not there.
pub fn zero_out<St: SnapshotStateStatsExt>(read: StateRead<St>) -> (r: Option<St>)
    ensures
        r == (match read {
            StateRead::Found(state) => Some(state.cleared()),
            _ => None,
        }),
{
    match read {
        StateRead::Found(state) => {
            let mut state = state;
            state.clear_stats();
            Some(state)
        },
        _ => None,
    }
}

/// What survives of sandboxes once those in a list are zeroed one after another.
pub open spec fn zeroed<St: SnapshotStateStatsExt>(
    snaps: Map<Seq<char>, St>,
    sids: Seq<Seq<char>>,
) -> Map<Seq<char>, St>
    decreases sids.len(),
{
    if sids.len() == 0 {
        snaps
    } else {
        let rest = zeroed(snaps, sids.drop_last());
        let sid = sids.last();
        if rest.contains_key(sid) {
            rest.insert(sid, rest[sid].cleared())
        } else {
            rest
        }
    }
}

/// Zeroing sets the counters of exactly the snapshots in the list, changes nothing else of
/// them, and neither adds nor removes any.
pub proof fn law_zeroing_clears_exactly_the_listed<St: SnapshotStateStatsExt>(
    snaps: Map<Seq<char>, St>,
    sids: Seq<Seq<char>>,
)
    ensures
        zeroed(snaps, sids).dom() == snaps.dom(),
        forall|s: Seq<char>| #[trigger]
            snaps.contains_key(s) ==> zeroed(snaps, sids)[s] == (if sids.contains(s) {
                snaps[s].cleared()
            } else {
                snaps[s]
            }),
    decreases sids.len(),
{
    if sids.len() > 0 {
        let front = sids.drop_last();
        law_zeroing_clears_exactly_the_listed(snaps, front);
        let rest = zeroed(snaps, front);
        let sid = sids.last();
        assert(zeroed(snaps, sids).dom() =~= snaps.dom());
        assert forall|s: Seq<char>| #[trigger] snaps.contains_key(s) implies zeroed(snaps, sids)[s]
            == (if sids.contains(s) {
            snaps[s].cleared()
        } else {
            snaps[s]
        }) by {
            if front.contains(s) {
                let i = choose|i: int| 0 <= i < front.len() && front[i] == s;
                assert(sids[i] == s);
            }
            if sids.contains(s) && s != sid {
                let i = choose|i: int| 0 <= i < sids.len() && sids[i] == s;
                assert(front[i] == s);
            }
            if s == sid {
                assert(sids[sids.len() - 1] == s);
                assert(rest.contains_key(s)) by {
                    assert(rest.dom().contains(s));
                }
                St::lemma_cleared(snaps[s]);
            }
        }
    }
}

/// From the most to the least used, nothing stands before what was invoked more often, nor before
/// what was invoked as often and restored more often.
pub proof fn law_most_used_come_first<St: SnapshotStateStatsExt>(
    snaps: Seq<Snapshot<St>>,
    i: int,
    j: int,
)
    requires
        is_descending(snaps),
        0 <= i < j < snaps.len(),
    ensures
        ({
            let (a, b) = (snaps[i].state.spec_stats(), snaps[j].state.spec_stats());
            &&& a.invocations >= b.invocations
            &&& a.invocations == b.invocations ==> a.restorations >= b.restorations
        }),
{
    assert(!SandboxStats::less_used(snaps[i].state.spec_stats(), snaps[j].state.spec_stats()));
}

} // verus!
