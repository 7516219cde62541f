//! How many sandboxes each Function is to get.

use vstd::prelude::*;

use crate::metadata::FunctionId;

verus! {

/// One number for each of some Functions.
#[derive(Debug)]
pub struct Counts {
    entries: Vec<(FunctionId, u64)>,
}

/// What a list of numbers says, where the last one said of a Function counts.
pub open spec fn said(entries: Seq<(FunctionId, u64)>) -> Map<Seq<char>, u64>
    decreases entries.len(),
{
    if entries.len() == 0 {
        Map::empty()
    } else {
        said(entries.drop_last()).insert((entries.last().0)@, entries.last().1)
    }
}

/// No Function is named twice.
pub open spec fn is_unambiguous(entries: Seq<(FunctionId, u64)>) -> bool {
    forall|i: int, j: int|
        0 <= i < j < entries.len() ==> (#[trigger] entries[i]).0@ != (#[trigger] entries[j]).0@
}

proof fn lemma_said(entries: Seq<(FunctionId, u64)>)
    requires
        is_unambiguous(entries),
    ensures
        forall|i: int|
            0 <= i < entries.len() ==> said(entries).contains_key((#[trigger] entries[i]).0@)
                && said(entries)[entries[i].0@] == entries[i].1,
        forall|k: Seq<char>| #[trigger]
            said(entries).contains_key(k) ==> exists|i: int|
                0 <= i < entries.len() && (#[trigger] entries[i]).0@ == k,
    decreases entries.len(),
{
    if entries.len() > 0 {
        let rest = entries.drop_last();
        assert(is_unambiguous(rest)) by {
            assert forall|i: int, j: int| 0 <= i < j < rest.len() implies (#[trigger] rest[i]).0@
                != (#[trigger] rest[j]).0@ by {
                assert(rest[i] == entries[i] && rest[j] == entries[j]);
            }
        }
        lemma_said(rest);
        assert forall|i: int| 0 <= i < entries.len() implies said(entries).contains_key(
            (#[trigger] entries[i]).0@,
        ) && said(entries)[entries[i].0@] == entries[i].1 by {
            if i < rest.len() {
                assert(rest[i] == entries[i]);
                assert(entries[i].0@ != entries[entries.len() - 1].0@);
            }
        }
        assert forall|k: Seq<char>| #[trigger] said(entries).contains_key(k) implies exists|i: int|
            0 <= i < entries.len() && (#[trigger] entries[i]).0@ == k by {
            if k == entries.last().0@ {
                assert(entries[entries.len() - 1].0@ == k);
            } else {
                assert(said(rest).contains_key(k));
                let i = choose|i: int| 0 <= i < rest.len() && (#[trigger] rest[i]).0@ == k;
                assert(entries[i].0@ == k);
            }
        }
    }
}

/// What is said once one more is counted for a Function.
pub open spec fn counted(counts: Map<Seq<char>, u64>, function_id: Seq<char>) -> Map<
    Seq<char>,
    u64,
> {
    counts.insert(
        function_id,
        if counts.contains_key(function_id) {
            (counts[function_id] + 1) as u64
        } else {
            1
        },
    )
}

/// What is said once all Functions of a list are counted.
pub open spec fn tally(function_ids: Seq<Seq<char>>) -> Map<Seq<char>, u64>
    decreases function_ids.len(),
{
    if function_ids.len() == 0 {
        Map::empty()
    } else {
        counted(tally(function_ids.drop_last()), function_ids.last())
    }
}

/// How often a Function is in a list.
pub open spec fn occurrences(function_ids: Seq<Seq<char>>, id: Seq<char>) -> nat
    decreases function_ids.len(),
{
    if function_ids.len() == 0 {
        0
    } else {
        occurrences(function_ids.drop_last(), id) + (if function_ids.last() == id {
            1nat
        } else {
            0
        })
    }
}

/// Counting says of each Function how often it is in the list, and nothing of others.
pub proof fn law_tally_counts(function_ids: Seq<Seq<char>>, id: Seq<char>)
    requires
        function_ids.len() <= u64::MAX,
    ensures
        occurrences(function_ids, id) <= function_ids.len(),
        tally(function_ids).contains_key(id) == (occurrences(function_ids, id) > 0),
        tally(function_ids).contains_key(id) ==> tally(function_ids)[id] == occurrences(
            function_ids,
            id,
        ),
    decreases function_ids.len(),
{
    if function_ids.len() > 0 {
        law_tally_counts(function_ids.drop_last(), id);
    }
}

impl View for Counts {
    type V = Map<Seq<char>, u64>;

    closed spec fn view(&self) -> Map<Seq<char>, u64> {
        said(self.entries@)
    }
}

impl Counts {
    /// No Function is named twice.
    pub closed spec fn wf(self) -> bool {
        is_unambiguous(self.entries@)
    }

    pub fn new() -> (r: Counts)
        ensures
            r.wf(),
            r@ == Map::<Seq<char>, u64>::empty(),
    {
        Counts { entries: Vec::new() }
    }

    fn position(&self, function_id: &FunctionId) -> (r: Option<usize>)
        requires
            self.wf(),
        ensures
            match r {
                Some(i) => i < self.entries@.len() && self.entries@[i as int].0@ == function_id@
                    && self@.contains_key(function_id@) && self@[function_id@]
                    == self.entries@[i as int].1,
                None => !self@.contains_key(function_id@),
            },
    {
        proof {
            lemma_said(self.entries@);
        }
        let mut i: usize = 0;
        while i < self.entries.len()
            invariant
                i <= self.entries@.len(),
                forall|j: int|
                    0 <= j < self.entries@.len() ==> said(self.entries@).contains_key(
                        (#[trigger] self.entries@[j]).0@,
                    ) && said(self.entries@)[self.entries@[j].0@] == self.entries@[j].1,
                forall|j: int| 0 <= j < i ==> (#[trigger] self.entries@[j]).0@ != function_id@,
            decreases self.entries@.len() - i,
        {
            if self.entries[i].0 == *function_id {
                return Some(i);
            }
            i = i + 1;
        }
        None
    }

    /// What is said of a Function.
    pub fn get(&self, function_id: &FunctionId) -> (r: Option<u64>)
        requires
            self.wf(),
        ensures
            r == (if self@.contains_key(function_id@) {
                Some(self@[function_id@])
            } else {
                None
            }),
    {
        match self.position(function_id) {
            Some(i) => Some(self.entries[i].1),
            None => None,
        }
    }

    /// Says something of a Function.
    pub fn insert(&mut self, function_id: FunctionId, count: u64)
        requires
            old(self).wf(),
        ensures
            final(self).wf(),
            final(self)@ == old(self)@.insert(function_id@, count),
    {
        let ghost before = self.entries@;
        match self.position(&function_id) {
            Some(i) => {
                self.entries.set(i, (function_id, count));
                proof {
                    lemma_update(before, i as int, (function_id, count));
                }
            },
            None => {
                self.entries.push((function_id, count));
                proof {
                    let after = self.entries@;
                    lemma_said(before);
                    assert(after.drop_last() =~= before);
                    assert forall|a: int, b: int| 0 <= a < b < after.len() implies (
                    #[trigger] after[a]).0@ != (#[trigger] after[b]).0@ by {
                        assert(after[a] == before[a]);
                        if b < before.len() {
                            assert(after[b] == before[b]);
                        } else {
                            assert(said(before).contains_key(before[a].0@));
                        }
                    }
                }
            },
        }
    }

    /// Says all that a list says.
    pub fn extend(&mut self, entries: Vec<(FunctionId, u64)>)
        requires
            old(self).wf(),
        ensures
            final(self).wf(),
            final(self)@ == old(self)@.union_prefer_right(said(entries@)),
    {
        let ghost before = self@;
        assert(before =~= before.union_prefer_right(said(entries@.take(0))));
        for entry in it: entries
            invariant
                it.seq() == entries@,
                self.wf(),
                self@ == before.union_prefer_right(said(entries@.take(it.index() as int))),
        {
            proof {
                let next = entries@.take(it.index() + 1);
                assert(next.drop_last() =~= entries@.take(it.index() as int));
                assert(next.last() == entry);
            }
            self.insert(entry.0, entry.1);
            assert(self@ =~= before.union_prefer_right(said(entries@.take(it.index() + 1))));
        }
        assert(entries@.take(entries@.len() as int) =~= entries@);
    }

    /// Counts one more for a Function.
    pub fn add_one(&mut self, function_id: FunctionId)
        requires
            old(self).wf(),
            old(self)@.contains_key(function_id@) ==> old(self)@[function_id@] < u64::MAX,
        ensures
            final(self).wf(),
            final(self)@ == counted(old(self)@, function_id@),
    {
        let count: u64 = match self.get(&function_id) {
            Some(count) => count + 1,
            None => 1,
        };
        self.insert(function_id, count);
    }

    /// All that is said, one Function after another.
    pub fn entries(&self) -> (r: &Vec<(FunctionId, u64)>)
        requires
            self.wf(),
        ensures
            is_unambiguous(r@),
            said(r@) == self@,
    {
        &self.entries
    }
}

proof fn lemma_update(before: Seq<(FunctionId, u64)>, i: int, entry: (FunctionId, u64))
    requires
        is_unambiguous(before),
        0 <= i < before.len(),
        before[i].0@ == entry.0@,
    ensures
        is_unambiguous(before.update(i, entry)),
        said(before.update(i, entry)) == said(before).insert((entry.0)@, entry.1),
{
    let after = before.update(i, entry);
    let want = said(before).insert((entry.0)@, entry.1);
    assert forall|a: int, b: int| 0 <= a < b < after.len() implies (#[trigger] after[a]).0@ != (
    #[trigger] after[b]).0@ by {
        assert(before[a].0@ != before[b].0@);
    }
    lemma_said(before);
    lemma_said(after);
    assert forall|k: Seq<char>| #[trigger]
        said(after).contains_key(k) == want.contains_key(k) && (said(after).contains_key(k)
            ==> said(after)[k] == want[k]) by {
        if said(after).contains_key(k) {
            let a = choose|a: int| 0 <= a < after.len() && (#[trigger] after[a]).0@ == k;
            assert(before[a].0@ == k);
        }
        if want.contains_key(k) && k != (entry.0)@ {
            let b = choose|b: int| 0 <= b < before.len() && (#[trigger] before[b]).0@ == k;
            assert(after[b].0@ == k);
        }
        if k == (entry.0)@ {
            assert(after[i].0@ == k);
        }
    }
    assert(said(after) =~= want);
}

/// What two lists say is what the first says, but for the Functions that the second speaks of too.
pub proof fn law_what_is_said_last_counts(
    a: Seq<(FunctionId, u64)>,
    b: Seq<(FunctionId, u64)>,
)
    ensures
        said(a + b) == said(a).union_prefer_right(said(b)),
        a.len() == 0 ==> said(a) == Map::<Seq<char>, u64>::empty(),
        a.len() == 1 ==> said(a) == Map::<Seq<char>, u64>::empty().insert((a[0].0)@, a[0].1),
    decreases b.len(),
{
    if a.len() == 1 {
        assert(a.drop_last() =~= Seq::<(FunctionId, u64)>::empty());
        assert(said(a.drop_last()) =~= Map::<Seq<char>, u64>::empty());
    }
    if b.len() == 0 {
        assert(a + b =~= a);
        assert(said(a).union_prefer_right(said(b)) =~= said(a));
    } else {
        assert((a + b).drop_last() =~= a + b.drop_last());
        law_what_is_said_last_counts(a, b.drop_last());
        assert(said(a + b) =~= said(a).union_prefer_right(said(b)));
    }
}

/// Counting one more for a Function changes what is said of it by one, and nothing else.
pub proof fn law_counting_adds_one(
    counts: Map<Seq<char>, u64>,
    id: Seq<char>,
    other: Seq<char>,
)
    requires
        counts.contains_key(id) ==> counts[id] < u64::MAX,
    ensures
        counted(counts, id).contains_key(id),
        counted(counts, id)[id] == 1 + if counts.contains_key(id) {
            counts[id] as int
        } else {
            0
        },
        other != id ==> counted(counts, id).contains_key(other) == counts.contains_key(other),
        other != id && counts.contains_key(other) ==> counted(counts, id)[other] == counts[other],
{
}

} // verus!
