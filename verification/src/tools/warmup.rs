//! Warming the orchestrator up.

use vstd::prelude::*;
use vstd::string::*;

use crate::durations::{read_duration, Span};
use crate::metadata::InvocationId;
use crate::text::{concat3, itoa_u64, zero_padded};

verus! {

/// How many digits the time has in the name of an invocation.
pub const TIMESTAMP_WIDTH: usize = 10;

/// How many digits the number has in the name of an invocation.
pub const NUMBER_WIDTH: usize = 3;

/// What the command line says of a text that stands for no duration.
pub open spec fn bad_duration(arg: Seq<char>, err: Seq<char>) -> Seq<char> {
    "CLI failed to parse duration '"@ + arg + "': "@ + err
}

/// The duration that an argument stands for, given what came of reading it.
pub fn duration_arg(arg: &str, parsed: Result<Span, String>) -> (r: Result<Span, String>)
    ensures
        match parsed {
            Ok(span) => r == Ok::<_, String>(span),
            Err(err) => r is Err && r->Err_0@ == bad_duration(arg@, err@),
        },
{
    match parsed {
        Ok(span) => Ok(span),
        Err(err) => {
            let mut r = concat3("CLI failed to parse duration '", arg, "': ");
            r.append(err.as_str());
            Err(r)
        },
    }
}

/// The duration that an argument stands for.
pub fn parse_dur(arg: &str) -> (r: Result<Span, String>)
    ensures
        match crate::durations::read(arg@) {
            Ok(span) => r == Ok::<_, String>(span),
            Err(err) => r is Err && r->Err_0@ == bad_duration(arg@, err),
        },
{
    duration_arg(arg, read_duration(arg))
}

/// Why it is not known what is to be sent; a Function goes by its number in the file.
#[derive(Debug, PartialEq, Eq)]
pub enum WarmupError {
    /// There are no requests in any minute.
    EmptyRpm(u64),
    /// The Function's request, given as it is shown, is not what it should be.
    BadRequest(u64, String, String),
}

impl WarmupError {
    /// The error in words, without its cause.
    pub open spec fn text(self) -> Seq<char> {
        match self {
            WarmupError::EmptyRpm(i) => "found empty RPM array (Function "@ + crate::text::decimal(
                i as nat,
            ) + ")"@,
            WarmupError::BadRequest(i, shown, _) => "failed to deserialize WorkloadRequest from "@
                + shown@ + " (Function "@ + crate::text::decimal(i as nat) + ")"@,
        }
    }

    /// The error in words, without its cause.
    pub fn message(&self) -> (r: String)
        ensures
            r@ == self.text(),
    {
        match self {
            WarmupError::EmptyRpm(i) => concat3(
                "found empty RPM array (Function ",
                itoa_u64(*i).as_str(),
                ")",
            ),
            WarmupError::BadRequest(i, shown, _) => {
                let mut r = concat3(
                    "failed to deserialize WorkloadRequest from ",
                    shown.as_str(),
                    " (Function ",
                );
                r.append(itoa_u64(*i).as_str());
                r.append(")");
                r
            },
        }
    }
}

/// The largest of some numbers.
pub open spec fn is_max(rpm: Seq<u32>, max: u32) -> bool {
    rpm.contains(max) && forall|i: int| 0 <= i < rpm.len() ==> #[trigger] rpm[i] <= max
}

/// The number of requests in the busiest minute, if there is one.
pub open spec fn busiest(rpm: Seq<u32>) -> u32 {
    choose|max: u32| is_max(rpm, max)
}

proof fn lemma_busiest(rpm: Seq<u32>, max: u32)
    requires
        is_max(rpm, max),
    ensures
        busiest(rpm) == max,
{
    let other = busiest(rpm);
    assert(is_max(rpm, other));
    let i = choose|i: int| 0 <= i < rpm.len() && rpm[i] == max;
    let j = choose|j: int| 0 <= j < rpm.len() && rpm[j] == other;
    assert(rpm[i] <= other && rpm[j] <= max);
}

/// How many requests a Function gets: as many as in its busiest minute, but no more than at
/// once are allowed; `None` if no minute is busy enough.
pub open spec fn wanted(rpm: Seq<u32>, trigger_point: u32, max_concurrent: u32) -> Option<u32> {
    if busiest(rpm) < trigger_point {
        None
    } else if busiest(rpm) < max_concurrent {
        Some(busiest(rpm))
    } else {
        Some(max_concurrent)
    }
}

/// How many requests the Function with number `i` gets, given its requests in each minute.
pub fn requests_for(i: u64, rpm: &Vec<u32>, trigger_point: u32, max_concurrent: u32) -> (r: Result<
    Option<u32>,
    WarmupError,
>)
    ensures
        r == (if rpm@.len() == 0 {
            Err(WarmupError::EmptyRpm(i))
        } else {
            Ok(wanted(rpm@, trigger_point, max_concurrent))
        }),
        rpm@.len() > 0 ==> is_max(rpm@, busiest(rpm@)),
{
    if rpm.len() == 0 {
        return Err(WarmupError::EmptyRpm(i));
    }
    let mut max: u32 = rpm[0];
    let mut k: usize = 1;
    assert(rpm@[0] == max);
    while k < rpm.len()
        invariant
            1 <= k <= rpm.len(),
            rpm@.contains(max),
            forall|j: int| 0 <= j < k ==> #[trigger] rpm@[j] <= max,
        decreases rpm.len() - k,
    {
        if rpm[k] > max {
            max = rpm[k];
            assert(rpm@[k as int] == max);
        }
        k = k + 1;
    }
    proof {
        lemma_busiest(rpm@, max);
    }
    if max < trigger_point {
        Ok(None)
    } else if max < max_concurrent {
        Ok(Some(max))
    } else {
        Ok(Some(max_concurrent))
    }
}

/// The name of the invocation with number `i` of a benchmark, given the time in seconds.
pub open spec fn warmup_id(secs: nat, bench: Seq<char>, i: nat) -> Seq<char> {
    "WARMUP-"@ + crate::text::padded(secs, TIMESTAMP_WIDTH as nat) + "-"@ + bench + "-"@
        + crate::text::padded(i, NUMBER_WIDTH as nat)
}

/// The names of so many invocations of a benchmark, given the time in seconds.
pub fn invocation_ids(secs: u64, bench: &str, count: u32) -> (r: Vec<InvocationId>)
    ensures
        r@.len() == count,
        forall|i: int|
            0 <= i < count ==> (#[trigger] r@[i])@ == warmup_id(secs as nat, bench@, i as nat),
{
    let timestamp = zero_padded(secs, TIMESTAMP_WIDTH);
    let mut r: Vec<InvocationId> = Vec::new();
    let mut i: u32 = 0;
    while i < count
        invariant
            i <= count,
            r@.len() == i,
            timestamp@ == crate::text::padded(secs as nat, TIMESTAMP_WIDTH as nat),
            forall|j: int|
                0 <= j < i ==> (#[trigger] r@[j])@ == warmup_id(secs as nat, bench@, j as nat),
        decreases count - i,
    {
        let mut id = concat3("WARMUP-", timestamp.as_str(), "-");
        id.append(bench);
        id.append("-");
        id.append(zero_padded(i as u64, NUMBER_WIDTH).as_str());
        r.push(id);
        i = i + 1;
    }
    r
}

/// The invocations of a benchmark have different names.
pub proof fn law_invocation_ids_are_unique(secs: nat, bench: Seq<char>, i: nat, j: nat)
    requires
        i != j,
    ensures
        warmup_id(secs, bench, i) != warmup_id(secs, bench, j),
{
    let front = "WARMUP-"@ + crate::text::padded(secs, TIMESTAMP_WIDTH as nat) + "-"@ + bench + "-"@;
    let a = crate::text::padded(i, NUMBER_WIDTH as nat);
    let b = crate::text::padded(j, NUMBER_WIDTH as nat);
    if warmup_id(secs, bench, i) == warmup_id(secs, bench, j) {
        assert((front + a).skip(front.len() as int) =~= a);
        assert((front + b).skip(front.len() as int) =~= b);
        crate::text::law_padded_is_injective(i, j, NUMBER_WIDTH as nat);
    }
}

/// A Function in the file of what is to be warmed up.
#[derive(Debug)]
pub struct WarmupRow {
    /// Its requests in each minute.
    pub rpm: Vec<u32>,
    /// The benchmark that its request is for; if the request cannot be read, the request as it
    /// is shown, and why.
    pub bench: Result<String, (String, String)>,
}

/// The requests of a Function that is warmed up.
#[derive(Debug)]
pub struct WarmupRequests {
    /// The Function's number in the file.
    pub row: u64,
    pub bench: String,
    pub invocation_ids: Vec<InvocationId>,
}

/// What is wrong with the Function with number `i`, if something is. A request that is not
/// sent need not be readable.
pub open spec fn row_error(row: WarmupRow, i: int, trigger_point: u32, max_concurrent: u32) -> Option<
    WarmupError,
> {
    if row.rpm@.len() == 0 {
        Some(WarmupError::EmptyRpm(i as u64))
    } else if wanted(row.rpm@, trigger_point, max_concurrent) is None {
        None
    } else {
        match row.bench {
            Ok(_) => None,
            Err((shown, err)) => Some(WarmupError::BadRequest(i as u64, shown, err)),
        }
    }
}

/// The numbers of the Functions that are warmed up, in the order of the file.
pub open spec fn warmed_up(rows: Seq<WarmupRow>, trigger_point: u32, max_concurrent: u32) -> Seq<int>
    decreases rows.len(),
{
    if rows.len() == 0 {
        Seq::empty()
    } else {
        let rest = warmed_up(rows.drop_last(), trigger_point, max_concurrent);
        if wanted(rows.last().rpm@, trigger_point, max_concurrent) is Some {
            rest.push(rows.len() - 1)
        } else {
            rest
        }
    }
}

/// The requests are those of the Function with number `i`.
pub open spec fn are_requests_of(
    reqs: WarmupRequests,
    rows: Seq<WarmupRow>,
    i: int,
    count: u32,
    secs: u64,
) -> bool {
    &&& 0 <= i < rows.len()
    &&& reqs.row == i
    &&& rows[i].bench == Ok::<_, (String, String)>(reqs.bench)
    &&& reqs.invocation_ids@.len() == count
    &&& forall|k: int|
        0 <= k < count ==> (#[trigger] reqs.invocation_ids@[k])@ == warmup_id(
            secs as nat,
            reqs.bench@,
            k as nat,
        )
}

/// What is sent to the Functions in a file, given the time in seconds: nothing if something is
/// wrong with one of them.
pub fn prepare_requests(
    rows: Vec<WarmupRow>,
    trigger_point: u32,
    max_concurrent: u32,
    secs: u64,
) -> (r: Result<Vec<WarmupRequests>, WarmupError>)
    ensures
        match r {
            Ok(all) => {
                let picked = warmed_up(rows@, trigger_point, max_concurrent);
                &&& forall|i: int|
                    0 <= i < rows@.len() ==> row_error(
                        #[trigger] rows@[i],
                        i,
                        trigger_point,
                        max_concurrent,
                    ) is None
                &&& all@.len() == picked.len()
                &&& forall|k: int|
                    0 <= k < picked.len() ==> are_requests_of(
                        #[trigger] all@[k],
                        rows@,
                        picked[k],
                        wanted(rows@[picked[k]].rpm@, trigger_point, max_concurrent)->0,
                        secs,
                    )
            },
            Err(err) => exists|i: int|
                {
                    &&& 0 <= i < rows@.len()
                    &&& row_error(#[trigger] rows@[i], i, trigger_point, max_concurrent) == Some(err)
                    &&& forall|j: int|
                        0 <= j < i ==> row_error(
                            #[trigger] rows@[j],
                            j,
                            trigger_point,
                            max_concurrent,
                        ) is None
                },
        },
{
    let ghost all_rows = rows@;
    let mut all: Vec<WarmupRequests> = Vec::with_capacity(rows.len());
    let mut i: u64 = 0;
    assert(all_rows.take(0) =~= Seq::<WarmupRow>::empty());
    for row in it: rows
        invariant
            it.seq() == all_rows,
            all_rows.len() <= u64::MAX,
            i == it.index(),
            forall|j: int|
                0 <= j < i ==> row_error(
                    #[trigger] all_rows[j],
                    j,
                    trigger_point,
                    max_concurrent,
                ) is None,
            all@.len() == warmed_up(all_rows.take(i as int), trigger_point, max_concurrent).len(),
            forall|k: int|
                0 <= k < all@.len() ==> are_requests_of(
                    #[trigger] all@[k],
                    all_rows,
                    warmed_up(all_rows.take(i as int), trigger_point, max_concurrent)[k],
                    wanted(
                        all_rows[warmed_up(
                            all_rows.take(i as int),
                            trigger_point,
                            max_concurrent,
                        )[k]].rpm@,
                        trigger_point,
                        max_concurrent,
                    )->0,
                    secs,
                ),
    {
        proof {
            let next = all_rows.take(i + 1);
            assert(next.drop_last() =~= all_rows.take(i as int));
            assert(next.last() == row);
            assert(all_rows[i as int] == row);
        }
        match requests_for(i, &row.rpm, trigger_point, max_concurrent) {
            Err(err) => {
                return Err(err);
            },
            Ok(None) => {},
            Ok(Some(count)) => match row.bench {
                Err((shown, err)) => {
                    return Err(WarmupError::BadRequest(i, shown, err));
                },
                Ok(bench) => {
                    let invocation_ids = invocation_ids(secs, bench.as_str(), count);
                    all.push(WarmupRequests { row: i, bench, invocation_ids });
                },
            },
        }
        i = i + 1;
    }
    assert(all_rows.take(all_rows.len() as int) =~= all_rows);
    Ok(all)
}

/// A benchmark comes for the first time.
pub open spec fn is_first(benches: Seq<String>, i: int) -> bool {
    forall|j: int| 0 <= j < i ==> (#[trigger] benches[j])@ != benches[i]@
}

/// Which benchmarks come for the first time: only these are warmed up.
pub fn first_occurrences(benches: &Vec<String>) -> (r: Vec<bool>)
    ensures
        r@.len() == benches@.len(),
        forall|i: int| 0 <= i < benches@.len() ==> #[trigger] r@[i] == is_first(benches@, i),
{
    let mut r: Vec<bool> = Vec::new();
    let mut i: usize = 0;
    while i < benches.len()
        invariant
            i <= benches.len(),
            r@.len() == i,
            forall|k: int| 0 <= k < i ==> #[trigger] r@[k] == is_first(benches@, k),
        decreases benches.len() - i,
    {
        let mut first = true;
        let mut j: usize = 0;
        while j < i
            invariant
                i < benches.len(),
                j <= i,
                first == (forall|k: int| 0 <= k < j ==> (#[trigger] benches@[k])@ != benches@[i as int]@),
            decreases i - j,
        {
            if benches[j] == benches[i] {
                first = false;
            }
            j = j + 1;
        }
        r.push(first);
        i = i + 1;
    }
    r
}

/// How many requests there are in the first `n` rows; only those that are picked count.
pub open spec fn requests_in(counts: Seq<u32>, picked: spec_fn(int) -> bool, n: nat) -> nat
    decreases n,
{
    if n == 0 {
        0
    } else {
        requests_in(counts, picked, (n - 1) as nat) + if picked(n - 1) {
            counts[n - 1] as nat
        } else {
            0
        }
    }
}

/// How many requests are sent and how many there are in all, given which benchmarks are warmed
/// up and how many requests each has.
pub fn totals(first: &Vec<bool>, counts: &Vec<u32>) -> (r: (u128, u128))
    requires
        first@.len() == counts@.len(),
    ensures
        r.0 == requests_in(counts@, |i: int| first@[i], counts@.len()),
        r.1 == requests_in(counts@, |i: int| true, counts@.len()),
{
    let ghost picked = |i: int| first@[i];
    let ghost every = |i: int| true;
    let mut sent: u128 = 0;
    let mut all: u128 = 0;
    let mut i: usize = 0;
    while i < counts.len()
        invariant
            first@.len() == counts@.len(),
            i <= counts.len(),
            picked == (|i: int| first@[i]),
            every == (|i: int| true),
            sent == requests_in(counts@, picked, i as nat),
            all == requests_in(counts@, every, i as nat),
            sent <= all <= i * u32::MAX,
        decreases counts.len() - i,
    {
        assert(i * u32::MAX + u32::MAX <= u128::MAX) by (nonlinear_arith)
            requires
                i <= u64::MAX,
        ;
        if first[i] {
            sent = sent + counts[i] as u128;
        }
        all = all + counts[i] as u128;
        i = i + 1;
    }
    (sent, all)
}

/// Every benchmark is warmed up, and only once.
pub proof fn law_each_benchmark_is_warmed_up_once(benches: Seq<String>, i: int)
    requires
        0 <= i < benches.len(),
    ensures
        exists|j: int| 0 <= j <= i && #[trigger] is_first(benches, j) && benches[j]@ == benches[i]@,
        forall|j: int, k: int|
            0 <= j < k < benches.len() && #[trigger] is_first(benches, j) && #[trigger] is_first(
                benches,
                k,
            ) ==> benches[j]@ != benches[k]@,
    decreases i,
{
    if is_first(benches, i) {
    } else {
        let j = choose|j: int| 0 <= j < i && (#[trigger] benches[j])@ == benches[i]@;
        law_each_benchmark_is_warmed_up_once(benches, j);
    }
}

/// A Function is warmed up if and only if some minute of it is busy enough. It gets as many
/// requests as its busiest minute has, but no more than are allowed at once.
pub proof fn law_how_many_requests(
    rpm: Seq<u32>,
    trigger_point: u32,
    max_concurrent: u32,
    max: u32,
)
    requires
        rpm.contains(max),
        forall|i: int| 0 <= i < rpm.len() ==> #[trigger] rpm[i] <= max,
    ensures
        wanted(rpm, trigger_point, max_concurrent) is Some <==> trigger_point <= max,
        wanted(rpm, trigger_point, max_concurrent) is Some ==> {
            let n = wanted(rpm, trigger_point, max_concurrent)->0;
            &&& n <= max && n <= max_concurrent
            &&& n == max || n == max_concurrent
        },
{
    assert(is_max(rpm, max));
    lemma_busiest(rpm, max);
}

/// A Function without minutes is always wrong. One that is warmed up is wrong if and only if its
/// request cannot be read, and one that is not warmed up is not wrong for that.
pub proof fn law_what_is_wrong_with_a_function(
    row: WarmupRow,
    i: u64,
    trigger_point: u32,
    max_concurrent: u32,
    max: u32,
)
    ensures
        row.rpm@.len() == 0 ==> row_error(row, i as int, trigger_point, max_concurrent) == Some(
            WarmupError::EmptyRpm(i),
        ),
        row.rpm@.contains(max) && (forall|k: int|
            0 <= k < row.rpm@.len() ==> #[trigger] row.rpm@[k] <= max) ==> {
            let why = row_error(row, i as int, trigger_point, max_concurrent);
            &&& max < trigger_point || row.bench is Ok ==> why is None
            &&& max >= trigger_point && row.bench is Err ==> why == Some(
                WarmupError::BadRequest(i, row.bench->Err_0.0, row.bench->Err_0.1),
            )
        },
{
    if row.rpm@.contains(max) && (forall|k: int|
        0 <= k < row.rpm@.len() ==> #[trigger] row.rpm@[k] <= max) {
        law_how_many_requests(row.rpm@, trigger_point, max_concurrent, max);
    }
}

/// The Functions that are warmed up are those that some minute is busy enough for, each once, in
/// the order of the file.
pub proof fn law_who_is_warmed_up(
    rows: Seq<WarmupRow>,
    trigger_point: u32,
    max_concurrent: u32,
)
    ensures
        ({
            let picked = warmed_up(rows, trigger_point, max_concurrent);
            &&& forall|k: int|
                0 <= k < picked.len() ==> 0 <= #[trigger] picked[k] < rows.len() && wanted(
                    rows[picked[k]].rpm@,
                    trigger_point,
                    max_concurrent,
                ) is Some
            &&& forall|k: int, m: int|
                0 <= k < m < picked.len() ==> #[trigger] picked[k] < #[trigger] picked[m]
            &&& forall|i: int|
                #![trigger rows[i]]
                0 <= i < rows.len() && wanted(rows[i].rpm@, trigger_point, max_concurrent) is Some
                    ==> picked.contains(i)
        }),
    decreases rows.len(),
{
    if rows.len() > 0 {
        let front = rows.drop_last();
        law_who_is_warmed_up(front, trigger_point, max_concurrent);
        let rest = warmed_up(front, trigger_point, max_concurrent);
        let picked = warmed_up(rows, trigger_point, max_concurrent);
        assert forall|k: int| 0 <= k < picked.len() implies 0 <= #[trigger] picked[k] < rows.len()
            && wanted(rows[picked[k]].rpm@, trigger_point, max_concurrent) is Some by {
            if k < rest.len() {
                assert(picked[k] == rest[k]);
                assert(front[rest[k]] == rows[rest[k]]);
            }
        }
        assert forall|k: int, m: int| 0 <= k < m < picked.len() implies #[trigger] picked[k]
            < #[trigger] picked[m] by {
            assert(picked[k] == rest[k]);
            if m < rest.len() {
                assert(picked[m] == rest[m]);
            }
        }
        assert forall|i: int|
            #![trigger rows[i]]
            0 <= i < rows.len() && wanted(
                rows[i].rpm@,
                trigger_point,
                max_concurrent,
            ) is Some implies picked.contains(i) by {
            if i < front.len() {
                assert(front[i] == rows[i]);
                assert(rest.contains(i));
                let k = choose|k: int| 0 <= k < rest.len() && rest[k] == i;
                assert(picked[k] == i);
            } else {
                assert(picked[picked.len() - 1] == i);
            }
        }
    }
}

/// A row adds its requests to those of the rows before it if it is picked, and nothing if it is
/// not.
pub proof fn law_requests_are_added_up(counts: Seq<u32>, picked: spec_fn(int) -> bool, n: nat)
    requires
        n < counts.len(),
    ensures
        requests_in(counts, picked, 0) == 0,
        picked(n as int) ==> requests_in(counts, picked, n + 1) == requests_in(counts, picked, n)
            + counts[n as int],
        !picked(n as int) ==> requests_in(counts, picked, n + 1) == requests_in(counts, picked, n),
{
}

} // verus!
