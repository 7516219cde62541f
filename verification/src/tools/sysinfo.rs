//! A table of what the whole system uses.

use vstd::prelude::*;
use vstd::string::*;

use crate::text::{itoa_u64, parse_u64, right_aligned, show_u128};

verus! {

/// Cells side by side, with a tab between any two.
pub open spec fn tabbed(cells: Seq<Seq<char>>) -> Seq<char>
    decreases cells.len(),
{
    if cells.len() == 0 {
        ""@
    } else if cells.len() == 1 {
        cells[0]
    } else {
        tabbed(cells.drop_last()) + "\t"@ + cells.last()
    }
}

/// Cells side by side, with a tab between any two.
fn join_cells(cells: &Vec<String>) -> (r: String)
    requires
        cells@.len() > 0,
    ensures
        r@ == tabbed(crate::text::texts(cells@)),
{
    let ghost all = crate::text::texts(cells@);
    let mut r = cells[0].clone();
    let mut i: usize = 1;
    assert(all.take(1)[0] == all[0]);
    while i < cells.len()
        invariant
            all == crate::text::texts(cells@),
            1 <= i <= cells.len(),
            r@ == tabbed(all.take(i as int)),
        decreases cells.len() - i,
    {
        proof {
            let next = all.take(i + 1);
            assert(next.drop_last() =~= all.take(i as int));
            assert(next.last() == cells@[i as int]@);
        }
        r.append("\t");
        r.append(cells[i].as_str());
        i = i + 1;
    }
    assert(all.take(i as int) =~= all);
    r
}

/// The time between two rows in milliseconds, as the first argument says; `None` if there is
/// none or it is no number.
pub fn interval_ms(arg: Option<&str>) -> (r: Option<u64>)
    ensures
        r == (match arg {
            Some(s) => crate::text::u64_of_text(s@),
            None => None,
        }),
{
    match arg {
        Some(s) => parse_u64(s),
        None => None,
    }
}

/// The heads of the columns.
pub fn header_row() -> (r: String)
    ensures
        r@ == tabbed(
            seq![
                crate::text::aligned("nanos_epoch"@, 20),
                crate::text::aligned("nanos_since_start"@, 20),
                crate::text::aligned("cpu"@, 7),
                crate::text::aligned("load1"@, 7),
                crate::text::aligned("load5"@, 7),
                crate::text::aligned("load15"@, 7),
                crate::text::aligned("mem_used"@, 13),
                crate::text::aligned("mem_free"@, 13),
                crate::text::aligned("mem_avail"@, 13),
            ],
        ),
{
    let mut cells: Vec<String> = Vec::new();
    cells.push(right_aligned("nanos_epoch", 20));
    cells.push(right_aligned("nanos_since_start", 20));
    cells.push(right_aligned("cpu", 7));
    cells.push(right_aligned("load1", 7));
    cells.push(right_aligned("load5", 7));
    cells.push(right_aligned("load15", 7));
    cells.push(right_aligned("mem_used", 13));
    cells.push(right_aligned("mem_free", 13));
    cells.push(right_aligned("mem_avail", 13));
    let ghost want = seq![
        crate::text::aligned("nanos_epoch"@, 20),
        crate::text::aligned("nanos_since_start"@, 20),
        crate::text::aligned("cpu"@, 7),
        crate::text::aligned("load1"@, 7),
        crate::text::aligned("load5"@, 7),
        crate::text::aligned("load15"@, 7),
        crate::text::aligned("mem_used"@, 13),
        crate::text::aligned("mem_free"@, 13),
        crate::text::aligned("mem_avail"@, 13),
    ];
    assert(crate::text::texts(cells@) =~= want);
    join_cells(&cells)
}

/// The shares of the processors, as they are shown: these are fractions.
#[derive(Debug)]
pub struct ShownLoad {
    pub cpu: String,
    pub one: String,
    pub five: String,
    pub fifteen: String,
}

/// The system's memory, in bytes.
#[derive(Clone, Copy, Debug, PartialEq, Eq, Structural)]
pub struct Memory {
    pub used: u64,
    pub free: u64,
    pub available: u64,
}

/// A row of the table, given the time since the epoch and since the start in nanoseconds.
pub fn row(nanos_epoch: u128, nanos_since_start: u128, load: &ShownLoad, memory: &Memory) -> (r: String)
    ensures
        r@ == tabbed(
            seq![
                crate::text::aligned(crate::text::decimal(nanos_epoch as nat), 20),
                crate::text::aligned(crate::text::decimal(nanos_since_start as nat), 20),
                load.cpu@,
                load.one@,
                load.five@,
                load.fifteen@,
                crate::text::aligned(crate::text::decimal(memory.used as nat), 13),
                crate::text::aligned(crate::text::decimal(memory.free as nat), 13),
                crate::text::aligned(crate::text::decimal(memory.available as nat), 13),
            ],
        ),
{
    let mut cells: Vec<String> = Vec::new();
    cells.push(right_aligned(show_u128(nanos_epoch).as_str(), 20));
    cells.push(right_aligned(show_u128(nanos_since_start).as_str(), 20));
    cells.push(load.cpu.clone());
    cells.push(load.one.clone());
    cells.push(load.five.clone());
    cells.push(load.fifteen.clone());
    cells.push(right_aligned(itoa_u64(memory.used).as_str(), 13));
    cells.push(right_aligned(itoa_u64(memory.free).as_str(), 13));
    cells.push(right_aligned(itoa_u64(memory.available).as_str(), 13));
    let ghost want = seq![
        crate::text::aligned(crate::text::decimal(nanos_epoch as nat), 20),
        crate::text::aligned(crate::text::decimal(nanos_since_start as nat), 20),
        load.cpu@,
        load.one@,
        load.five@,
        load.fifteen@,
        crate::text::aligned(crate::text::decimal(memory.used as nat), 13),
        crate::text::aligned(crate::text::decimal(memory.free as nat), 13),
        crate::text::aligned(crate::text::decimal(memory.available as nat), 13),
    ];
    assert(crate::text::texts(cells@) =~= want);
    join_cells(&cells)
}

/// Cells stand one after another, with a tab between any two, and with none before the first or
/// after the last.
pub proof fn law_cells_are_side_by_side(cells: Seq<Seq<char>>, cell: Seq<char>)
    ensures
        tabbed(seq![cell]) == cell,
        cells.len() > 0 ==> tabbed(cells.push(cell)) == tabbed(cells) + seq!['\t'] + cell,
{
    reveal_strlit("\t");
    assert("\t"@ =~= seq!['\t']);
    assert(cells.push(cell).drop_last() =~= cells);
}

} // verus!
