//! A minimal monitor of control groups.

use vstd::prelude::*;
use vstd::string::*;

use crate::text::{concat3, itoa_u64, parse_u64, right_aligned, same, show_u128};

verus! {

/// A space, a tab, a newline or a carriage return.
pub open spec fn is_space(b: u8) -> bool {
    b == 0x20 || b == 0x0a || b == 0x0d || b == 0x09
}

/// Whether a byte is a space, a tab, a newline or a carriage return.
pub fn is_ws(b: u8) -> (r: bool)
    ensures
        r == is_space(b),
{
    b == 0x20 || b == 0x0a || b == 0x0d || b == 0x09
}

/// One of `0` to `9`.
pub open spec fn is_digit_byte(b: u8) -> bool {
    0x30 <= b <= 0x39
}

/// The number of bytes at the start of a text that are of a kind.
pub open spec fn run_of(s: Seq<u8>, kind: spec_fn(u8) -> bool) -> nat
    decreases s.len(),
{
    if s.len() > 0 && kind(s[0]) {
        1 + run_of(s.drop_first(), kind)
    } else {
        0
    }
}

/// A text without the white space at its start.
pub open spec fn skip_space(s: Seq<u8>) -> Seq<u8> {
    s.skip(run_of(s, |b: u8| is_space(b)) as int)
}

/// The word at the start of a text.
pub open spec fn first_word(s: Seq<u8>) -> Seq<u8> {
    s.take(run_of(s, |b: u8| !is_space(b)) as int)
}

/// The digits at the start of a text.
pub open spec fn first_digits(s: Seq<u8>) -> Seq<u8> {
    s.take(run_of(s, |b: u8| is_digit_byte(b)) as int)
}

/// A text after the end of its first line.
pub open spec fn after_line(s: Seq<u8>) -> Seq<u8> {
    let line = run_of(s, |b: u8| b != 0x0a) as int;
    if line < s.len() {
        s.skip(line + 1)
    } else {
        Seq::empty()
    }
}

/// The number that digits stand for.
pub open spec fn number(digits: Seq<u8>) -> nat
    decreases digits.len(),
{
    if digits.len() == 0 {
        0
    } else {
        number(digits.drop_last()) * 10 + (digits.last() - 0x30) as nat
    }
}

/// The number that digits stand for, if there are any and it fits.
pub open spec fn u64_of_digits(digits: Seq<u8>) -> Option<u64> {
    if digits.len() > 0 && number(digits) <= u64::MAX {
        Some(number(digits) as u64)
    } else {
        None
    }
}

proof fn lemma_run_len(s: Seq<u8>, kind: spec_fn(u8) -> bool)
    ensures
        run_of(s, kind) <= s.len(),
    decreases s.len(),
{
    if s.len() > 0 && kind(s[0]) {
        lemma_run_len(s.drop_first(), kind);
    }
}

/// A run is `n` bytes long if `n` bytes are of the kind and the next one is not.
proof fn lemma_run(s: Seq<u8>, kind: spec_fn(u8) -> bool, n: nat)
    requires
        n <= s.len(),
        forall|i: int| 0 <= i < n ==> kind(#[trigger] s[i]),
        n < s.len() ==> !kind(s[n as int]),
    ensures
        run_of(s, kind) == n,
    decreases n,
{
    if n > 0 {
        assert(kind(s[0]));
        let rest = s.drop_first();
        assert forall|i: int| 0 <= i < n - 1 implies kind(#[trigger] rest[i]) by {
            assert(rest[i] == s[i + 1]);
        }
        if n < s.len() {
            assert(rest[n - 1] == s[n as int]);
        }
        lemma_run(rest, kind, (n - 1) as nat);
    }
}

proof fn lemma_run_stops(s: Seq<u8>, kind: spec_fn(u8) -> bool)
    ensures
        run_of(s, kind) < s.len() ==> !kind(s[run_of(s, kind) as int]),
    decreases s.len(),
{
    if s.len() > 0 && kind(s[0]) {
        lemma_run_stops(s.drop_first(), kind);
    }
}

/// Reading a word and what comes after it makes a text shorter.
pub proof fn lemma_entry_is_read(s: Seq<u8>)
    requires
        skip_space(s).len() > 0,
    ensures
        ({
            let at_key = skip_space(s);
            let at_value = skip_space(at_key.skip(first_word(at_key).len() as int));
            after_line(at_value.skip(first_digits(at_value).len() as int)).len() < s.len()
        }),
{
    let space = |b: u8| is_space(b);
    let word = |b: u8| !is_space(b);
    let digit = |b: u8| is_digit_byte(b);
    lemma_run_len(s, space);
    lemma_run_stops(s, space);
    let at_key = skip_space(s);
    lemma_run_len(at_key, word);
    assert(word(at_key[0]));
    let after_key = at_key.skip(first_word(at_key).len() as int);
    lemma_run_len(after_key, space);
    let at_value = skip_space(after_key);
    lemma_run_len(at_value, digit);
    lemma_run_len(at_value.skip(first_digits(at_value).len() as int), |b: u8| b != 0x0a);
}

/// The index after the white space at index `i`.
fn space_end(s: &[u8], i: usize) -> (r: usize)
    requires
        i <= s@.len(),
    ensures
        i <= r <= s@.len(),
        s@.skip(r as int) == skip_space(s@.skip(i as int)),
        r < s@.len() ==> !is_space(s@[r as int]),
{
    let mut j: usize = i;
    while j < s.len() && is_ws(s[j])
        invariant
            i <= j <= s@.len(),
            forall|k: int| i <= k < j ==> is_space(#[trigger] s@[k]),
        decreases s@.len() - j,
    {
        j = j + 1;
    }
    proof {
        let t = s@.skip(i as int);
        let kind = |b: u8| is_space(b);
        assert forall|k: int| 0 <= k < j - i implies kind(#[trigger] t[k]) by {
            assert(t[k] == s@[i + k]);
        }
        lemma_run(t, kind, (j - i) as nat);
        assert(t.skip(j - i) =~= s@.skip(j as int));
    }
    j
}

/// The index after the word at index `i`.
fn word_end(s: &[u8], i: usize) -> (r: usize)
    requires
        i <= s@.len(),
    ensures
        i <= r <= s@.len(),
        s@.subrange(i as int, r as int) == first_word(s@.skip(i as int)),
{
    let mut j: usize = i;
    while j < s.len() && !is_ws(s[j])
        invariant
            i <= j <= s@.len(),
            forall|k: int| i <= k < j ==> !is_space(#[trigger] s@[k]),
        decreases s@.len() - j,
    {
        j = j + 1;
    }
    proof {
        let t = s@.skip(i as int);
        let kind = |b: u8| !is_space(b);
        assert forall|k: int| 0 <= k < j - i implies kind(#[trigger] t[k]) by {
            assert(t[k] == s@[i + k]);
        }
        lemma_run(t, kind, (j - i) as nat);
        assert(t.take(j - i) =~= s@.subrange(i as int, j as int));
    }
    j
}

/// The index after the line that index `i` is in.
fn line_end(s: &[u8], i: usize) -> (r: usize)
    requires
        i <= s@.len(),
    ensures
        i <= r <= s@.len(),
        s@.skip(r as int) == after_line(s@.skip(i as int)),
        i < s@.len() ==> i < r,
{
    let mut j: usize = i;
    while j < s.len() && s[j] != 0x0a
        invariant
            i <= j <= s@.len(),
            forall|k: int| i <= k < j ==> #[trigger] s@[k] != 0x0a,
        decreases s@.len() - j,
    {
        j = j + 1;
    }
    let ghost t = s@.skip(i as int);
    proof {
        let kind = |b: u8| b != 0x0a;
        assert forall|k: int| 0 <= k < j - i implies kind(#[trigger] t[k]) by {
            assert(t[k] == s@[i + k]);
        }
        lemma_run(t, kind, (j - i) as nat);
    }
    if j < s.len() {
        assert(t.skip(j - i + 1) =~= s@.skip(j + 1));
        j + 1
    } else {
        assert(s@.skip(j as int) =~= Seq::<u8>::empty());
        j
    }
}

proof fn lemma_number_grows(digits: Seq<u8>, n: int)
    requires
        0 <= n <= digits.len(),
    ensures
        number(digits.take(n)) <= number(digits),
    decreases digits.len() - n,
{
    if n < digits.len() {
        lemma_number_grows(digits, n + 1);
        assert(digits.take(n + 1).drop_last() =~= digits.take(n));
    } else {
        assert(digits.take(n) =~= digits);
    }
}

/// The index after the digits at index `i`, and the number that they stand for.
fn number_at(s: &[u8], i: usize) -> (r: (usize, Option<u64>))
    requires
        i <= s@.len(),
    ensures
        i <= r.0 <= s@.len(),
        s@.subrange(i as int, r.0 as int) == first_digits(s@.skip(i as int)),
        r.1 == u64_of_digits(first_digits(s@.skip(i as int))),
{
    let mut j: usize = i;
    let mut value: Option<u64> = Some(0);
    assert(s@.subrange(i as int, i as int) =~= Seq::<u8>::empty());
    while j < s.len() && 0x30 <= s[j] && s[j] <= 0x39
        invariant
            i <= j <= s@.len(),
            forall|k: int| i <= k < j ==> is_digit_byte(#[trigger] s@[k]),
            match value {
                Some(v) => v == number(s@.subrange(i as int, j as int)),
                None => number(s@.subrange(i as int, j as int)) > u64::MAX,
            },
        decreases s@.len() - j,
    {
        let d: u64 = (s[j] - 0x30) as u64;
        proof {
            let next = s@.subrange(i as int, j + 1);
            assert(next.drop_last() =~= s@.subrange(i as int, j as int));
            assert(next.last() == s@[j as int]);
        }
        value = match value {
            Some(v) => if v > u64::MAX / 10 || v * 10 > u64::MAX - d {
                None
            } else {
                Some(v * 10 + d)
            },
            None => None,
        };
        j = j + 1;
    }
    proof {
        let t = s@.skip(i as int);
        let kind = |b: u8| is_digit_byte(b);
        assert forall|k: int| 0 <= k < j - i implies kind(#[trigger] t[k]) by {
            assert(t[k] == s@[i + k]);
        }
        lemma_run(t, kind, (j - i) as nat);
        assert(t.take(j - i) =~= s@.subrange(i as int, j as int));
    }
    if j == i {
        (j, None)
    } else {
        (j, value)
    }
}

/// Reads the number at the start of a text, after any white space: `None` if there is none or
/// it does not fit.
pub fn parse_u64_trim(bytes: &[u8]) -> (r: Option<u64>)
    ensures
        r == u64_of_digits(first_digits(skip_space(bytes@))),
{
    assert(bytes@.skip(0) =~= bytes@);
    let start = space_end(bytes, 0);
    let (end, value) = number_at(bytes, start);
    value
}

/// What the lines of a `cpu.stat` file say: in each a word and a number after it. `None` if
/// there is a word with something else after it. A word at the very end says nothing.
pub open spec fn stat_entries(s: Seq<u8>) -> Option<Seq<(Seq<u8>, u64)>>
    decreases s.len(),
{
    let at_key = skip_space(s);
    let key = first_word(at_key);
    let at_value = skip_space(at_key.skip(key.len() as int));
    let digits = first_digits(at_value);
    let rest = after_line(at_value.skip(digits.len() as int));
    if at_key.len() == 0 || at_value.len() == 0 {
        Some(Seq::empty())
    } else {
        proof {
            lemma_entry_is_read(s);
        }
        match (u64_of_digits(digits), stat_entries(rest)) {
            (Some(value), Some(entries)) => Some(seq![(key, value)] + entries),
            _ => None,
        }
    }
}

/// What is said of a word: what is said last, or zero if nothing is.
pub open spec fn stat_value(entries: Seq<(Seq<u8>, u64)>, key: Seq<u8>) -> u64
    decreases entries.len(),
{
    if entries.len() == 0 {
        0
    } else if entries.last().0 == key {
        entries.last().1
    } else {
        stat_value(entries.drop_last(), key)
    }
}

/// The bytes of a text of plain letters.
pub open spec fn letters(s: Seq<char>) -> Seq<u8> {
    Seq::new(s.len(), |i: int| s[i] as u8)
}

/// Processor time used by a control group, in microseconds.
#[derive(Clone, Copy, Debug, PartialEq, Eq, Structural)]
pub struct CpuTimes {
    pub usage: u64,
    pub user: u64,
    pub system: u64,
    pub throttled: u64,
}

/// Why a control group could not be monitored.
#[derive(Debug)]
#[allow(inconsistent_fields)]
pub enum Error {
    Open { path: String, source: String },
    Read { name: &'static str, source: String },
    Parse(&'static str),
}

impl Error {
    /// The error in words, without its cause.
    pub open spec fn text(self) -> Seq<char> {
        match self {
            Error::Open { path, .. } => "failed to open file '"@ + path@ + "'"@,
            Error::Read { name, .. } => "failed to read cgroup file '"@ + name@ + "'"@,
            Error::Parse(name) => "failed while parsing cgroup file '"@ + name@ + "'"@,
        }
    }

    /// The error in words, without its cause.
    pub fn message(&self) -> (r: String)
        ensures
            r@ == self.text(),
    {
        match self {
            Error::Open { path, .. } => concat3("failed to open file '", path.as_str(), "'"),
            Error::Read { name, .. } => concat3("failed to read cgroup file '", name, "'"),
            Error::Parse(name) => concat3("failed while parsing cgroup file '", name, "'"),
        }
    }
}

/// Whether the bytes from `start` to `end` are the letters of `name`.
fn is_name(s: &[u8], start: usize, end: usize, name: &str) -> (r: bool)
    requires
        start <= end <= s@.len(),
    ensures
        r == (s@.subrange(start as int, end as int) == letters(name@)),
{
    let len: usize = name.unicode_len();
    if end - start != len {
        assert(s@.subrange(start as int, end as int).len() != letters(name@).len());
        return false;
    }
    let mut i: usize = 0;
    while i < len
        invariant
            start <= end <= s@.len(),
            end - start == len,
            len == name@.len(),
            i <= len,
            forall|k: int| 0 <= k < i ==> s@[start + k] == #[trigger] letters(name@)[k],
        decreases len - i,
    {
        let c = name.get_char(i);
        if s[start + i] != #[verifier::truncate] (c as u8) {
            assert(s@.subrange(start as int, end as int)[i as int] != letters(name@)[i as int]);
            return false;
        }
        i = i + 1;
    }
    assert(s@.subrange(start as int, end as int) =~= letters(name@));
    true
}

/// What a `cpu.stat` file says of the processor time that was used.
pub open spec fn times_of(entries: Seq<(Seq<u8>, u64)>) -> CpuTimes {
    CpuTimes {
        usage: stat_value(entries, letters("usage_usec"@)),
        user: stat_value(entries, letters("user_usec"@)),
        system: stat_value(entries, letters("system_usec"@)),
        throttled: stat_value(entries, letters("throttled_usec"@)),
    }
}

/// Reads a `cpu.stat` file.
pub fn parse_cpu_stat_times(bytes: &[u8]) -> (r: Result<CpuTimes, Error>)
    ensures
        match stat_entries(bytes@) {
            Some(entries) => r == Ok::<_, Error>(times_of(entries)),
            None => r is Err && r->Err_0 is Parse && (r->Err_0->Parse_0)@ == "cpu.stat"@,
        },
{
    let mut times = CpuTimes { usage: 0, user: 0, system: 0, throttled: 0 };
    let mut i: usize = 0;
    let ghost mut done: Seq<(Seq<u8>, u64)> = Seq::empty();
    proof {
        assert(bytes@.skip(0) =~= bytes@);
        if stat_entries(bytes@) is Some {
            assert(done + stat_entries(bytes@)->0 =~= stat_entries(bytes@)->0);
        }
    }
    while i < bytes.len()
        invariant
            i <= bytes@.len(),
            times == times_of(done),
            match stat_entries(bytes@.skip(i as int)) {
                Some(entries) => stat_entries(bytes@) == Some(done + entries),
                None => stat_entries(bytes@) is None,
            },
        decreases bytes@.len() - i,
    {
        let key_start = space_end(bytes, i);
        if key_start >= bytes.len() {
            assert(done + Seq::<(Seq<u8>, u64)>::empty() =~= done);
            return Ok(times);
        }
        let key_end = word_end(bytes, key_start);
        let ghost at_key = bytes@.skip(key_start as int);
        let ghost key = bytes@.subrange(key_start as int, key_end as int);
        proof {
            lemma_run_len(at_key, |b: u8| !is_space(b));
            assert(at_key.skip(key.len() as int) =~= bytes@.skip(key_end as int));
        }
        let val_start = space_end(bytes, key_end);
        if val_start >= bytes.len() {
            assert(done + Seq::<(Seq<u8>, u64)>::empty() =~= done);
            return Ok(times);
        }
        let (val_end, value) = number_at(bytes, val_start);
        let ghost digits = bytes@.subrange(val_start as int, val_end as int);
        let next = line_end(bytes, val_end);
        proof {
            lemma_run_len(bytes@.skip(val_start as int), |b: u8| is_digit_byte(b));
            assert(bytes@.skip(val_start as int).skip(digits.len() as int) =~= bytes@.skip(
                val_end as int,
            ));
            assert(i < next);
        }
        let value: u64 = match value {
            Some(value) => value,
            None => {
                return Err(Error::Parse("cpu.stat"));
            },
        };
        if is_name(bytes, key_start, key_end, "usage_usec") {
            times.usage = value;
        }
        if is_name(bytes, key_start, key_end, "user_usec") {
            times.user = value;
        }
        if is_name(bytes, key_start, key_end, "system_usec") {
            times.system = value;
        }
        if is_name(bytes, key_start, key_end, "throttled_usec") {
            times.throttled = value;
        }
        proof {
            let more = done.push((key, value));
            assert(more.drop_last() =~= done);
            assert(more.last() == (key, value));
            let tail = stat_entries(bytes@.skip(next as int));
            if tail is Some {
                assert(done + (seq![(key, value)] + tail->0) =~= more + tail->0);
            }
            done = more;
        }
        i = next;
    }
    proof {
        assert(bytes@.skip(i as int) =~= Seq::<u8>::empty());
        lemma_run_len(Seq::<u8>::empty(), |b: u8| is_space(b));
        assert(done + Seq::<(Seq<u8>, u64)>::empty() =~= done);
    }
    Ok(times)
}

/// What a control group used at a point in time.
#[derive(Clone, Copy, Debug, PartialEq, Eq, Structural)]
pub struct Sample {
    /// Nanoseconds since the Unix epoch.
    pub ts_unix_ns: u128,
    /// The memory in use, in bytes.
    pub mem_curr_bytes: u64,
    /// The share of one processor that was used since the sample before, in hundredths of a
    /// per cent.
    pub cpu_core_eq_pct_x100: u64,
    /// The same outside the kernel.
    pub cpu_user_core_eq_pct_x100: u64,
    /// The same in the kernel.
    pub cpu_system_core_eq_pct_x100: u64,
    /// The same that was wanted and not given.
    pub cpu_throttled_core_eq_pct_x100: u64,
}

/// The share of one processor that was used in a time, in hundredths of a per cent; 64 bits
/// of it are kept. No share can be said of no time at all, nor of a counter that went back.
pub open spec fn share(last: u64, now: u64, dt_usec: u128) -> int {
    if dt_usec == 0 || now <= last {
        0
    } else {
        ((now - last) * 10_000) / dt_usec as int % 0x1_0000_0000_0000_0000
    }
}

/// The share of one processor that was used in a time, in hundredths of a per cent.
pub fn cpu_share(last: u64, now: u64, dt_usec: u128) -> (r: u64)
    ensures
        r == share(last, now, dt_usec),
{
    if dt_usec == 0 {
        return 0;
    }
    let used: u64 = now.saturating_sub(last);
    let x: u128 = used as u128 * 10_000u128;
    let q: u128 = x / dt_usec;
    assert(q as u64 == q % 0x1_0000_0000_0000_0000) by (bit_vector);
    proof {
        if now <= last {
            assert(0u128 / dt_usec == 0) by (nonlinear_arith)
                requires
                    dt_usec > 0,
            ;
        }
    }
    q as u64
}

/// A monitor of a control group.
#[derive(Debug)]
pub struct CgroupMonitor {
    /// The counters at the last sample.
    pub last: CpuTimes,
    /// When that sample was taken: nanoseconds since some moment that does not change.
    pub last_ns: u128,
}

/// Whole microseconds between two points in time.
pub open spec fn elapsed_usec(from_ns: u128, to_ns: u128) -> u128 {
    if to_ns <= from_ns {
        0
    } else {
        ((to_ns - from_ns) / 1000) as u128
    }
}

impl CgroupMonitor {
    /// The sample that is taken at a point in time, given the contents of the group's
    /// `memory.current` and `cpu.stat` files; `None` if they are not understood. CPU time and
    /// wall time are those since the last sample.
    pub open spec fn sampled(
        self,
        ts_unix_ns: u128,
        now_ns: u128,
        memory_current: Seq<u8>,
        cpu_stat: Seq<u8>,
    ) -> Option<Sample> {
        match (u64_of_digits(first_digits(skip_space(memory_current))), stat_entries(cpu_stat)) {
            (Some(mem), Some(entries)) => {
                let now = times_of(entries);
                let dt = elapsed_usec(self.last_ns, now_ns);
                Some(
                    Sample {
                        ts_unix_ns,
                        mem_curr_bytes: mem,
                        cpu_core_eq_pct_x100: share(self.last.usage, now.usage, dt) as u64,
                        cpu_user_core_eq_pct_x100: share(self.last.user, now.user, dt) as u64,
                        cpu_system_core_eq_pct_x100: share(self.last.system, now.system, dt) as u64,
                        cpu_throttled_core_eq_pct_x100: share(
                            self.last.throttled,
                            now.throttled,
                            dt,
                        ) as u64,
                    },
                )
            },
            _ => None,
        }
    }

    /// The monitor after an attempt to take a sample: one that failed leaves it as it is.
    pub open spec fn after(self, now_ns: u128, memory_current: Seq<u8>, cpu_stat: Seq<u8>) -> CgroupMonitor {
        match (u64_of_digits(first_digits(skip_space(memory_current))), stat_entries(cpu_stat)) {
            (Some(_), Some(entries)) => CgroupMonitor { last: times_of(entries), last_ns: now_ns },
            _ => self,
        }
    }

    /// A monitor that starts at a point in time, with the counters in a `cpu.stat` file.
    pub fn new(now_ns: u128, cpu_stat: &[u8]) -> (r: Result<CgroupMonitor, Error>)
        ensures
            match stat_entries(cpu_stat@) {
                Some(entries) => r == Ok::<_, Error>(
                    CgroupMonitor { last: times_of(entries), last_ns: now_ns },
                ),
                None => r is Err && r->Err_0 is Parse && (r->Err_0->Parse_0)@ == "cpu.stat"@,
            },
    {
        match parse_cpu_stat_times(cpu_stat) {
            Ok(last) => Ok(CgroupMonitor { last, last_ns: now_ns }),
            Err(err) => Err(err),
        }
    }

    /// Takes a sample: given the time since the Unix epoch and the time on the monitor's own
    /// clock, both in nanoseconds, and the contents of the group's `memory.current` and
    /// `cpu.stat` files.
    pub fn sample(
        &mut self,
        ts_unix_ns: u128,
        now_ns: u128,
        memory_current: &[u8],
        cpu_stat: &[u8],
    ) -> (r: Result<Sample, Error>)
        ensures
            match old(self).sampled(ts_unix_ns, now_ns, memory_current@, cpu_stat@) {
                Some(sample) => r == Ok::<_, Error>(sample),
                None => r is Err && r->Err_0 is Parse && (r->Err_0->Parse_0)@ == (
                if u64_of_digits(first_digits(skip_space(memory_current@))) is None {
                    "memory.current"@
                } else {
                    "cpu.stat"@
                }),
            },
            *final(self) == old(self).after(now_ns, memory_current@, cpu_stat@),
    {
        let mem_curr_bytes: u64 = match parse_u64_trim(memory_current) {
            Some(mem) => mem,
            None => {
                return Err(Error::Parse("memory.current"));
            },
        };
        let now = match parse_cpu_stat_times(cpu_stat) {
            Ok(now) => now,
            Err(err) => {
                return Err(err);
            },
        };
        let last = self.last;
        let dt_usec: u128 = if now_ns <= self.last_ns {
            0
        } else {
            (now_ns - self.last_ns) / 1000
        };
        self.last = now;
        self.last_ns = now_ns;
        Ok(
            Sample {
                ts_unix_ns,
                mem_curr_bytes,
                cpu_core_eq_pct_x100: cpu_share(last.usage, now.usage, dt_usec),
                cpu_user_core_eq_pct_x100: cpu_share(last.user, now.user, dt_usec),
                cpu_system_core_eq_pct_x100: cpu_share(last.system, now.system, dt_usec),
                cpu_throttled_core_eq_pct_x100: cpu_share(last.throttled, now.throttled, dt_usec),
            },
        )
    }
}

/// An attempt to take a sample: when it was made, and what was read of the group's
/// `memory.current` and `cpu.stat` files.
pub struct Attempt {
    pub now_ns: u128,
    pub memory_current: Seq<u8>,
    pub cpu_stat: Seq<u8>,
}

/// The monitor after attempts to take samples, one after another.
pub open spec fn after_attempts(m: CgroupMonitor, attempts: Seq<Attempt>) -> CgroupMonitor
    decreases attempts.len(),
{
    if attempts.len() == 0 {
        m
    } else {
        let a = attempts.last();
        after_attempts(m, attempts.drop_last()).after(a.now_ns, a.memory_current, a.cpu_stat)
    }
}

/// CPU time and wall time of a sample cover the same interval, the one since the sample
/// before, however many attempts failed in between: the share of the processor is what was
/// used since then over the time since then.
pub proof fn law_sample_covers_the_time_since_the_last_one(
    m: CgroupMonitor,
    failed: Seq<Attempt>,
    ts_unix_ns: u128,
    now_ns: u128,
    memory_current: Seq<u8>,
    cpu_stat: Seq<u8>,
)
    requires
        forall|i: int|
            0 <= i < failed.len() ==> m.sampled(
                0,
                (#[trigger] failed[i]).now_ns,
                failed[i].memory_current,
                failed[i].cpu_stat,
            ) is None,
    ensures
        after_attempts(m, failed) == m,
        ({
            let sample = after_attempts(m, failed).sampled(
                ts_unix_ns,
                now_ns,
                memory_current,
                cpu_stat,
            );
            let now = times_of(stat_entries(cpu_stat)->0);
            let usec = (now_ns - m.last_ns) / 1000;
            let used = (now.usage - m.last.usage) * 10_000;
            sample is Some && now.usage >= m.last.usage && usec > 0 && used / usec <= u64::MAX
                ==> sample->0.cpu_core_eq_pct_x100 == used / usec
        }),
    decreases failed.len(),
{
    if failed.len() > 0 {
        let before = failed.drop_last();
        assert forall|i: int| 0 <= i < before.len() implies m.sampled(
            0,
            (#[trigger] before[i]).now_ns,
            before[i].memory_current,
            before[i].cpu_stat,
        ) is None by {
            assert(before[i] == failed[i]);
        }
        law_sample_covers_the_time_since_the_last_one(
            m,
            before,
            ts_unix_ns,
            now_ns,
            memory_current,
            cpu_stat,
        );
        assert(failed[failed.len() - 1] == failed.last());
    }
    let now = times_of(stat_entries(cpu_stat)->0);
    let usec = (now_ns - m.last_ns) / 1000;
    let used = (now.usage - m.last.usage) * 10_000;
    if now.usage >= m.last.usage && usec > 0 {
        assert(0 <= used / usec) by (nonlinear_arith)
            requires
                used >= 0,
                usec > 0,
        ;
        if now.usage == m.last.usage {
            assert(used / usec == 0) by (nonlinear_arith)
                requires
                    used == 0,
                    usec > 0,
            ;
        }
    }
}

/// A group that keeps one processor busy all the time has a share of a hundred per cent, and
/// one that keeps two busy has two hundred.
pub proof fn law_share_of_busy_cores(last: u64, dt_usec: u128, cores: u64)
    requires
        0 < dt_usec,
        0 < cores <= 0xffff_ffff,
        last + cores * dt_usec <= u64::MAX,
    ensures
        share(last, (last + cores * dt_usec) as u64, dt_usec) == cores * 10_000,
{
    assert((cores * dt_usec * 10_000) / dt_usec as int == cores * 10_000) by (nonlinear_arith)
        requires
            dt_usec > 0,
    ;
    assert(cores * dt_usec > 0) by (nonlinear_arith)
        requires
            dt_usec > 0,
            cores > 0,
    ;
}

/// What the monitor is told on its command line.
#[derive(Debug)]
pub struct Args {
    pub period_ms: u64,
    pub cgroup: String,
}

/// What the arguments from index `i` on say, given what those before them said; `None` if
/// they are not understood.
pub open spec fn args_from(args: Seq<Seq<char>>, i: int, period: Option<u64>, cgroup: Seq<char>) -> Option<
    (u64, Seq<char>),
>
    decreases args.len() - i,
{
    if i >= args.len() || i < 0 {
        match period {
            Some(period) => Some((period, cgroup)),
            None => None,
        }
    } else if args[i] == "-T"@ || args[i] == "--period-ms"@ {
        if i + 1 < args.len() {
            match crate::text::u64_of_text(args[i + 1]) {
                Some(period) => args_from(args, i + 2, Some(period), cgroup),
                None => None,
            }
        } else {
            None
        }
    } else if args[i] == "--cgroup"@ {
        if i + 1 < args.len() {
            args_from(args, i + 2, period, args[i + 1])
        } else {
            None
        }
    } else {
        None
    }
}

/// What the command line says: a period is needed, and the group is the root by default.
/// `None` if it is not understood, or asks for help.
pub fn parse_args(args: &Vec<String>) -> (r: Option<Args>)
    ensures
        match args_from(crate::text::texts(args@), 0, None, "/sys/fs/cgroup"@) {
            Some((period, cgroup)) => r is Some && r->0.period_ms == period && r->0.cgroup@
                == cgroup,
            None => r is None,
        },
{
    let ghost texts = crate::text::texts(args@);
    let ghost want = args_from(texts, 0, None, "/sys/fs/cgroup"@);
    let mut period: Option<u64> = None;
    let mut cgroup = "/sys/fs/cgroup".to_owned();
    let mut i: usize = 0;
    while i < args.len()
        invariant
            texts == crate::text::texts(args@),
            i <= args.len(),
            want == args_from(texts, 0, None, "/sys/fs/cgroup"@),
            want == args_from(texts, i as int, period, cgroup@),
        decreases args.len() - i,
    {
        let arg = args[i].as_str();
        assert(arg@ == texts[i as int]);
        if same(arg, "-T") || same(arg, "--period-ms") {
            if args.len() - i < 2 {
                return None;
            }
            assert(args@[i + 1]@ == texts[i + 1]);
            match parse_u64(args[i + 1].as_str()) {
                Some(ms) => {
                    period = Some(ms);
                },
                None => {
                    return None;
                },
            }
        } else if same(arg, "--cgroup") {
            if args.len() - i < 2 {
                return None;
            }
            assert(args@[i + 1]@ == texts[i + 1]);
            cgroup = args[i + 1].clone();
        } else {
            return None;
        }
        i = i + 2;
    }
    match period {
        Some(period_ms) => Some(Args { period_ms, cgroup }),
        None => None,
    }
}

/// The columns of the monitor's table, side by side.
pub open spec fn columns(cells: Seq<Seq<char>>) -> Seq<char>
    recommends
        cells.len() == 6,
{
    crate::text::aligned(cells[0], 20) + crate::text::aligned(cells[1], 21) + crate::text::aligned(
        cells[2],
        12,
    ) + crate::text::aligned(cells[3], 12) + crate::text::aligned(cells[4], 12)
        + crate::text::aligned(cells[5], 15)
}

fn row(a: &str, b: &str, c: &str, d: &str, e: &str, f: &str) -> (r: String)
    ensures
        r@ == columns(seq![a@, b@, c@, d@, e@, f@]),
{
    let mut r = right_aligned(a, 20);
    r.append(right_aligned(b, 21).as_str());
    r.append(right_aligned(c, 12).as_str());
    r.append(right_aligned(d, 12).as_str());
    r.append(right_aligned(e, 12).as_str());
    r.append(right_aligned(f, 15).as_str());
    r
}

/// The heads of the columns.
pub fn header_row() -> (r: String)
    ensures
        r@ == columns(
            seq![
                "nanos_epoch"@,
                "memory_current_bytes"@,
                "cpu%"@,
                "cpu%_user"@,
                "cpu%_system"@,
                "cpu%_throttled"@,
            ],
        ),
{
    row(
        "nanos_epoch",
        "memory_current_bytes",
        "cpu%",
        "cpu%_user",
        "cpu%_system",
        "cpu%_throttled",
    )
}

impl Sample {
    /// The sample as a row of the table.
    pub fn to_row(&self) -> (r: String)
        ensures
            r@ == columns(
                seq![
                    crate::text::decimal(self.ts_unix_ns as nat),
                    crate::text::decimal(self.mem_curr_bytes as nat),
                    crate::text::decimal(self.cpu_core_eq_pct_x100 as nat),
                    crate::text::decimal(self.cpu_user_core_eq_pct_x100 as nat),
                    crate::text::decimal(self.cpu_system_core_eq_pct_x100 as nat),
                    crate::text::decimal(self.cpu_throttled_core_eq_pct_x100 as nat),
                ],
            ),
    {
        row(
            show_u128(self.ts_unix_ns).as_str(),
            itoa_u64(self.mem_curr_bytes).as_str(),
            itoa_u64(self.cpu_core_eq_pct_x100).as_str(),
            itoa_u64(self.cpu_user_core_eq_pct_x100).as_str(),
            itoa_u64(self.cpu_system_core_eq_pct_x100).as_str(),
            itoa_u64(self.cpu_throttled_core_eq_pct_x100).as_str(),
        )
    }
}

/// What is said of a word last is what counts, what is said of other words does not, and of a word
/// that nothing is said of it is zero.
pub proof fn law_what_is_said_last_counts(
    entries: Seq<(Seq<u8>, u64)>,
    key: Seq<u8>,
    other: Seq<u8>,
    value: u64,
)
    ensures
        stat_value(entries.push((key, value)), key) == value,
        other != key ==> stat_value(entries.push((other, value)), key) == stat_value(entries, key),
        stat_value(Seq::empty(), key) == 0,
{
    assert(entries.push((key, value)).drop_last() =~= entries);
    assert(entries.push((other, value)).drop_last() =~= entries);
}

/// The counters of processor time go by four names, and each says one of them.
pub proof fn law_names_of_counters(entries: Seq<(Seq<u8>, u64)>, value: u64)
    ensures
        times_of(entries.push((letters("usage_usec"@), value))) == (CpuTimes {
            usage: value,
            ..times_of(entries)
        }),
        times_of(entries.push((letters("user_usec"@), value))) == (CpuTimes {
            user: value,
            ..times_of(entries)
        }),
        times_of(entries.push((letters("system_usec"@), value))) == (CpuTimes {
            system: value,
            ..times_of(entries)
        }),
        times_of(entries.push((letters("throttled_usec"@), value))) == (CpuTimes {
            throttled: value,
            ..times_of(entries)
        }),
        times_of(Seq::empty()) == (CpuTimes { usage: 0, user: 0, system: 0, throttled: 0 }),
{
    reveal_strlit("usage_usec");
    reveal_strlit("user_usec");
    reveal_strlit("system_usec");
    reveal_strlit("throttled_usec");
    let (a, b) = (letters("usage_usec"@), letters("user_usec"@));
    let (c, d) = (letters("system_usec"@), letters("throttled_usec"@));
    assert(a.len() == 10 && b.len() == 9 && c.len() == 11 && d.len() == 14);
    assert(entries.push((a, value)).drop_last() =~= entries);
    assert(entries.push((b, value)).drop_last() =~= entries);
    assert(entries.push((c, value)).drop_last() =~= entries);
    assert(entries.push((d, value)).drop_last() =~= entries);
}

/// The number that digits stand for: one more digit makes it ten times as large, and adds itself.
/// No digits are no number.
pub proof fn law_what_digits_stand_for(digits: Seq<u8>, d: u8)
    requires
        d <= 9,
    ensures
        u64_of_digits(Seq::empty()) is None,
        u64_of_digits(seq![(0x30 + d) as u8]) == Some(d as u64),
        digits.len() > 0 && number(digits) * 10 + d <= u64::MAX ==> u64_of_digits(
            digits.push((0x30 + d) as u8),
        ) == Some((u64_of_digits(digits)->0 * 10 + d) as u64) && u64_of_digits(digits) is Some,
        digits.len() > 0 && number(digits) * 10 + d > u64::MAX ==> u64_of_digits(
            digits.push((0x30 + d) as u8),
        ) is None,
{
    let one = seq![(0x30 + d) as u8];
    assert(one.drop_last() =~= Seq::<u8>::empty());
    assert(number(one.drop_last()) == 0);
    let more = digits.push((0x30 + d) as u8);
    assert(more.drop_last() =~= digits);
}

/// A text of a word, a space, digits and a newline says the number of the word, and then all that
/// the rest of the text says.
pub proof fn law_how_a_line_is_read(key: Seq<u8>, digits: Seq<u8>, rest: Seq<u8>)
    requires
        key.len() > 0,
        forall|i: int|
            0 <= i < key.len() ==> (#[trigger] key[i]) != 0x20 && key[i] != 0x09 && key[i] != 0x0a
                && key[i] != 0x0d,
        digits.len() > 0,
        forall|i: int| 0 <= i < digits.len() ==> 0x30 <= #[trigger] digits[i] <= 0x39,
    ensures
        ({
            let s = key + seq![0x20u8] + digits + seq![0x0au8] + rest;
            match stat_entries(rest) {
                Some(entries) => if number(digits) <= u64::MAX {
                    stat_entries(s) == Some(seq![(key, number(digits) as u64)] + entries)
                } else {
                    stat_entries(s) is None
                },
                None => stat_entries(s) is None,
            }
        }),
        stat_entries(Seq::empty()) == Some(Seq::<(Seq<u8>, u64)>::empty()),
{
    let space = |b: u8| is_space(b);
    let word = |b: u8| !is_space(b);
    let digit = |b: u8| is_digit_byte(b);
    let line = |b: u8| b != 0x0a;
    let s = key + seq![0x20u8] + digits + seq![0x0au8] + rest;
    assert(s[0] == key[0]);
    lemma_run(s, space, 0);
    assert(skip_space(s) =~= s);
    let k = key.len();
    assert forall|i: int| 0 <= i < k implies word(#[trigger] s[i]) by {
        assert(s[i] == key[i]);
    }
    assert(s[k as int] == 0x20);
    lemma_run(s, word, k);
    assert(first_word(s) =~= key);
    let after = s.skip(k as int);
    assert(after[0] == 0x20);
    assert(after[1] == digits[0]);
    assert forall|i: int| 0 <= i < 1 implies space(#[trigger] after[i]) by {}
    lemma_run(after, space, 1);
    let value = digits + seq![0x0au8] + rest;
    assert(skip_space(after) =~= value);
    let n = digits.len();
    assert forall|i: int| 0 <= i < n implies digit(#[trigger] value[i]) by {
        assert(value[i] == digits[i]);
    }
    assert(value[n as int] == 0x0a);
    lemma_run(value, digit, n);
    assert(first_digits(value) =~= digits);
    let tail = value.skip(n as int);
    assert(tail[0] == 0x0a);
    lemma_run(tail, line, 0);
    assert(after_line(tail) =~= rest);
    let nothing = Seq::<u8>::empty();
    lemma_run(nothing, space, 0);
    assert(skip_space(nothing).len() == 0);
}

/// A share of a processor, however it was come by, is what a counter grew by, ten thousand times,
/// over the time; it is zero if there was no time, or if the counter did not grow.
pub open spec fn is_share(share: u64, last: u64, now: u64, usec: int) -> bool {
    if usec <= 0 || now <= last {
        share == 0
    } else {
        (now - last) * 10_000 / usec <= u64::MAX ==> share == (now - last) * 10_000 / usec
    }
}

/// A sample tells the time and the memory that it was given, and of each of the four counters the
/// share since the last sample; the next sample goes on from it. There is a sample if and only if
/// both files are understood, and if there is none the monitor goes on from where it was.
pub proof fn law_what_a_sample_tells(
    m: CgroupMonitor,
    ts_unix_ns: u128,
    now_ns: u128,
    memory_current: Seq<u8>,
    cpu_stat: Seq<u8>,
)
    ensures
        ({
            let sample = m.sampled(ts_unix_ns, now_ns, memory_current, cpu_stat);
            let after = m.after(now_ns, memory_current, cpu_stat);
            let mem = u64_of_digits(first_digits(skip_space(memory_current)));
            let now = times_of(stat_entries(cpu_stat)->0);
            let usec = (now_ns - m.last_ns) / 1000;
            &&& sample is Some <==> mem is Some && stat_entries(cpu_stat) is Some
            &&& sample is None ==> after == m
            &&& sample is Some ==> {
                &&& after.last == now && after.last_ns == now_ns
                &&& sample->0.ts_unix_ns == ts_unix_ns
                &&& Some(sample->0.mem_curr_bytes) == mem
                &&& is_share(sample->0.cpu_core_eq_pct_x100, m.last.usage, now.usage, usec)
                &&& is_share(sample->0.cpu_user_core_eq_pct_x100, m.last.user, now.user, usec)
                &&& is_share(sample->0.cpu_system_core_eq_pct_x100, m.last.system, now.system, usec)
                &&& is_share(
                    sample->0.cpu_throttled_core_eq_pct_x100,
                    m.last.throttled,
                    now.throttled,
                    usec,
                )
            }
        }),
{
    let now = times_of(stat_entries(cpu_stat)->0);
    let usec = (now_ns - m.last_ns) / 1000;
    if now_ns > m.last_ns {
        lemma_is_share(m.last.usage, now.usage, usec as u128);
        lemma_is_share(m.last.user, now.user, usec as u128);
        lemma_is_share(m.last.system, now.system, usec as u128);
        lemma_is_share(m.last.throttled, now.throttled, usec as u128);
    }
}

proof fn lemma_is_share(last: u64, now: u64, usec: u128)
    ensures
        is_share(share(last, now, usec) as u64, last, now, usec as int),
{
    if usec > 0 && now > last {
        let used = (now - last) * 10_000;
        assert(0 <= used / usec as int) by (nonlinear_arith)
            requires
                used >= 0,
                usec > 0,
        ;
    }
}

proof fn lemma_args_shift(
    a: Seq<Seq<char>>,
    b: Seq<Seq<char>>,
    i: int,
    period: Option<u64>,
    cgroup: Seq<char>,
)
    requires
        0 <= i,
    ensures
        args_from(a + b, a.len() + i, period, cgroup) == args_from(b, i, period, cgroup),
    decreases b.len() - i,
{
    if i < b.len() {
        assert((a + b)[a.len() + i] == b[i]);
        if i + 1 < b.len() {
            assert((a + b)[a.len() + i + 1] == b[i + 1]);
            match crate::text::u64_of_text(b[i + 1]) {
                Some(p) => lemma_args_shift(a, b, i + 2, Some(p), cgroup),
                None => {},
            }
            lemma_args_shift(a, b, i + 2, period, b[i + 1]);
        }
    }
}

/// Arguments come in pairs, each a flag and what it sets; what is set last counts. A period has to
/// be set, and has to be a number. A flag with nothing after it is not understood, nor is any
/// other argument.
pub proof fn law_how_arguments_are_read(
    flag: Seq<char>,
    value: Seq<char>,
    rest: Seq<Seq<char>>,
    period: Option<u64>,
    cgroup: Seq<char>,
)
    ensures
        args_from(Seq::empty(), 0, None, cgroup) is None,
        period is Some ==> args_from(Seq::empty(), 0, period, cgroup) == Some((period->0, cgroup)),
        args_from(seq![flag], 0, period, cgroup) is None,
        ({
            let args = seq![flag, value] + rest;
            let n = crate::text::u64_of_text(value);
            &&& flag == "-T"@ || flag == "--period-ms"@ ==> args_from(args, 0, period, cgroup) == (
            if n is Some {
                args_from(rest, 0, n, cgroup)
            } else {
                None
            })
            &&& flag == "--cgroup"@ ==> args_from(args, 0, period, cgroup) == args_from(
                rest,
                0,
                period,
                value,
            )
            &&& flag != "-T"@ && flag != "--period-ms"@ && flag != "--cgroup"@ ==> args_from(
                args,
                0,
                period,
                cgroup,
            ) is None
        }),
{
    reveal_strlit("-T");
    reveal_strlit("--period-ms");
    reveal_strlit("--cgroup");
    let args = seq![flag, value] + rest;
    assert(args[0] == flag && args[1] == value);
    let n = crate::text::u64_of_text(value);
    lemma_args_shift(seq![flag, value], rest, 0, n, cgroup);
    lemma_args_shift(seq![flag, value], rest, 0, period, value);
    assert("--cgroup"@.len() == 8 && "-T"@.len() == 2 && "--period-ms"@.len() == 11);
}

} // verus!
