//! Durations, as they are written.

use vstd::prelude::*;
use vstd::string::*;

use crate::text::{same, white_space};

verus! {

/// A duration.
#[derive(Clone, Copy, Debug, PartialEq, Eq, Structural)]
pub struct Span {
    pub secs: u64,
    pub nanos: u32,
}

/// As many nanoseconds as make up one second more than 64 bits hold.
pub const TOO_MANY_NANOS: u128 = 18_446_744_073_709_551_616_000_000_000;

/// How many nanoseconds a unit of time has.
pub open spec fn unit_nanos(unit: Seq<char>) -> Option<nat> {
    if unit == "nanos"@ || unit == "nsec"@ || unit == "ns"@ {
        Some(1)
    } else if unit == "usec"@ || unit == "us"@ || unit == "\u{b5}s"@ {
        Some(1_000)
    } else if unit == "millis"@ || unit == "msec"@ || unit == "ms"@ {
        Some(1_000_000)
    } else if unit == "seconds"@ || unit == "second"@ || unit == "secs"@ || unit == "sec"@ || unit
        == "s"@ {
        Some(1_000_000_000)
    } else if unit == "minutes"@ || unit == "minute"@ || unit == "min"@ || unit == "mins"@ || unit
        == "m"@ {
        Some(60_000_000_000)
    } else if unit == "hours"@ || unit == "hour"@ || unit == "hr"@ || unit == "hrs"@ || unit
        == "h"@ {
        Some(3_600_000_000_000)
    } else if unit == "days"@ || unit == "day"@ || unit == "d"@ {
        Some(86_400_000_000_000)
    } else if unit == "weeks"@ || unit == "week"@ || unit == "wk"@ || unit == "wks"@ || unit
        == "w"@ {
        Some(604_800_000_000_000)
    } else if unit == "months"@ || unit == "month"@ || unit == "M"@ {
        Some(2_630_016_000_000_000)
    } else if unit == "years"@ || unit == "year"@ || unit == "yr"@ || unit == "yrs"@ || unit
        == "y"@ {
        Some(31_557_600_000_000_000)
    } else {
        None
    }
}

/// A character that may stand in a number: a digit, white space or a dot.
pub open spec fn is_number_char(c: char) -> bool {
    crate::text::is_digit(c) || c == '.' || crate::text::is_white_space(c)
}

/// A character that may stand in a unit of time.
pub open spec fn is_unit_char(c: char) -> bool {
    ('a' <= c && c <= 'z') || ('A' <= c && c <= 'Z') || c == '\u{b5}'
}

/// Where the number ends that starts at index `i`.
pub open spec fn number_end(s: Seq<char>, i: int) -> int
    decreases s.len() - i,
{
    if 0 <= i < s.len() && is_number_char(s[i]) {
        number_end(s, i + 1)
    } else {
        i
    }
}

/// Where the unit ends that starts at index `i`.
pub open spec fn unit_end(s: Seq<char>, i: int) -> int
    decreases s.len() - i,
{
    if 0 <= i < s.len() && is_unit_char(s[i]) {
        unit_end(s, i + 1)
    } else {
        i
    }
}

/// A number with a fraction, as far as it is written.
pub struct Number {
    /// What stands before the first dot, and with how many digits.
    pub whole: nat,
    pub whole_digits: nat,
    /// What stands after it, and with how many digits.
    pub fraction: nat,
    pub fraction_digits: nat,
    pub dots: nat,
}

/// The number that digits, white space and dots stand for.
pub open spec fn number_of(s: Seq<char>) -> Number
    decreases s.len(),
{
    if s.len() == 0 {
        Number { whole: 0, whole_digits: 0, fraction: 0, fraction_digits: 0, dots: 0 }
    } else {
        let n = number_of(s.drop_last());
        let c = s.last();
        if crate::text::is_digit(c) {
            if n.dots == 0 {
                Number {
                    whole: n.whole * 10 + crate::text::digit_value(c),
                    whole_digits: n.whole_digits + 1,
                    ..n
                }
            } else {
                Number {
                    fraction: n.fraction * 10 + crate::text::digit_value(c),
                    fraction_digits: n.fraction_digits + 1,
                    ..n
                }
            }
        } else if c == '.' {
            Number { dots: n.dots + 1, ..n }
        } else {
            n
        }
    }
}

/// A power of ten.
pub open spec fn power_of_ten(n: nat) -> nat
    decreases n,
{
    if n == 0 {
        1
    } else {
        10 * power_of_ten((n - 1) as nat)
    }
}

impl Number {
    /// There are digits where there have to be some, and no more of a fraction than a power
    /// of ten in 64 bits can part.
    pub open spec fn is_valid(self) -> bool {
        &&& self.whole_digits > 0
        &&& self.dots <= 1
        &&& self.dots == 1 ==> 1 <= self.fraction_digits <= 19
    }

    /// So many of something that has so many nanoseconds.
    pub open spec fn times(self, per: nat) -> nat {
        self.whole * per + self.fraction * per / power_of_ten(self.fraction_digits)
    }
}

/// How many nanoseconds the spans of time have that stand in a text from index `i` on, up to
/// the first that is none.
pub open spec fn nanos_from(s: Seq<char>, i: int) -> nat
    decreases s.len() - i,
{
    let n = number_end(s, i);
    let u = unit_end(s, n);
    if 0 <= i && i < n && n < u && u <= s.len() && number_of(s.subrange(i, n)).is_valid()
        && unit_nanos(s.subrange(n, u)) is Some && (u == s.len() || crate::text::is_digit(s[u])
        || crate::text::is_white_space(s[u])) {
        number_of(s.subrange(i, n)).times(unit_nanos(s.subrange(n, u))->0) + nanos_from(s, u)
    } else {
        0
    }
}

/// The text stands for less time than one second more than 64 bits hold.
pub open spec fn is_in_range(s: Seq<char>) -> bool {
    nanos_from(s, 0) < TOO_MANY_NANOS
}

fn nanos_of_unit(unit: &str) -> (r: Option<u128>)
    ensures
        match r {
            Some(per) => unit_nanos(unit@) == Some(per as nat) && 0 < per
                <= 31_557_600_000_000_000,
            None => unit_nanos(unit@) is None,
        },
{
    if same(unit, "nanos") || same(unit, "nsec") || same(unit, "ns") {
        Some(1)
    } else if same(unit, "usec") || same(unit, "us") || same(unit, "\u{b5}s") {
        Some(1_000)
    } else if same(unit, "millis") || same(unit, "msec") || same(unit, "ms") {
        Some(1_000_000)
    } else if same(unit, "seconds") || same(unit, "second") || same(unit, "secs") || same(
        unit,
        "sec",
    ) || same(unit, "s") {
        Some(1_000_000_000)
    } else if same(unit, "minutes") || same(unit, "minute") || same(unit, "min") || same(
        unit,
        "mins",
    ) || same(unit, "m") {
        Some(60_000_000_000)
    } else if same(unit, "hours") || same(unit, "hour") || same(unit, "hr") || same(unit, "hrs")
        || same(unit, "h") {
        Some(3_600_000_000_000)
    } else if same(unit, "days") || same(unit, "day") || same(unit, "d") {
        Some(86_400_000_000_000)
    } else if same(unit, "weeks") || same(unit, "week") || same(unit, "wk") || same(unit, "wks")
        || same(unit, "w") {
        Some(604_800_000_000_000)
    } else if same(unit, "months") || same(unit, "month") || same(unit, "M") {
        Some(2_630_016_000_000_000)
    } else if same(unit, "years") || same(unit, "year") || same(unit, "yr") || same(unit, "yrs")
        || same(unit, "y") {
        Some(31_557_600_000_000_000)
    } else {
        None
    }
}

/// A number as far as it matters: what is as large as [`TOO_MANY_NANOS`] counts as that, and
/// a fraction of too many digits is not looked at.
struct Amount {
    whole: u128,
    fraction: u128,
    /// The power of ten that parts the fraction.
    parts: u128,
    is_valid: bool,
}

spec fn at_most(n: nat) -> nat {
    if n < TOO_MANY_NANOS {
        n
    } else {
        TOO_MANY_NANOS as nat
    }
}

spec fn stands_for(a: Amount, n: Number) -> bool {
    &&& a.is_valid == n.is_valid()
    &&& a.is_valid ==> {
        &&& a.whole == at_most(n.whole)
        &&& a.fraction == n.fraction
        &&& a.parts == power_of_ten(n.fraction_digits)
        &&& a.fraction < a.parts <= 10_000_000_000_000_000_000
    }
}

proof fn lemma_powers_of_ten()
    ensures
        power_of_ten(0) == 1,
        forall|n: nat| #[trigger] power_of_ten(n + 1) == 10 * power_of_ten(n),
        forall|n: nat| n <= 19 ==> 1 <= #[trigger] power_of_ten(n) <= 10_000_000_000_000_000_000,
{
    assert forall|n: nat| n <= 19 implies 1 <= #[trigger] power_of_ten(n)
        <= 10_000_000_000_000_000_000 by {
        lemma_power_grows(n, 19);
        reveal_with_fuel(power_of_ten, 20);
    }
}

proof fn lemma_power_grows(a: nat, b: nat)
    requires
        a <= b,
    ensures
        1 <= power_of_ten(a) <= power_of_ten(b),
    decreases b,
{
    if a < b {
        lemma_power_grows(a, (b - 1) as nat);
    } else if a > 0 {
        lemma_power_grows((a - 1) as nat, (a - 1) as nat);
    }
}

/// Reads the number that starts at index `start`, and says where it ends.
fn read_number(text: &str, start: usize) -> (r: (Amount, usize))
    requires
        start <= text@.len(),
    ensures
        start <= r.1 <= text@.len(),
        r.1 == number_end(text@, start as int),
        stands_for(r.0, number_of(text@.subrange(start as int, r.1 as int))),
{
    let len: usize = text.unicode_len();
    let mut i: usize = start;
    let mut whole: u128 = 0;
    let mut whole_digits: usize = 0;
    let mut fraction: u128 = 0;
    let mut fraction_digits: usize = 0;
    let mut parts: u128 = 1;
    let mut dots: usize = 0;
    assert(text@.subrange(start as int, i as int) =~= Seq::<char>::empty());
    while i < len && (text.get_char(i) == '.' || is_digit_char(text.get_char(i)) || white_space(
        text.get_char(i),
    ))
        invariant
            len == text@.len(),
            start <= i <= len,
            number_end(text@, i as int) == number_end(text@, start as int),
            ({
                let n = number_of(text@.subrange(start as int, i as int));
                &&& whole == at_most(n.whole)
                &&& whole_digits == n.whole_digits
                &&& fraction_digits == n.fraction_digits
                &&& dots == n.dots
                &&& whole_digits + fraction_digits + dots <= i - start
                &&& n.fraction_digits <= 19 ==> {
                    &&& fraction == n.fraction
                    &&& parts == power_of_ten(n.fraction_digits)
                    &&& fraction < parts <= 10_000_000_000_000_000_000
                }
            }),
        ensures
            i == number_end(text@, start as int),
        decreases len - i,
    {
        let c = text.get_char(i);
        let ghost before = number_of(text@.subrange(start as int, i as int));
        proof {
            let next = text@.subrange(start as int, i + 1);
            assert(next.drop_last() =~= text@.subrange(start as int, i as int));
            assert(next.last() == c);
            lemma_powers_of_ten();
        }
        if is_digit_char(c) {
            let d: u128 = (c as u32 - '0' as u32) as u128;
            if dots == 0 {
                whole_digits = whole_digits + 1;
                let more: u128 = whole * 10 + d;
                whole = if more < TOO_MANY_NANOS {
                    more
                } else {
                    TOO_MANY_NANOS
                };
            } else {
                if fraction_digits < 19 {
                    fraction = fraction * 10 + d;
                    parts = parts * 10;
                    assert(parts == power_of_ten(before.fraction_digits + 1));
                }
                fraction_digits = fraction_digits + 1;
            }
        } else if c == '.' {
            dots = dots + 1;
        }
        i = i + 1;
    }
    let is_valid = whole_digits > 0 && dots <= 1 && (dots == 0 || (1 <= fraction_digits
        && fraction_digits <= 19));
    proof {
        lemma_no_fraction(text@.subrange(start as int, i as int));
    }
    (Amount { whole, fraction, parts, is_valid }, i)
}

proof fn lemma_no_fraction(s: Seq<char>)
    ensures
        number_of(s).dots == 0 ==> number_of(s).fraction_digits == 0,
    decreases s.len(),
{
    if s.len() > 0 {
        lemma_no_fraction(s.drop_last());
    }
}

fn is_digit_char(c: char) -> (r: bool)
    ensures
        r == crate::text::is_digit(c),
{
    '0' <= c && c <= '9'
}

/// Says where the unit ends that starts at index `start`.
fn read_unit(text: &str, start: usize) -> (r: usize)
    requires
        start <= text@.len(),
    ensures
        start <= r <= text@.len(),
        r == unit_end(text@, start as int),
{
    let len: usize = text.unicode_len();
    let mut i: usize = start;
    while i < len && is_unit_letter(text.get_char(i))
        invariant
            len == text@.len(),
            start <= i <= len,
            unit_end(text@, i as int) == unit_end(text@, start as int),
        ensures
            i == unit_end(text@, start as int),
        decreases len - i,
    {
        i = i + 1;
    }
    i
}

fn is_unit_letter(c: char) -> (r: bool)
    ensures
        r == is_unit_char(c),
{
    ('a' <= c && c <= 'z') || ('A' <= c && c <= 'Z') || c == '\u{b5}'
}

/// So many nanoseconds, or [`TOO_MANY_NANOS`] if they are more.
fn times(a: &Amount, per: u128, Ghost(n): Ghost<Number>) -> (r: u128)
    requires
        a.is_valid,
        stands_for(*a, n),
        0 < per <= 31_557_600_000_000_000,
    ensures
        r == at_most(n.times(per as nat)),
{
    let ghost whole_nanos = n.whole * per;
    let ghost part_nanos = n.fraction * per / power_of_ten(n.fraction_digits) as int;
    assert(a.fraction * per < 10_000_000_000_000_000_000 * 31_557_600_000_000_000)
        by (nonlinear_arith)
        requires
            a.fraction < 10_000_000_000_000_000_000,
            0 < per <= 31_557_600_000_000_000,
    ;
    let part: u128 = a.fraction * per / a.parts;
    assert(part == part_nanos);
    assert(part <= per) by {
        assert(a.fraction * per <= a.parts * per) by (nonlinear_arith)
            requires
                a.fraction < a.parts,
                0 < per,
        ;
        assert(part <= per) by (nonlinear_arith)
            requires
                a.fraction * per <= a.parts * per,
                part == (a.fraction * per) as int / a.parts as int,
                a.parts > 0,
        ;
    }
    let most: u128 = TOO_MANY_NANOS / per;
    if a.whole > most {
        assert(whole_nanos >= TOO_MANY_NANOS) by (nonlinear_arith)
            requires
                n.whole >= most + 1,
                most == TOO_MANY_NANOS / per,
                per > 0,
                whole_nanos == n.whole * per,
        ;
        TOO_MANY_NANOS
    } else {
        assert(a.whole * per <= TOO_MANY_NANOS) by (nonlinear_arith)
            requires
                a.whole <= most,
                most == TOO_MANY_NANOS / per,
                per > 0,
        ;
        assert(n.whole >= TOO_MANY_NANOS ==> whole_nanos >= TOO_MANY_NANOS) by (nonlinear_arith)
            requires
                whole_nanos == n.whole * per,
                per > 0,
        ;
        assert(a.whole == TOO_MANY_NANOS ==> a.whole * per >= TOO_MANY_NANOS) by (nonlinear_arith)
            requires
                per > 0,
        ;
        let sum: u128 = a.whole * per + part;
        if sum < TOO_MANY_NANOS {
            sum
        } else {
            TOO_MANY_NANOS
        }
    }
}

/// Whether a text stands for less time than one second more than 64 bits hold.
pub fn check_range(text: &str) -> (r: bool)
    ensures
        r == is_in_range(text@),
{
    let len: usize = text.unicode_len();
    let mut total: u128 = 0;
    let mut i: usize = 0;
    while i < len
        invariant
            len == text@.len(),
            i <= len,
            total < TOO_MANY_NANOS,
            nanos_from(text@, 0) == total + nanos_from(text@, i as int),
        decreases len - i,
    {
        let (amount, n) = read_number(text, i);
        let ghost number = number_of(text@.subrange(i as int, n as int));
        let u: usize = read_unit(text, n);
        if i == n || n == u || !amount.is_valid {
            return true;
        }
        if u < len && !is_digit_char(text.get_char(u)) && !white_space(text.get_char(u)) {
            return true;
        }
        match nanos_of_unit(text.substring_char(n, u)) {
            None => {
                return true;
            },
            Some(per) => {
                let more: u128 = times(&amount, per, Ghost(number));
                if total + more >= TOO_MANY_NANOS {
                    return false;
                }
                total = total + more;
            },
        }
        i = u;
    }
    true
}

/// The duration that a text stands for, or why it stands for none.
pub uninterp spec fn duration_of(text: Seq<char>) -> Result<Span, Seq<char>>;

/// Calls `humantime::parse_duration`; the error is shown with `{:#}`. The nanoseconds of a
/// `std::time::Duration` are less than a second.
///
/// That function adds up spans of time, from the first to the last. It panics if they make up
/// exactly one second more than 64 bits hold, and only then: when the seconds are as many as
/// 64 bits hold, and the nanoseconds make up one more. So it does not for a text that stands
/// for less time than that.
#[verifier::external_body]
pub(crate) fn parse_duration(text: &str) -> (r: Result<Span, String>)
    requires
        is_in_range(text@),
    ensures
        match r {
            Ok(span) => duration_of(text@) is Ok && duration_of(text@)->Ok_0 == span && span.nanos
                < 1_000_000_000,
            Err(err) => duration_of(text@) is Err && duration_of(text@)->Err_0 == err@,
        },
{
    humantime::parse_duration(text)
        .map(|d| Span { secs: d.as_secs(), nanos: d.subsec_nanos() })
        .map_err(|err| format!("{err:#}"))
}

/// What is said of a duration that 64 bits of seconds do not hold.
pub const TOO_LARGE: &'static str = "number is too large or cannot be represented without a lack of precision (values below 1ns are not supported)";

/// The duration that is read from a text.
pub open spec fn read(text: Seq<char>) -> Result<Span, Seq<char>> {
    if is_in_range(text) {
        duration_of(text)
    } else {
        Err(TOO_LARGE@)
    }
}

/// The duration that a text stands for.
pub fn read_duration(text: &str) -> (r: Result<Span, String>)
    ensures
        match r {
            Ok(span) => read(text@) is Ok && read(text@)->Ok_0 == span && span.nanos
                < 1_000_000_000,
            Err(err) => read(text@) is Err && read(text@)->Err_0 == err@,
        },
{
    if check_range(text) {
        parse_duration(text)
    } else {
        Err(TOO_LARGE.to_owned())
    }
}

/// The units of time are multiples of each other, and go by these names.
pub proof fn law_units_of_time()
    ensures
        unit_nanos("ns"@) == Some(1nat),
        unit_nanos("us"@) == Some(1_000nat),
        unit_nanos("ms"@) == Some(1_000 * 1_000nat),
        unit_nanos("s"@) == Some(1_000 * 1_000_000nat),
        unit_nanos("m"@) == Some(60 * 1_000_000_000nat),
        unit_nanos("h"@) == Some(60 * 60_000_000_000nat),
        unit_nanos("d"@) == Some(24 * 3_600_000_000_000nat),
        unit_nanos("w"@) == Some(7 * 86_400_000_000_000nat),
        unit_nanos("M"@) == Some(3044 * 864_000_000_000nat),
        unit_nanos("y"@) == Some(36525 * 864_000_000_000nat),
        unit_nanos(""@) is None,
{
    reveal_strlit("nanos");
    reveal_strlit("nsec");
    reveal_strlit("ns");
    reveal_strlit("usec");
    reveal_strlit("us");
    reveal_strlit("\u{b5}s");
    reveal_strlit("millis");
    reveal_strlit("msec");
    reveal_strlit("ms");
    reveal_strlit("seconds");
    reveal_strlit("second");
    reveal_strlit("secs");
    reveal_strlit("sec");
    reveal_strlit("s");
    reveal_strlit("minutes");
    reveal_strlit("minute");
    reveal_strlit("min");
    reveal_strlit("mins");
    reveal_strlit("m");
    reveal_strlit("hours");
    reveal_strlit("hour");
    reveal_strlit("hr");
    reveal_strlit("hrs");
    reveal_strlit("h");
    reveal_strlit("days");
    reveal_strlit("day");
    reveal_strlit("d");
    reveal_strlit("weeks");
    reveal_strlit("week");
    reveal_strlit("wk");
    reveal_strlit("wks");
    reveal_strlit("w");
    reveal_strlit("months");
    reveal_strlit("month");
    reveal_strlit("M");
    reveal_strlit("years");
    reveal_strlit("year");
    reveal_strlit("yr");
    reveal_strlit("yrs");
    reveal_strlit("y");
    reveal_strlit("");
    assert("s"@[0] == 's' && "m"@[0] == 'm' && "h"@[0] == 'h' && "d"@[0] == 'd' && "w"@[0] == 'w');
    assert("M"@[0] == 'M' && "y"@[0] == 'y');
    assert("ns"@[0] == 'n' && "us"@[0] == 'u' && "ms"@[0] == 'm' && "\u{b5}s"@[0] == '\u{b5}');
    assert("wk"@[0] == 'w' && "hr"@[0] == 'h' && "yr"@[0] == 'y');
    assert("m"@ != "s"@ && "m"@.len() == 1 && ""@.len() == 0);
}

/// So many of a unit, with a fraction, are the whole nanoseconds in it: no more, and none is lost.
pub proof fn law_fractions_are_rounded_down(n: Number, per: nat)
    ensures
        ({
            let parts = power_of_ten(n.fraction_digits);
            let exact = n.whole * per * parts + n.fraction * per;
            &&& n.times(per) * parts <= exact
            &&& exact < (n.times(per) + 1) * parts
        }),
        n.fraction == 0 ==> n.times(per) == n.whole * per,
{
    let parts = power_of_ten(n.fraction_digits);
    lemma_power_grows(n.fraction_digits, n.fraction_digits);
    let x = n.fraction * per;
    let q = x / parts;
    assert(q * parts <= x && x < (q + 1) * parts) by (nonlinear_arith)
        requires
            parts > 0,
            q == x / parts,
            x >= 0,
    ;
    let w = n.whole * per;
    assert((w + q) * parts == w * parts + q * parts) by (nonlinear_arith);
    assert((w + q + 1) * parts == w * parts + (q + 1) * parts) by (nonlinear_arith);
    if n.fraction == 0 {
        assert(x == 0) by (nonlinear_arith)
            requires
                x == n.fraction * per,
                n.fraction == 0,
        ;
        assert(q == 0) by (nonlinear_arith)
            requires
                q == x / parts,
                x == 0,
                parts > 0,
        ;
    }
}

proof fn lemma_number_of_digits(s: Seq<char>, digits: Seq<char>)
    requires
        forall|i: int| 0 <= i < digits.len() ==> crate::text::is_digit(#[trigger] digits[i]),
    ensures
        ({
            let (before, after) = (number_of(s), number_of(s + digits));
            &&& after.dots == before.dots
            &&& before.dots == 0 ==> after.whole_digits == before.whole_digits + digits.len()
                && after.fraction_digits == before.fraction_digits && after.fraction
                == before.fraction
            &&& before.dots == 0 && before.whole == 0 ==> after.whole
                == crate::text::digits_value(digits)
            &&& before.dots > 0 ==> after.whole_digits == before.whole_digits && after.whole
                == before.whole && after.fraction_digits == before.fraction_digits + digits.len()
            &&& before.dots > 0 && before.fraction == 0 ==> after.fraction
                == crate::text::digits_value(digits)
        }),
    decreases digits.len(),
{
    if digits.len() == 0 {
        assert(s + digits =~= s);
    } else {
        let front = digits.drop_last();
        assert forall|i: int| 0 <= i < front.len() implies crate::text::is_digit(
            #[trigger] front[i],
        ) by {
            assert(front[i] == digits[i]);
        }
        lemma_number_of_digits(s, front);
        assert((s + digits).drop_last() =~= s + front);
        assert((s + digits).last() == digits[digits.len() - 1]);
    }
}

/// Digits, a dot and digits are a number with a fraction, and digits alone are one without.
pub proof fn law_what_a_number_is(whole: Seq<char>, fraction: Seq<char>)
    requires
        crate::text::is_digits(whole),
        crate::text::is_digits(fraction),
    ensures
        number_of(whole) == (Number {
            whole: crate::text::digits_value(whole),
            whole_digits: whole.len(),
            fraction: 0,
            fraction_digits: 0,
            dots: 0,
        }),
        number_of(whole).is_valid(),
        number_of(whole + seq!['.'] + fraction) == (Number {
            whole: crate::text::digits_value(whole),
            whole_digits: whole.len(),
            fraction: crate::text::digits_value(fraction),
            fraction_digits: fraction.len(),
            dots: 1,
        }),
        number_of(whole + seq!['.'] + fraction).is_valid() <==> fraction.len() <= 19,
        !number_of(whole + seq!['.']).is_valid(),
        !number_of(seq!['.'] + fraction).is_valid(),
{
    let nothing = Seq::<char>::empty();
    lemma_number_of_digits(nothing, whole);
    assert(nothing + whole =~= whole);
    let dotted = whole + seq!['.'];
    assert(dotted.drop_last() =~= whole);
    lemma_number_of_digits(dotted, fraction);
    let dot = seq!['.'];
    assert(dot.drop_last() =~= nothing);
    assert(number_of(nothing).dots == 0);
    lemma_number_of_digits(dot, fraction);
}

proof fn lemma_ends_shift(p: Seq<char>, t: Seq<char>, i: int)
    requires
        0 <= i,
    ensures
        number_end(p + t, p.len() + i) == p.len() + number_end(t, i),
        unit_end(p + t, p.len() + i) == p.len() + unit_end(t, i),
        i <= number_end(t, i),
        i <= unit_end(t, i),
        i <= t.len() ==> number_end(t, i) <= t.len() && unit_end(t, i) <= t.len(),
    decreases t.len() - i,
{
    if i < t.len() {
        lemma_ends_shift(p, t, i + 1);
        assert((p + t)[p.len() + i] == t[i]);
    }
}

proof fn lemma_nanos_shift(p: Seq<char>, t: Seq<char>, i: int)
    requires
        0 <= i <= t.len(),
    ensures
        nanos_from(p + t, p.len() + i) == nanos_from(t, i),
    decreases t.len() - i,
{
    let n = number_end(t, i);
    lemma_ends_shift(p, t, i);
    lemma_ends_shift(p, t, n);
    let u = unit_end(t, n);
    assert((p + t).subrange(p.len() + i, p.len() + n) =~= t.subrange(i, n));
    assert((p + t).subrange(p.len() + n, p.len() + u) =~= t.subrange(n, u));
    if u < t.len() {
        assert((p + t)[p.len() + u] == t[u]);
    }
    if i < n && n < u {
        lemma_nanos_shift(p, t, u);
    }
}

proof fn lemma_ends_at(s: Seq<char>, i: int, n: int)
    requires
        0 <= i <= n <= s.len(),
    ensures
        (forall|k: int| i <= k < n ==> is_number_char(#[trigger] s[k])) && (n == s.len()
            || !is_number_char(s[n])) ==> number_end(s, i) == n,
        (forall|k: int| i <= k < n ==> is_unit_char(#[trigger] s[k])) && (n == s.len()
            || !is_unit_char(s[n])) ==> unit_end(s, i) == n,
    decreases n - i,
{
    if i < n {
        lemma_ends_at(s, i + 1, n);
    }
}

/// Spans of time add up: what a span and the text after it stand for is the span and what that
/// text stands for. A span is a number and a unit.
pub proof fn law_spans_add_up(number: Seq<char>, unit: Seq<char>, rest: Seq<char>)
    requires
        number.len() > 0,
        unit.len() > 0,
        forall|i: int| 0 <= i < number.len() ==> is_number_char(#[trigger] number[i]),
        forall|i: int| 0 <= i < unit.len() ==> is_unit_char(#[trigger] unit[i]),
        !is_number_char(unit[0]),
        number_of(number).is_valid(),
        unit_nanos(unit) is Some,
        rest.len() == 0 || (!is_unit_char(rest[0]) && (crate::text::is_digit(rest[0])
            || crate::text::is_white_space(rest[0]))),
    ensures
        nanos_from(number + unit + rest, 0) == number_of(number).times(unit_nanos(unit)->0)
            + nanos_from(rest, 0),
        nanos_from(Seq::<char>::empty(), 0) == 0,
{
    let s = number + unit + rest;
    let (n, u) = (number.len() as int, (number.len() + unit.len()) as int);
    assert forall|k: int| 0 <= k < n implies is_number_char(#[trigger] s[k]) by {
        assert(s[k] == number[k]);
    }
    assert(s[n] == unit[0]);
    lemma_ends_at(s, 0, n);
    assert forall|k: int| n <= k < u implies is_unit_char(#[trigger] s[k]) by {
        assert(s[k] == unit[k - n]);
    }
    if rest.len() > 0 {
        assert(s[u] == rest[0]);
    }
    lemma_ends_at(s, n, u);
    assert(s.subrange(0, n) =~= number);
    assert(s.subrange(n, u) =~= unit);
    lemma_nanos_shift(number + unit, rest, 0);
}

/// A text that stands for too much time is not read at all; any other is read for what it stands
/// for.
pub proof fn law_what_is_too_long(text: Seq<char>)
    ensures
        nanos_from(text, 0) >= 0x1_0000_0000_0000_0000 * 1_000_000_000 ==> read(text) == Err::<
            Span,
            _,
        >(TOO_LARGE@),
        nanos_from(text, 0) < 0x1_0000_0000_0000_0000 * 1_000_000_000 ==> read(text) == duration_of(
            text,
        ),
{
}

} // verus!
