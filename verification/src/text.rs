//! Text the orchestrator reads and writes: decimal numbers and separators.

use vstd::prelude::*;
use vstd::string::*;

verus! {

/// `c` is one of `0` to `9`.
pub open spec fn is_digit(c: char) -> bool {
    '0' <= c && c <= '9'
}

/// The number that a decimal digit stands for.
pub open spec fn digit_value(c: char) -> nat {
    ((c as int) - ('0' as int)) as nat
}

/// The number that a string of decimal digits stands for.
pub open spec fn digits_value(s: Seq<char>) -> nat
    decreases s.len(),
{
    if s.len() == 0 {
        0
    } else {
        digits_value(s.drop_last()) * 10 + digit_value(s.last())
    }
}

/// `s` is one or more decimal digits.
pub open spec fn is_digits(s: Seq<char>) -> bool {
    s.len() > 0 && forall|i: int| 0 <= i < s.len() ==> is_digit(#[trigger] s[i])
}

/// The digits of a number written as text: a leading `+` is no part of them.
pub open spec fn unsigned_digits(s: Seq<char>) -> Seq<char> {
    if s.len() > 0 && s[0] == '+' {
        s.skip(1)
    } else {
        s
    }
}

/// What a text says when it is read as a `u64`: nothing unless it is an optional
/// `+` and one or more digits, of a number that fits.
pub open spec fn u64_of_text(s: Seq<char>) -> Option<u64> {
    let digits = unsigned_digits(s);
    if is_digits(digits) && digits_value(digits) <= u64::MAX {
        Some(digits_value(digits) as u64)
    } else {
        None
    }
}

proof fn lemma_digits_value_grows(s: Seq<char>, n: int)
    requires
        0 <= n <= s.len(),
    ensures
        digits_value(s.take(n)) <= digits_value(s),
    decreases s.len() - n,
{
    if n < s.len() {
        lemma_digits_value_grows(s, n + 1);
        assert(s.take(n + 1).drop_last() =~= s.take(n));
    } else {
        assert(s.take(n) =~= s);
    }
}

/// Reads a text as a `u64`.
pub fn parse_u64(s: &str) -> (r: Option<u64>)
    ensures
        r == u64_of_text(s@),
{
    let len: usize = s.unicode_len();
    let start: usize = if len > 0 && s.get_char(0) == '+' {
        1
    } else {
        0
    };
    let ghost digits = unsigned_digits(s@);
    assert(digits =~= s@.skip(start as int));
    if start == len {
        return None;
    }
    let mut value: u64 = 0;
    let mut i: usize = start;
    while i < len
        invariant
            len == s@.len(),
            start <= i <= len,
            digits == s@.skip(start as int),
            digits == unsigned_digits(s@),
            value == digits_value(digits.take(i - start)),
            forall|j: int| 0 <= j < i - start ==> is_digit(#[trigger] digits[j]),
        decreases len - i,
    {
        let c = s.get_char(i);
        assert(c == digits[i - start]);
        if !('0' <= c && c <= '9') {
            return None;
        }
        let d: u64 = (c as u32 - '0' as u32) as u64;
        proof {
            let next = digits.take(i - start + 1);
            assert(next.drop_last() =~= digits.take(i - start));
            assert(next.last() == c);
            assert(digits_value(next) == value * 10 + d);
            lemma_digits_value_grows(digits, i - start + 1);
        }
        if value > u64::MAX / 10 || value * 10 > u64::MAX - d {
            return None;
        }
        value = value * 10 + d;
        i = i + 1;
    }
    proof {
        assert(digits.take(len - start) =~= digits);
    }
    Some(value)
}

/// The decimal digit of a number below ten.
pub open spec fn digit_char(d: nat) -> char {
    (('0' as int) + d) as char
}

/// A number in decimal.
pub open spec fn decimal(n: nat) -> Seq<char>
    decreases n,
{
    if n < 10 {
        seq![digit_char(n)]
    } else {
        decimal(n / 10).push(digit_char(n % 10))
    }
}

/// Calls `itoa::Buffer::format` on a `u64`: the number in decimal, without a sign and
/// without leading zeros.
#[verifier::external_body]
pub(crate) fn itoa_u64(n: u64) -> (r: String)
    ensures
        r@ == decimal(n as nat),
{
    itoa::Buffer::new().format(n).to_owned()
}

/// The decimal digit of a number below ten.
fn digit(d: u8) -> (r: char)
    requires
        d < 10,
    ensures
        r == digit_char(d as nat),
{
    (48 + d) as char
}

/// A number in decimal.
pub(crate) fn show_u128(n: u128) -> (r: String)
    ensures
        r@ == decimal(n as nat),
    decreases n,
{
    let mut r = if n < 10 {
        "".to_owned()
    } else {
        show_u128(n / 10)
    };
    proof {
        reveal_strlit("");
    }
    r.push(digit((n % 10) as u8));
    assert(r@ =~= decimal(n as nat));
    r
}

/// `n` zeros.
pub open spec fn zeros(n: nat) -> Seq<char> {
    Seq::new(n, |i: int| '0')
}

/// A number in decimal, filled with zeros on the left to at least `width` digits.
pub open spec fn padded(n: nat, width: nat) -> Seq<char> {
    let digits = decimal(n);
    if digits.len() < width {
        zeros((width - digits.len()) as nat) + digits
    } else {
        digits
    }
}

/// A number in decimal, filled with zeros on the left to at least `width` digits.
pub fn zero_padded(n: u64, width: usize) -> (r: String)
    ensures
        r@ == padded(n as nat, width as nat),
{
    let digits = itoa_u64(n);
    let len: usize = digits.as_str().unicode_len();
    let mut r = "".to_owned();
    proof {
        reveal_strlit("");
        reveal_strlit("0");
    }
    let mut i: usize = len;
    assert(r@ =~= zeros(0));
    while i < width
        invariant
            len == digits@.len(),
            len <= i,
            i <= width || i == len,
            r@ == zeros((i - len) as nat),
            "0"@ == seq!['0'],
        decreases width - i,
    {
        r.append("0");
        i = i + 1;
        assert(r@ =~= zeros((i - len) as nat));
    }
    r.append(digits.as_str());
    assert(len >= width ==> r@ =~= digits@);
    r
}

/// A text, filled with spaces on the left to at least `width` characters.
pub open spec fn aligned(s: Seq<char>, width: nat) -> Seq<char> {
    if s.len() < width {
        Seq::new((width - s.len()) as nat, |i: int| ' ') + s
    } else {
        s
    }
}

/// A text, filled with spaces on the left to at least `width` characters.
pub fn right_aligned(s: &str, width: usize) -> (r: String)
    ensures
        r@ == aligned(s@, width as nat),
{
    let len: usize = s.unicode_len();
    let mut r = String::new();
    let mut i: usize = len;
    while i < width
        invariant
            len == s@.len(),
            len <= i,
            i <= width || i == len,
            r@ == Seq::new((i - len) as nat, |k: int| ' '),
        decreases width - i,
    {
        r.push(' ');
        i = i + 1;
        assert(r@ =~= Seq::new((i - len) as nat, |k: int| ' '));
    }
    r.append(s);
    assert(len >= width ==> r@ =~= s@);
    r
}

proof fn lemma_decimal_value(n: nat)
    ensures
        digits_value(decimal(n)) == n,
    decreases n,
{
    reveal_with_fuel(digits_value, 2);
    if n < 10 {
        assert(seq![digit_char(n)].drop_last() =~= Seq::<char>::empty());
    } else {
        lemma_decimal_value(n / 10);
        let s = decimal(n / 10).push(digit_char(n % 10));
        assert(s.drop_last() =~= decimal(n / 10));
        assert(s.last() == digit_char(n % 10));
    }
}

proof fn lemma_leading_zeros(k: nat, s: Seq<char>)
    ensures
        digits_value(zeros(k) + s) == digits_value(s),
    decreases k + s.len(),
{
    let t = zeros(k) + s;
    if s.len() > 0 {
        assert(t.drop_last() =~= zeros(k) + s.drop_last());
        assert(t.last() == s.last());
        lemma_leading_zeros(k, s.drop_last());
    } else if k > 0 {
        assert(t.drop_last() =~= zeros((k - 1) as nat) + s);
        assert(t.last() == '0');
        lemma_leading_zeros((k - 1) as nat, s);
    }
}

/// Numbers that are written alike are the same, whatever they are filled to.
pub proof fn law_padded_is_injective(a: nat, b: nat, width: nat)
    requires
        padded(a, width) == padded(b, width),
    ensures
        a == b,
{
    lemma_decimal_value(a);
    lemma_decimal_value(b);
    lemma_leading_zeros((width - decimal(a).len()) as nat, decimal(a));
    lemma_leading_zeros((width - decimal(b).len()) as nat, decimal(b));
}

/// How a duration is shown.
pub uninterp spec fn shown_duration(nanos: u64) -> Seq<char>;

/// Formats a `std::time::Duration` with `{:?}`.
#[verifier::external_body]
pub(crate) fn show_duration(nanos: u64) -> (r: String)
    ensures
        r@ == shown_duration(nanos),
{
    format!("{:?}", std::time::Duration::from_nanos(nanos))
}

/// The texts of a list of strings.
pub open spec fn texts(v: Seq<String>) -> Seq<Seq<char>> {
    Seq::new(v.len(), |i: int| v[i]@)
}

/// Appends a character to a string: `String::push`.
pub assume_specification[ String::push ](s: &mut String, c: char)
    ensures
        final(s)@ == old(s)@.push(c),
;

/// The parts of a text between the occurrences of a character: one more than there are.
pub open spec fn split_on(s: Seq<char>, c: char) -> Seq<Seq<char>>
    decreases s.len(),
{
    if s.len() == 0 {
        seq![Seq::<char>::empty()]
    } else {
        let parts = split_on(s.drop_last(), c);
        if s.last() == c {
            parts.push(Seq::<char>::empty())
        } else {
            parts.drop_last().push(parts.last().push(s.last()))
        }
    }
}

proof fn lemma_split_is_not_empty(s: Seq<char>, c: char)
    ensures
        split_on(s, c).len() > 0,
    decreases s.len(),
{
    if s.len() > 0 {
        lemma_split_is_not_empty(s.drop_last(), c);
    }
}

/// The parts of a text between the occurrences of a character.
pub fn split_text(s: &str, c: char) -> (r: Vec<String>)
    ensures
        texts(r@) == split_on(s@, c),
{
    let chars = chars_of(s);
    let mut r: Vec<String> = Vec::new();
    let mut part = String::new();
    let mut i: usize = 0;
    assert(texts(r@).push(part@) =~= split_on(s@.take(0), c));
    while i < chars.len()
        invariant
            chars@ == s@,
            i <= chars.len(),
            texts(r@).push(part@) == split_on(s@.take(i as int), c),
        decreases chars.len() - i,
    {
        let x = chars[i];
        let ghost before = split_on(s@.take(i as int), c);
        proof {
            let next = s@.take(i + 1);
            assert(next.drop_last() =~= s@.take(i as int));
            assert(next.last() == x);
            assert(before.drop_last() =~= texts(r@));
            assert(before.last() == part@);
        }
        let ghost done = r@;
        let ghost tail = part@;
        if x == c {
            r.push(part);
            part = String::new();
            assert(texts(r@) =~= texts(done).push(tail));
        } else {
            part.push(x);
        }
        i = i + 1;
    }
    assert(s@.take(i as int) =~= s@);
    let ghost done = r@;
    let ghost tail = part@;
    r.push(part);
    assert(texts(r@) =~= texts(done).push(tail));
    r
}

/// A text without one carriage return at its end.
pub open spec fn without_cr(s: Seq<char>) -> Seq<char> {
    if s.len() > 0 && s.last() == '\r' {
        s.drop_last()
    } else {
        s
    }
}

/// The lines of a text. A line ends with a newline, or with a carriage return and a newline;
/// the last line need not end.
pub open spec fn lines_of(s: Seq<char>) -> Seq<Seq<char>> {
    let parts = split_on(s, '\n');
    let ended = parts.drop_last().map_values(|p: Seq<char>| without_cr(p));
    if parts.last().len() == 0 {
        ended
    } else {
        ended.push(parts.last())
    }
}

fn strip_cr(s: String) -> (r: String)
    ensures
        r@ == without_cr(s@),
{
    let len: usize = s.as_str().unicode_len();
    if len > 0 && s.as_str().get_char(len - 1) == '\r' {
        let r = s.as_str().substring_char(0, len - 1).to_owned();
        assert(r@ =~= s@.drop_last());
        r
    } else {
        s
    }
}

/// The lines of a text.
pub fn lines(s: &str) -> (r: Vec<String>)
    ensures
        texts(r@) == lines_of(s@),
{
    let mut parts = split_text(s, '\n');
    proof {
        lemma_split_is_not_empty(s@, '\n');
    }
    let ghost all = texts(parts@);
    let last = parts.pop().unwrap();
    assert(texts(parts@) =~= all.drop_last());
    let mut r: Vec<String> = Vec::new();
    let ghost ended = all.drop_last().map_values(|p: Seq<char>| without_cr(p));
    for part in it: parts
        invariant
            texts(it.seq()) == all.drop_last(),
            ended == all.drop_last().map_values(|p: Seq<char>| without_cr(p)),
            r@.len() == it.index(),
            texts(r@) == ended.take(it.index() as int),
    {
        assert(part@ == texts(it.seq())[it.index() as int]);
        let line = strip_cr(part);
        r.push(line);
        assert(texts(r@) =~= ended.take(it.index() + 1));
    }
    assert(texts(r@) =~= ended);
    if last.as_str().unicode_len() > 0 {
        let ghost done = r@;
        let ghost tail = last@;
        r.push(last);
        assert(texts(r@) =~= texts(done).push(tail));
    }
    r
}

/// A character that is white space.
pub uninterp spec fn is_white_space(c: char) -> bool;

/// Calls `char::is_whitespace`. Which characters are white space is left to that function.
#[verifier::external_body]
pub(crate) fn white_space(c: char) -> (r: bool)
    ensures
        r == is_white_space(c),
{
    c.is_whitespace()
}

/// A text without white space at its start.
pub open spec fn trimmed_start(s: Seq<char>) -> Seq<char>
    decreases s.len(),
{
    if s.len() > 0 && is_white_space(s[0]) {
        trimmed_start(s.skip(1))
    } else {
        s
    }
}

/// A text without white space at its end.
pub open spec fn trimmed_end(s: Seq<char>) -> Seq<char>
    decreases s.len(),
{
    if s.len() > 0 && is_white_space(s.last()) {
        trimmed_end(s.drop_last())
    } else {
        s
    }
}

/// A text without white space at its ends.
pub open spec fn trimmed(s: Seq<char>) -> Seq<char> {
    trimmed_end(trimmed_start(s))
}

/// A text without white space at its ends.
pub(crate) fn trim(s: &str) -> (r: String)
    ensures
        r@ == trimmed(s@),
{
    let len: usize = s.unicode_len();
    let mut start: usize = 0;
    assert(s@.skip(0) =~= s@);
    while start < len && white_space(s.get_char(start))
        invariant
            len == s@.len(),
            start <= len,
            trimmed_start(s@.skip(start as int)) == trimmed_start(s@),
        ensures
            start < len ==> !is_white_space(s@[start as int]),
        decreases len - start,
    {
        assert(s@.skip(start as int).skip(1) =~= s@.skip(start + 1));
        start = start + 1;
    }
    let ghost rest = s@.skip(start as int);
    assert(trimmed_start(s@) == rest);
    let mut end: usize = len;
    assert(s@.subrange(start as int, end as int) =~= rest);
    while start < end && white_space(s.get_char(end - 1))
        invariant
            start <= end <= len,
            len == s@.len(),
            trimmed_end(s@.subrange(start as int, end as int)) == trimmed_end(rest),
        ensures
            start < end ==> !is_white_space(s@[end - 1]),
        decreases end - start,
    {
        assert(s@.subrange(start as int, end as int).drop_last() =~= s@.subrange(
            start as int,
            end - 1,
        ));
        end = end - 1;
    }
    s.substring_char(start, end).to_owned()
}

/// `pat` stands in `s` at index `i`.
pub open spec fn occurs_at(s: Seq<char>, pat: Seq<char>, i: int) -> bool {
    0 <= i && i + pat.len() <= s.len() && s.subrange(i, i + pat.len()) == pat
}

/// `pat` stands somewhere in `s`.
pub open spec fn occurs(s: Seq<char>, pat: Seq<char>) -> bool {
    exists|i: int| occurs_at(s, pat, i)
}

/// The characters of a text.
pub fn chars_of(s: &str) -> (r: Vec<char>)
    ensures
        r@ == s@,
{
    let mut r: Vec<char> = Vec::new();
    for c in it: s.chars()
        invariant
            it.seq() == s@,
            r@ == s@.take(it.index() as int),
    {
        r.push(c);
    }
    r
}

/// Whether two texts are the same.
pub fn same(a: &str, b: &str) -> (r: bool)
    ensures
        r == (a@ == b@),
{
    a.to_owned() == b.to_owned()
}

fn is_at(s: &Vec<char>, pat: &Vec<char>, i: usize) -> (r: bool)
    requires
        i + pat@.len() <= s@.len(),
    ensures
        r == occurs_at(s@, pat@, i as int),
{
    let mut j: usize = 0;
    while j < pat.len()
        invariant
            i + pat.len() <= s.len(),
            j <= pat.len(),
            forall|k: int| 0 <= k < j ==> s@[i + k] == pat@[k],
        decreases pat@.len() - j,
    {
        if s[i + j] != pat[j] {
            assert(s@.subrange(i as int, i + pat@.len())[j as int] != pat@[j as int]);
            return false;
        }
        j = j + 1;
    }
    assert(s@.subrange(i as int, i + pat@.len()) =~= pat@);
    true
}

/// Whether `pat` stands somewhere in `s`.
pub fn contains_text(s: &str, pat: &str) -> (r: bool)
    ensures
        r == occurs(s@, pat@),
{
    let text = chars_of(s);
    let wanted = chars_of(pat);
    if wanted.len() == 0 {
        assert(s@.subrange(0, 0) =~= pat@);
        assert(occurs_at(s@, pat@, 0));
        return true;
    }
    let mut i: usize = 0;
    while i < text.len() && wanted.len() <= text.len() - i
        invariant
            text@ == s@,
            wanted@ == pat@,
            wanted.len() > 0,
            i <= text.len(),
            forall|j: int| 0 <= j < i ==> !occurs_at(s@, pat@, j),
        decreases text.len() - i,
    {
        if is_at(&text, &wanted, i) {
            return true;
        }
        i = i + 1;
    }
    false
}

/// `s` around the first `c` in it; `None` if there is none.
pub fn split_once(s: &str, c: char) -> (r: Option<(String, String)>)
    ensures
        match r {
            Some((before, after)) => s@ == before@ + seq![c] + after@ && !before@.contains(c),
            None => !s@.contains(c),
        },
{
    let len: usize = s.unicode_len();
    let mut i: usize = 0;
    while i < len
        invariant
            len == s@.len(),
            i <= len,
            forall|j: int| 0 <= j < i ==> s@[j] != c,
        decreases len - i,
    {
        if s.get_char(i) == c {
            let before = s.substring_char(0, i);
            let after = s.substring_char(i + 1, len);
            assert(s@ =~= before@ + seq![c] + after@);
            return Some((before.to_owned(), after.to_owned()));
        }
        i = i + 1;
    }
    None
}

/// Two texts in a row.
pub fn concat(a: &str, b: &str) -> (r: String)
    ensures
        r@ == a@ + b@,
{
    let mut r = a.to_owned();
    r.append(b);
    r
}

/// Three texts in a row.
pub fn concat3(a: &str, b: &str, c: &str) -> (r: String)
    ensures
        r@ == a@ + b@ + c@,
{
    let mut r = a.to_owned();
    r.append(b);
    r.append(c);
    r
}

proof fn lemma_decimal_is_digits(n: nat)
    ensures
        is_digits(decimal(n)),
        decimal(n)[0] != '+',
        n > 0 ==> decimal(n)[0] != '0',
    decreases n,
{
    if n >= 10 {
        lemma_decimal_is_digits(n / 10);
        let s = decimal(n);
        assert(s[0] == decimal(n / 10)[0]);
        assert forall|i: int| 0 <= i < s.len() implies is_digit(#[trigger] s[i]) by {
            if i < s.len() - 1 {
                assert(s[i] == decimal(n / 10)[i]);
            }
        }
    }
}

/// A number that is written in decimal is read back, also if a `+` or zeros stand before it; one
/// that does not fit is not.
pub proof fn law_numbers_are_read_back(n: nat, k: nat)
    ensures
        n <= u64::MAX ==> u64_of_text(decimal(n)) == Some(n as u64),
        n <= u64::MAX ==> u64_of_text(seq!['+'] + decimal(n)) == Some(n as u64),
        n <= u64::MAX ==> u64_of_text(zeros(k) + decimal(n)) == Some(n as u64),
        n > u64::MAX ==> u64_of_text(decimal(n)) is None,
        n > 0 ==> decimal(n)[0] != '0',
{
    lemma_decimal_is_digits(n);
    lemma_decimal_value(n);
    lemma_leading_zeros(k, decimal(n));
    let signed = seq!['+'] + decimal(n);
    assert(signed.skip(1) =~= decimal(n));
    let filled = zeros(k) + decimal(n);
    assert forall|i: int| 0 <= i < filled.len() implies is_digit(#[trigger] filled[i]) by {
        if i >= k {
            assert(filled[i] == decimal(n)[i - k]);
        }
    }
    assert(filled[0] != '+') by {
        if k == 0 {
            assert(filled[0] == decimal(n)[0]);
        }
    }
}

/// A text in which anything but a digit stands is no number, unless it is a `+` at its start; nor
/// is one without digits.
pub proof fn law_what_is_no_number(s: Seq<char>, i: int)
    requires
        0 <= i < s.len(),
    ensures
        !(48 <= s[i] as int <= 57) && (i > 0 || s[i] != '+') ==> u64_of_text(s) is None,
        s.len() == 1 && s[0] == '+' ==> u64_of_text(s) is None,
        u64_of_text(Seq::<char>::empty()) is None,
{
    let digits = unsigned_digits(s);
    if !(48 <= s[i] as int <= 57) && (i > 0 || s[i] != '+') && is_digits(digits) {
        if s[0] == '+' {
            assert(digits[i - 1] == s[i]);
        } else {
            assert(digits[i] == s[i]);
        }
    }
}

/// A number that is filled with zeros has at least as many digits as were asked for, is not cut,
/// and stands for the same.
pub proof fn law_what_is_padded(n: nat, width: nat)
    ensures
        padded(n, width).len() >= width,
        padded(n, width).len() >= decimal(n).len(),
        padded(n, width).len() == width || padded(n, width) == decimal(n),
        n <= u64::MAX ==> u64_of_text(padded(n, width)) == Some(n as u64),
{
    law_numbers_are_read_back(n, (width - decimal(n).len()) as nat);
}

/// A text that is aligned keeps all of itself at the end, and has nothing but spaces before that:
/// as many as it lacks.
pub proof fn law_what_is_aligned(s: Seq<char>, width: nat, i: int)
    ensures
        aligned(s, width).len() >= width,
        aligned(s, width).len() == width || aligned(s, width) == s,
        aligned(s, width).len() >= s.len(),
        aligned(s, width).skip(aligned(s, width).len() - s.len()) == s,
        0 <= i < aligned(s, width).len() - s.len() ==> aligned(s, width)[i] == ' ',
{
    let t = aligned(s, width);
    assert(t.skip(t.len() - s.len()) =~= s);
}

proof fn lemma_split_adds(s: Seq<char>, c: char, t: Seq<char>)
    ensures
        split_on(s + seq![c] + t, c) == split_on(s, c) + split_on(t, c),
    decreases t.len(),
{
    let all = s + seq![c] + t;
    lemma_split_is_not_empty(s, c);
    lemma_split_is_not_empty(t, c);
    if t.len() == 0 {
        assert(all.drop_last() =~= s);
        assert(split_on(all, c) =~= split_on(s, c) + split_on(t, c));
    } else {
        let front = t.drop_last();
        lemma_split_adds(s, c, front);
        lemma_split_is_not_empty(front, c);
        assert(all.drop_last() =~= s + seq![c] + front);
        assert(all.last() == t.last());
        assert(split_on(all, c) =~= split_on(s, c) + split_on(t, c));
    }
}

proof fn lemma_unsplit(s: Seq<char>, c: char)
    requires
        !s.contains(c),
    ensures
        split_on(s, c) == seq![s],
    decreases s.len(),
{
    if s.len() > 0 {
        let front = s.drop_last();
        assert(s[s.len() - 1] == s.last());
        assert(!front.contains(c)) by {
            if front.contains(c) {
                let i = choose|i: int| 0 <= i < front.len() && front[i] == c;
                assert(s[i] == c);
            }
        }
        lemma_unsplit(front, c);
        assert(front.push(s.last()) =~= s);
        assert(split_on(s, c) =~= seq![s]);
    } else {
        assert(s =~= Seq::<char>::empty());
    }
}

/// A text is cut where the separator stands and nowhere else: what has none in it is one part, and
/// of two texts with one between them the parts are those of the one and then those of the other.
pub proof fn law_where_a_text_is_cut(s: Seq<char>, c: char, t: Seq<char>)
    ensures
        !s.contains(c) ==> split_on(s, c) == seq![s],
        split_on(s + seq![c] + t, c) == split_on(s, c) + split_on(t, c),
{
    lemma_split_adds(s, c, t);
    if !s.contains(c) {
        lemma_unsplit(s, c);
    }
}

/// A line ends with a newline, or with a carriage return and a newline, which are no part of it.
/// What stands after the last newline is a line if it is not empty, and there a carriage return
/// stays.
pub proof fn law_what_a_line_is(line: Seq<char>, rest: Seq<char>)
    requires
        !line.contains('\n'),
    ensures
        line.len() == 0 ==> lines_of(line).len() == 0,
        line.len() > 0 ==> lines_of(line) == seq![line],
        line.len() == 0 || line.last() != '\r' ==> lines_of(line + seq!['\n'] + rest) == seq![line]
            + lines_of(rest),
        line.len() > 0 && line.last() == '\r' ==> lines_of(line + seq!['\n'] + rest)
            == seq![line.drop_last()] + lines_of(rest),
{
    law_where_a_text_is_cut(line, '\n', rest);
    lemma_split_is_not_empty(rest, '\n');
    let all = line + seq!['\n'] + rest;
    let parts = split_on(rest, '\n');
    assert(split_on(all, '\n') =~= seq![line] + parts);
    assert(split_on(all, '\n').drop_last() =~= seq![line] + parts.drop_last());
    assert(split_on(all, '\n').last() == parts.last());
    let want = seq![without_cr(line)] + lines_of(rest);
    assert(lines_of(all) =~= want);
    assert(seq![line].drop_last() =~= Seq::<Seq<char>>::empty());
    if line.len() > 0 {
        assert(lines_of(line) =~= seq![line]);
    } else {
        assert(lines_of(line) =~= Seq::<Seq<char>>::empty());
    }
}

proof fn lemma_trimmed_start(s: Seq<char>)
    ensures
        trimmed_start(s).len() <= s.len(),
        s.skip(s.len() - trimmed_start(s).len()) == trimmed_start(s),
        forall|i: int| 0 <= i < s.len() - trimmed_start(s).len() ==> is_white_space(#[trigger] s[i]),
        trimmed_start(s).len() > 0 ==> !is_white_space(trimmed_start(s)[0]),
    decreases s.len(),
{
    if s.len() > 0 && is_white_space(s[0]) {
        let t = s.skip(1);
        lemma_trimmed_start(t);
        let n = trimmed_start(t).len();
        assert(s.skip(s.len() - n) =~= t.skip(t.len() - n));
        assert forall|i: int| 0 <= i < s.len() - n implies is_white_space(#[trigger] s[i]) by {
            if i > 0 {
                assert(t[i - 1] == s[i]);
            }
        }
    } else {
        assert(s.skip(0) =~= s);
    }
}

proof fn lemma_trimmed_end(s: Seq<char>)
    ensures
        trimmed_end(s).len() <= s.len(),
        s.take(trimmed_end(s).len() as int) == trimmed_end(s),
        forall|i: int| trimmed_end(s).len() <= i < s.len() ==> is_white_space(#[trigger] s[i]),
        trimmed_end(s).len() > 0 ==> !is_white_space(trimmed_end(s).last()),
    decreases s.len(),
{
    if s.len() > 0 && is_white_space(s.last()) {
        let t = s.drop_last();
        lemma_trimmed_end(t);
        let n = trimmed_end(t).len() as int;
        assert(s.take(n) =~= t.take(n));
        assert forall|i: int| n <= i < s.len() implies is_white_space(#[trigger] s[i]) by {
            if i < t.len() {
                assert(t[i] == s[i]);
            }
        }
    } else {
        assert(s.take(s.len() as int) =~= s);
    }
}

/// What is trimmed is a stretch of the text with nothing but white space around it, and no white
/// space at its ends.
pub proof fn law_what_is_trimmed(s: Seq<char>)
    ensures
        exists|at: int|
            {
                &&& 0 <= at
                &&& at + trimmed(s).len() <= s.len()
                &&& #[trigger] s.subrange(at, at + trimmed(s).len()) == trimmed(s)
                &&& forall|i: int|
                    0 <= i < s.len() && !(at <= i < at + trimmed(s).len()) ==> is_white_space(
                        #[trigger] s[i],
                    )
            },
        trimmed(s).len() > 0 ==> !is_white_space(trimmed(s)[0]) && !is_white_space(
            trimmed(s).last(),
        ),
{
    let t = trimmed_start(s);
    lemma_trimmed_start(s);
    lemma_trimmed_end(t);
    let at = s.len() - t.len();
    let n = trimmed(s).len() as int;
    assert(s.subrange(at, at + n) =~= t.take(n));
    assert forall|i: int| 0 <= i < s.len() && !(at <= i < at + n) implies is_white_space(
        #[trigger] s[i],
    ) by {
        if i >= at {
            assert(t[i - at] == s[i]);
        }
    }
    if n > 0 {
        assert(trimmed(s)[0] == t[0]);
    }
}

proof fn lemma_decimal_len(n: nat, limit: nat, digits: nat)
    requires
        digits > 0,
        n < limit,
        limit == vstd::arithmetic::power::pow(10, digits),
    ensures
        decimal(n).len() <= digits,
    decreases digits,
{
    vstd::arithmetic::power::lemma_pow0(10);
    if n >= 10 {
        assert(digits > 1) by {
            if digits == 1 {
                vstd::arithmetic::power::lemma_pow1(10);
            }
        }
        vstd::arithmetic::power::lemma_pow_adds(10, (digits - 1) as nat, 1);
        vstd::arithmetic::power::lemma_pow1(10);
        vstd::arithmetic::power::lemma_pow_positive(10, (digits - 1) as nat);
        let less = vstd::arithmetic::power::pow(10, (digits - 1) as nat) as nat;
        assert(limit == less * 10);
        lemma_decimal_len(n / 10, less, (digits - 1) as nat);
    }
}

/// A number of 64 bits has no more than twenty digits.
pub proof fn law_digits_of_64_bits(n: u64)
    ensures
        decimal(n as nat).len() <= 20,
{
    assert(vstd::arithmetic::power::pow(10, 20) == 100_000_000_000_000_000_000) by {
        reveal(vstd::arithmetic::power::pow);
        reveal_with_fuel(vstd::arithmetic::power::pow, 21);
    }
    lemma_decimal_len(n as nat, 100_000_000_000_000_000_000, 20);
}

} // verus!
