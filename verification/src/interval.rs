//! How much time passes between two checks.

use vstd::prelude::*;

use crate::error::{Failure, UpdateError};
use crate::state::UpdateCheckState;
use crate::text::{blank, characters, decimal, is_text, trimmed_front};

verus! {

/// A span of time: whole seconds, and the nanoseconds beyond them.
#[derive(Debug, Clone, Copy, PartialEq, Eq, Structural)]
pub struct Interval {
    pub secs: u64,
    pub nanos: u32,
}

impl Interval {
    /// The nanoseconds make up less than a second.
    pub open spec fn valid(self) -> bool {
        self.nanos < 1_000_000_000
    }

    /// An interval of whole seconds.
    pub fn from_secs(secs: u64) -> (interval: Interval)
        ensures
            interval == (Interval { secs, nanos: 0 }),
            interval.valid(),
    {
        Interval { secs, nanos: 0 }
    }

    /// The whole seconds of this interval.
    pub fn as_secs(&self) -> (secs: u64)
        ensures
            secs == self.secs,
    {
        self.secs
    }
}

/// The default interval in seconds: 24 hours.
pub const DEFAULT_INTERVAL_SECS: u64 = 86400;

/// Returns the default interval between background update checks (24 hours).
pub fn default_interval() -> (interval: Interval)
    ensures
        interval == (Interval { secs: DEFAULT_INTERVAL_SECS, nanos: 0 }),
        interval.secs == 24 * 60 * 60,
{
    Interval::from_secs(DEFAULT_INTERVAL_SECS)
}

/// A character that a time unit is written with.
pub open spec fn unit_char(c: char) -> bool {
    'a' <= c <= 'z' || 'A' <= c <= 'Z' || c == '\u{b5}'
}

/// The nanoseconds in a unit of time that is written with one letter.
pub open spec fn letter_nanos(letter: char) -> Option<nat> {
    if letter == 's' {
        Some(1_000_000_000)
    } else if letter == 'm' {
        Some(60_000_000_000)
    } else if letter == 'h' {
        Some(3_600_000_000_000)
    } else if letter == 'd' {
        Some(86_400_000_000_000)
    } else if letter == 'w' {
        Some(604_800_000_000_000)
    } else if letter == 'M' {
        Some(2_630_016_000_000_000)
    } else if letter == 'y' {
        Some(31_557_600_000_000_000)
    } else {
        None
    }
}

/// The nanoseconds in a unit of time.
pub open spec fn unit_nanos(unit: Seq<char>) -> Option<nat> {
    if unit.len() == 1 {
        letter_nanos(unit[0])
    } else if unit == "ns"@ || unit == "nsec"@ || unit == "nanos"@ {
        Some(1)
    } else if unit == "us"@ || unit == "usec"@ || unit == seq!['\u{b5}', 's'] {
        Some(1_000)
    } else if unit == "ms"@ || unit == "msec"@ || unit == "millis"@ {
        Some(1_000_000)
    } else if unit == "sec"@ || unit == "secs"@ || unit == "second"@ || unit == "seconds"@ {
        letter_nanos('s')
    } else if unit == "min"@ || unit == "mins"@ || unit == "minute"@ || unit == "minutes"@ {
        letter_nanos('m')
    } else if unit == "hr"@ || unit == "hrs"@ || unit == "hour"@ || unit == "hours"@ {
        letter_nanos('h')
    } else if unit == "day"@ || unit == "days"@ {
        letter_nanos('d')
    } else if unit == "wk"@ || unit == "wks"@ || unit == "week"@ || unit == "weeks"@ {
        letter_nanos('w')
    } else if unit == "month"@ || unit == "months"@ {
        letter_nanos('M')
    } else if unit == "yr"@ || unit == "yrs"@ || unit == "year"@ || unit == "years"@ {
        letter_nanos('y')
    } else {
        None
    }
}

/// Where the stretch of characters of a unit that begins at `at` in `text` ends.
pub open spec fn unit_end(text: Seq<char>, at: int) -> int
    decreases text.len() - at,
{
    if 0 <= at < text.len() && unit_char(text[at]) {
        unit_end(text, at + 1)
    } else {
        at
    }
}

/// The nanoseconds in the unit that begins at `at` in `text`; a unit that is not known has none.
pub open spec fn unit_nanos_at(text: Seq<char>, at: int) -> nat {
    match unit_nanos(text.subrange(at, unit_end(text, at))) {
        Some(nanos) => nanos,
        None => 0,
    }
}

/// What the parts at the front of a text add up to.
pub struct Sum {
    /// The nanoseconds, without those of fractions.
    pub least: nat,
    /// The nanoseconds, with each fraction counted as one more of its unit.
    pub most: nat,
    /// A fraction or a unit below a second is among the parts.
    pub fine: bool,
    /// The number that has no unit yet, without its fraction.
    pub open: nat,
    /// That number has a fraction.
    pub point: bool,
}

/// What the parts in the first `upto` characters of `text` add up to. A part counts from the first
/// character of its unit on.
pub open spec fn sum_upto(text: Seq<char>, upto: int) -> Sum
    decreases upto,
{
    if upto <= 0 {
        Sum { least: 0, most: 0, fine: false, open: 0, point: false }
    } else {
        let sum = sum_upto(text, upto - 1);
        let c = text[upto - 1];
        if '0' <= c <= '9' {
            if sum.point {
                sum
            } else {
                Sum { open: sum.open * 10 + (c as nat - '0' as nat) as nat, ..sum }
            }
        } else if c == '.' {
            Sum { point: true, ..sum }
        } else if unit_char(c) && !(upto >= 2 && unit_char(text[upto - 2])) {
            let unit = unit_nanos_at(text, upto - 1);
            let count = if sum.point {
                sum.open + 1
            } else {
                sum.open
            };
            Sum {
                least: sum.least + sum.open * unit,
                most: sum.most + count * unit,
                fine: sum.fine || sum.point || 0 < unit < 1_000_000_000,
                open: 0,
                point: false,
            }
        } else {
            sum
        }
    }
}

/// The nanoseconds in 2^64 seconds, one second more than a `u64` holds.
pub const OVERFLOW_NANOS: u128 = 18_446_744_073_709_551_616_000_000_000;

/// A sum may come to exactly 2^64 seconds by way of fractions or units below a second.
pub open spec fn may_overflow(sum: Sum) -> bool {
    sum.fine && sum.least <= OVERFLOW_NANOS <= sum.most
}

/// `text` can be read as an interval, or refused: at no point do its parts add up to exactly 2^64
/// seconds by way of fractions or units below a second.
pub open spec fn in_range(text: Seq<char>) -> bool {
    forall|upto: int| 0 <= upto <= text.len() ==> !may_overflow(#[trigger] sum_upto(text, upto))
}

/// One part of an interval: the white space before it, a number, and a unit.
pub type Term = (Seq<char>, nat, Seq<char>);

/// A part as it is written.
pub open spec fn term_text(term: Term) -> Seq<char> {
    term.0 + (decimal(term.1) + term.2)
}

/// The nanoseconds that a part stands for.
pub open spec fn term_nanos(term: Term) -> nat {
    term.1 * unit_nanos(term.2)->0
}

/// A part can be read: only white space stands before it, its unit is known, and with a unit below
/// a second it stays below 2^64 nanoseconds by a second.
pub open spec fn term_readable(term: Term) -> bool {
    &&& blank(term.0)
    &&& unit_nanos(term.2) is Some
    &&& unit_nanos(term.2)->0 < 1_000_000_000 ==> term_nanos(term) + 999_999_999 <= u64::MAX
}

/// Parts as they are written, one behind the other.
pub open spec fn terms_text(terms: Seq<Term>) -> Seq<char>
    decreases terms.len(),
{
    if terms.len() == 0 {
        Seq::empty()
    } else {
        terms_text(terms.drop_last()) + term_text(terms.last())
    }
}

/// The nanoseconds that parts add up to.
pub open spec fn terms_nanos(terms: Seq<Term>) -> nat
    decreases terms.len(),
{
    if terms.len() == 0 {
        0
    } else {
        terms_nanos(terms.drop_last()) + term_nanos(terms.last())
    }
}

/// Some parts, each of which can be read.
pub open spec fn terms_readable(terms: Seq<Term>) -> bool {
    terms.len() > 0 && forall|i: int| 0 <= i < terms.len() ==> term_readable(#[trigger] terms[i])
}

/// `read` is the span of so many nanoseconds, or an error where a `u64` does not hold its seconds.
pub open spec fn is_span(read: Result<(u64, u32), Seq<char>>, nanos: nat) -> bool {
    if nanos / 1_000_000_000 <= u64::MAX {
        read == Ok::<(u64, u32), Seq<char>>(
            ((nanos / 1_000_000_000) as u64, (nanos % 1_000_000_000) as u32),
        )
    } else {
        read is Err
    }
}

/// The error for a number that has no unit.
pub open spec fn unit_needed(n: nat) -> Seq<char> {
    "time unit needed, for example "@ + decimal(n) + "sec or "@ + decimal(n) + "ms"@
}

/// What `text` is read as, in so far as it is a sum of parts, or has no number, no unit, or a unit
/// that is not known.
pub open spec fn read_as(text: Seq<char>, read: Result<(u64, u32), Seq<char>>) -> bool {
    &&& text == "0"@ ==> read == Ok::<(u64, u32), Seq<char>>((0, 0))
    &&& blank(text) ==> read == Err::<(u64, u32), Seq<char>>("value was empty"@)
    &&& !blank(text) && !('0' <= trimmed_front(text)[0] <= '9') ==> read == Err::<
        (u64, u32),
        Seq<char>,
    >("expected number at 0"@)
    &&& forall|n: nat|
        text == #[trigger] decimal(n) && 0 < n <= u64::MAX ==> read == Err::<
            (u64, u32),
            Seq<char>,
        >(unit_needed(n))
    &&& forall|n: nat, unit: Seq<char>|
        text == #[trigger] (decimal(n) + unit) && unit.len() > 0 && all_unit_chars(unit)
            && unit_nanos(unit) is None ==> read is Err
    &&& forall|terms: Seq<Term>|
        text == #[trigger] terms_text(terms) && terms_readable(terms) ==> is_span(
            read,
            terms_nanos(terms),
        )
}

/// Every character of `text` is one that a time unit is written with.
pub open spec fn all_unit_chars(text: Seq<char>) -> bool {
    forall|i: int| 0 <= i < text.len() ==> unit_char(#[trigger] text[i])
}

/// What `humantime::parse_duration` makes of a text: seconds and nanoseconds, or the text of the
/// error.
pub uninterp spec fn humantime_parse(text: Seq<char>) -> Result<(u64, u32), Seq<char>>;

/// An interval as a pair of numbers, or why it could not be read.
pub open spec fn span_view(result: Result<Interval, String>) -> Result<(u64, u32), Seq<char>> {
    match result {
        Ok(interval) => Ok((interval.secs, interval.nanos)),
        Err(reason) => Err(reason@),
    }
}

/// `humantime::parse_duration`: the result depends on the text alone, the nanoseconds stay below a
/// second, and numbers with units add up; a month is 2630016 seconds and a year 31557600 seconds. A
/// text without a number, a number without a unit and a number with an unknown unit are errors.
///
/// It panics where the parts read so far come to 2^64 - 1 seconds and exactly one second of
/// fractions and smaller units. For a text in range they never do. What it makes of fractions, of
/// numbers with white space or leading zeros in them and of other characters is left to the name.
#[verifier::external_body]
fn humantime_span(text: &str) -> (result: Result<Interval, String>)
    requires
        in_range(text@),
    ensures
        span_view(result) == humantime_parse(text@),
        result matches Ok(interval) ==> interval.valid(),
        read_as(text@, span_view(result)),
{
    match humantime::parse_duration(text) {
        Ok(span) => Ok(Interval { secs: span.as_secs(), nanos: span.subsec_nanos() }),
        Err(e) => Err(e.to_string()),
    }
}

/// The interval that was read, its failure as a model.
pub open spec fn interval_view(result: Result<Interval, UpdateError>) -> Result<
    Interval,
    Failure<Seq<char>>,
> {
    match result {
        Ok(interval) => Ok(interval),
        Err(failure) => Err(failure@),
    }
}

/// The interval that a text was read as, or the failure for a text that is none.
pub open spec fn interval_of(read: Result<(u64, u32), Seq<char>>) -> Result<
    Interval,
    Failure<Seq<char>>,
> {
    match read {
        Ok((secs, nanos)) => Ok(Interval { secs, nanos }),
        Err(reason) => Err(Failure::InvalidInterval { reason }),
    }
}

/// Turns what became of reading an interval into the result of this library.
pub fn interval_result(read: Result<Interval, String>) -> (result: Result<Interval, UpdateError>)
    ensures
        interval_view(result) == interval_of(span_view(read)),
{
    match read {
        Ok(interval) => Ok(interval),
        Err(reason) => Err(Failure::InvalidInterval { reason }),
    }
}

/// A number with a unit is a sum of one part.
proof fn lemma_one_term(n: nat, unit: Seq<char>)
    requires
        term_readable((Seq::empty(), n, unit)),
    ensures
        ({
            let terms = seq![(Seq::<char>::empty(), n, unit)];
            &&& terms_readable(terms)
            &&& terms_text(terms) == decimal(n) + unit
            &&& terms_nanos(terms) == n * unit_nanos(unit)->0
        }),
{
    let term: Term = (Seq::empty(), n, unit);
    let terms: Seq<Term> = seq![term];
    assert(terms.drop_last() == Seq::<Term>::empty());
    assert(terms_text(terms.drop_last()) == Seq::<char>::empty());
    assert(terms_nanos(terms.drop_last()) == 0);
    assert(terms_text(terms) == decimal(n) + unit);
}

/// Parses a duration string (e.g., "24h", "1d", "30m") into an `Interval`.
pub fn parse_interval(s: &str) -> (result: Result<Interval, UpdateError>)
    requires
        in_range(s@),
    ensures
        interval_view(result) == interval_of(humantime_parse(s@)),
        result matches Ok(interval) ==> interval.valid(),
        read_as(s@, humantime_parse(s@)),
        forall|n: nat, unit: Seq<char>|
            s@ == #[trigger] (decimal(n) + unit) && term_readable((Seq::empty(), n, unit))
                ==> is_span(humantime_parse(s@), n * unit_nanos(unit)->0),
{
    let read = humantime_span(s);
    proof {
        assert forall|n: nat, unit: Seq<char>|
            s@ == #[trigger] (decimal(n) + unit) && term_readable(
                (Seq::empty(), n, unit),
            ) implies is_span(humantime_parse(s@), n * unit_nanos(unit)->0) by {
            lemma_one_term(n, unit);
            let terms = seq![(Seq::<char>::empty(), n, unit)];
            assert(s@ == terms_text(terms));
        }
    }
    interval_result(read)
}

proof fn lemma_sums_grow(text: Seq<char>, from: int, upto: int)
    requires
        0 <= from <= upto,
    ensures
        sum_upto(text, from).least <= sum_upto(text, upto).least,
    decreases upto,
{
    if from < upto {
        lemma_sums_grow(text, from, upto - 1);
        let open = sum_upto(text, upto - 1).open;
        let unit = unit_nanos_at(text, upto - 1);
        assert(open * unit >= 0) by (nonlinear_arith);
    }
}

proof fn lemma_plain_units(text: Seq<char>, upto: int)
    requires
        0 <= upto <= text.len(),
        forall|i: int| 0 <= i < text.len() ==> #[trigger] text[i] != '.',
        forall|i: int, j: int|
            0 <= i && j == i + 1 && j < text.len() ==> !(unit_char(#[trigger] text[i])
                && unit_char(#[trigger] text[j])),
    ensures
        !sum_upto(text, upto).fine,
        !sum_upto(text, upto).point,
    decreases upto,
{
    if upto > 0 {
        lemma_plain_units(text, upto - 1);
        let at = upto - 1;
        if unit_char(text[at]) {
            assert(at + 1 < text.len() ==> !unit_char(text[at + 1]));
            assert(unit_end(text, at + 1) == at + 1);
            assert(text.subrange(at, unit_end(text, at)).len() == 1);
        }
    }
}

/// A text without a decimal point whose units are written with one letter each, such as `24h`, is in
/// range, however large its numbers are.
pub proof fn law_plain_units_are_in_range(text: Seq<char>)
    requires
        forall|i: int| 0 <= i < text.len() ==> #[trigger] text[i] != '.',
        forall|i: int, j: int|
            0 <= i && j == i + 1 && j < text.len() ==> !(unit_char(#[trigger] text[i])
                && unit_char(#[trigger] text[j])),
    ensures
        in_range(text),
{
    assert forall|upto: int| 0 <= upto <= text.len() implies !may_overflow(
        #[trigger] sum_upto(text, upto),
    ) by {
        lemma_plain_units(text, upto);
    }
}

/// Whether a time unit is written with `c`.
fn is_unit_char(c: char) -> (yes: bool)
    ensures
        yes == unit_char(c),
{
    ('a' <= c && c <= 'z') || ('A' <= c && c <= 'Z') || c == '\u{b5}'
}

/// The nanoseconds in a unit of time that is written with one letter.
fn nanos_in_letter(letter: char) -> (nanos: Option<u64>)
    ensures
        nanos is Some <==> letter_nanos(letter) is Some,
        nanos matches Some(nanos) ==> nanos == letter_nanos(letter)->0,
{
    if letter == 's' {
        Some(1_000_000_000)
    } else if letter == 'm' {
        Some(60_000_000_000)
    } else if letter == 'h' {
        Some(3_600_000_000_000)
    } else if letter == 'd' {
        Some(86_400_000_000_000)
    } else if letter == 'w' {
        Some(604_800_000_000_000)
    } else if letter == 'M' {
        Some(2_630_016_000_000_000)
    } else if letter == 'y' {
        Some(31_557_600_000_000_000)
    } else {
        None
    }
}

/// The nanoseconds in a unit of time.
fn nanos_in_unit(unit: &Vec<char>) -> (nanos: Option<u64>)
    ensures
        nanos is Some <==> unit_nanos(unit@) is Some,
        nanos matches Some(nanos) ==> nanos == unit_nanos(unit@)->0,
{
    proof {
        if unit@.len() == 2 && unit@[0] == '\u{b5}' && unit@[1] == 's' {
            assert(unit@ =~= seq!['\u{b5}', 's']);
        }
    }
    if unit.len() == 1 {
        nanos_in_letter(unit[0])
    } else if is_text(unit, "ns") || is_text(unit, "nsec") || is_text(unit, "nanos") {
        Some(1)
    } else if is_text(unit, "us") || is_text(unit, "usec") || (unit.len() == 2 && unit[0]
        == '\u{b5}' && unit[1] == 's') {
        Some(1_000)
    } else if is_text(unit, "ms") || is_text(unit, "msec") || is_text(unit, "millis") {
        Some(1_000_000)
    } else if is_text(unit, "sec") || is_text(unit, "secs") || is_text(unit, "second")
        || is_text(unit, "seconds") {
        nanos_in_letter('s')
    } else if is_text(unit, "min") || is_text(unit, "mins") || is_text(unit, "minute")
        || is_text(unit, "minutes") {
        nanos_in_letter('m')
    } else if is_text(unit, "hr") || is_text(unit, "hrs") || is_text(unit, "hour")
        || is_text(unit, "hours") {
        nanos_in_letter('h')
    } else if is_text(unit, "day") || is_text(unit, "days") {
        nanos_in_letter('d')
    } else if is_text(unit, "wk") || is_text(unit, "wks") || is_text(unit, "week")
        || is_text(unit, "weeks") {
        nanos_in_letter('w')
    } else if is_text(unit, "month") || is_text(unit, "months") {
        nanos_in_letter('M')
    } else if is_text(unit, "yr") || is_text(unit, "yrs") || is_text(unit, "year")
        || is_text(unit, "years") {
        nanos_in_letter('y')
    } else {
        None
    }
}

/// The nanoseconds in the unit that begins at `at`.
fn nanos_in_unit_at(text: &Vec<char>, at: usize) -> (nanos: u64)
    requires
        at < text.len(),
    ensures
        nanos == unit_nanos_at(text@, at as int),
{
    let mut unit: Vec<char> = Vec::new();
    let mut end: usize = at;
    while end < text.len() && is_unit_char(text[end])
        invariant
            at <= end <= text.len(),
            unit@ == text@.subrange(at as int, end as int),
            unit_end(text@, at as int) == unit_end(text@, end as int),
        decreases text.len() - end,
    {
        unit.push(text[end]);
        end = end + 1;
    }
    match nanos_in_unit(&unit) {
        Some(nanos) => nanos,
        None => 0,
    }
}

/// Whether so many units more than `sum` exceed `limit`.
fn exceeds(sum: u128, count: u128, unit: u64, limit: u128) -> (more: bool)
    requires
        sum <= limit,
    ensures
        more == (sum + count * unit > limit),
        !more ==> count * unit <= limit - sum,
{
    if unit == 0 {
        assert(count * unit == 0) by (nonlinear_arith)
            requires
                unit == 0,
        ;
        return false;
    }
    let room: u128 = limit - sum;
    let fits: u128 = room / (unit as u128);
    assert(count > fits <==> count * unit > room) by (nonlinear_arith)
        requires
            unit > 0,
            fits == room / (unit as u128),
    ;
    count > fits
}

/// Whether `parse_interval` can take `text`.
pub fn is_interval_in_range(text: &str) -> (fits: bool)
    ensures
        fits == in_range(text@),
{
    let chars = characters(text);
    let limit: u128 = OVERFLOW_NANOS;
    let mut least: u128 = 0;
    let mut most: u128 = 0;
    let mut fine = false;
    let mut open: u128 = 0;
    let mut point = false;
    let mut i: usize = 0;
    while i < chars.len()
        invariant
            i <= chars.len(),
            chars@ == text@,
            limit == OVERFLOW_NANOS,
            ({
                let sum = sum_upto(text@, i as int);
                &&& sum.least == least <= limit
                &&& sum.most == most <= limit
                &&& sum.fine == fine && sum.point == point
                &&& !fine ==> least == most
                &&& sum.open == open <= limit || (open == limit + 1 && sum.open > limit)
            }),
            forall|upto: int|
                0 <= upto <= i ==> !may_overflow(#[trigger] sum_upto(text@, upto)),
        decreases chars.len() - i,
    {
        let c = chars[i];
        let ghost before = sum_upto(text@, i as int);
        let ghost after = sum_upto(text@, i + 1);
        if '0' <= c && c <= '9' {
            if !point && open <= limit {
                let next: u128 = open * 10 + (c as u128 - '0' as u128);
                open = if next <= limit { next } else { limit + 1 };
            }
        } else if c == '.' {
            point = true;
        } else if is_unit_char(c) && !(i >= 1 && is_unit_char(chars[i - 1])) {
            let unit: u64 = nanos_in_unit_at(&chars, i);
            let count: u128 = if point { open + 1 } else { open };
            proof {
                lemma_capped(before.open, open, unit, limit);
            }
            if exceeds(least, open, unit, limit) {
                assert(after.least > limit);
                assert forall|upto: int| 0 <= upto <= text@.len() implies !may_overflow(
                    #[trigger] sum_upto(text@, upto),
                ) by {
                    if upto > i {
                        lemma_sums_grow(text@, i + 1, upto);
                    }
                }
                return true;
            }
            least = least + open * (unit as u128);
            fine = fine || point || (0 < unit && unit < 1_000_000_000);
            if exceeds(most, count, unit, limit) {
                assert(may_overflow(after));
                return false;
            }
            most = most + count * (unit as u128);
            if fine && most == limit {
                assert(may_overflow(after));
                return false;
            }
            open = 0;
            point = false;
        }
        assert(!may_overflow(after));
        i = i + 1;
    }
    true
}

/// A number that is counted as one more than the limit only where it is larger exceeds the limit
/// with any unit, as that number does, or has no unit.
proof fn lemma_capped(number: nat, capped: u128, unit: u64, limit: u128)
    requires
        number == capped <= limit || (capped == limit + 1 && number > limit),
    ensures
        number == capped || unit == 0 || (number * unit > limit && capped * unit > limit),
        unit == 0 ==> number * unit == 0 && capped * unit == 0 && (number + 1) * unit == 0 && (capped
            + 1) * unit == 0,
{
    if unit == 0 {
        assert(number * unit == 0 && capped * unit == 0 && (number + 1) * unit == 0 && (capped + 1)
            * unit == 0) by (nonlinear_arith)
            requires
                unit == 0,
        ;
    } else if number != capped {
        assert(number * unit > limit && capped * unit > limit) by (nonlinear_arith)
            requires
                number > limit,
                capped > limit,
                unit >= 1,
        ;
    }
}

/// A check is due: nothing is known of an earlier one, the clock stands before the epoch, or the
/// interval has passed since the last one.
pub open spec fn check_due(last: Option<u64>, interval_secs: u64, now: Option<u64>) -> bool {
    match (last, now) {
        (Some(last), Some(now)) => interval_secs == 0 || now >= last + interval_secs,
        _ => true,
    }
}

/// Determines whether an automatic update check should be performed based on the interval.
///
/// `now_unix` is the time in seconds since the Unix epoch, `None` before it.
pub fn should_auto_check(
    state: Option<&UpdateCheckState>,
    interval: Interval,
    now_unix: Option<u64>,
) -> (due: bool)
    ensures
        due == check_due(
            match state {
                Some(state) => Some(state.last_checked_unix),
                None => None,
            },
            interval.secs,
            now_unix,
        ),
{
    match (state, now_unix) {
        (Some(state), Some(now)) => {
            let elapsed: u64 = now.saturating_sub(state.last_checked_unix);
            elapsed >= interval.as_secs()
        },
        _ => true,
    }
}

/// Throttling: after a check at `at` no other is due until the interval is over, and from then on
/// one is.
pub proof fn law_a_check_holds_for_the_interval(at: u64, interval_secs: u64, now: u64)
    requires
        interval_secs > 0,
    ensures
        check_due(Some(at), interval_secs, Some(now)) <==> now >= at + interval_secs,
{
}

/// A check that is due stays due as time goes on.
pub proof fn law_a_due_check_stays_due(last: Option<u64>, interval_secs: u64, now: u64, later: u64)
    requires
        check_due(last, interval_secs, Some(now)),
        now <= later,
    ensures
        check_due(last, interval_secs, Some(later)),
{
}

/// A longer interval never asks for a check that a shorter one does not ask for.
pub proof fn law_longer_intervals_check_less(
    last: Option<u64>,
    shorter: u64,
    longer: u64,
    now: Option<u64>,
)
    requires
        shorter <= longer,
        check_due(last, longer, now),
    ensures
        check_due(last, shorter, now),
{
}

/// Where no state is stored a check is due, for every interval and at every time.
pub proof fn law_the_first_check_is_due(interval_secs: u64, now: Option<u64>)
    ensures
        check_due(None, interval_secs, now),
{
}

/// While the clock stands before the epoch a check is due, whatever is stored.
pub proof fn law_before_the_epoch_a_check_is_due(last: Option<u64>, interval_secs: u64)
    ensures
        check_due(last, interval_secs, None),
{
}

/// A check is due exactly when as many seconds have passed since the last one as the interval has;
/// where the clock went back, none have.
pub proof fn law_a_check_is_due_after_the_interval(last: u64, interval_secs: u64, now: u64)
    ensures
        now >= last ==> (check_due(Some(last), interval_secs, Some(now)) <==> now - last
            >= interval_secs),
        now < last ==> (check_due(Some(last), interval_secs, Some(now)) <==> interval_secs == 0),
{
}

/// To move both times by as much changes nothing.
pub proof fn law_only_the_time_between_matters(
    last: u64,
    interval_secs: u64,
    now: u64,
    by: u64,
)
    requires
        last + by <= u64::MAX,
        now + by <= u64::MAX,
    ensures
        check_due(Some((last + by) as u64), interval_secs, Some((now + by) as u64)) == check_due(
            Some(last),
            interval_secs,
            Some(now),
        ),
{
}

/// What was read as an interval is the interval, second for second and nanosecond for nanosecond,
/// and the reason for what could not be read is told as it is.
pub proof fn law_what_was_read_is_the_interval(read: Result<(u64, u32), Seq<char>>)
    ensures
        interval_of(read) is Ok <==> read is Ok,
        read matches Ok(span) ==> interval_of(read)->Ok_0.secs == span.0 && interval_of(
            read,
        )->Ok_0.nanos == span.1,
        read matches Err(reason) ==> interval_of(read)->Err_0 == (Failure::InvalidInterval {
            reason,
        }),
{
}

/// A number of seconds, minutes, hours, days or weeks is an interval of that many seconds, as long
/// as a `u64` holds them.
pub proof fn law_numbers_with_units_are_intervals(
    text: Seq<char>,
    read: Result<(u64, u32), Seq<char>>,
    n: nat,
    unit: char,
    secs: nat,
)
    requires
        read_as(text, read),
        text == decimal(n) + seq![unit],
        (unit == 's' && secs == n) || (unit == 'm' && secs == n * 60) || (unit == 'h' && secs == n
            * 3600) || (unit == 'd' && secs == n * 86400) || (unit == 'w' && secs == n * 604800),
        secs <= u64::MAX,
    ensures
        interval_of(read) == Ok::<Interval, Failure<Seq<char>>>(
            Interval { secs: secs as u64, nanos: 0 },
        ),
{
    let word = seq![unit];
    lemma_one_term(n, word);
    let terms = seq![(Seq::<char>::empty(), n, word)];
    assert(text == terms_text(terms));
    assert(is_span(read, terms_nanos(terms)));
    assert(terms_nanos(terms) == secs * 1_000_000_000);
}

proof fn lemma_short_sums(text: Seq<char>, upto: int)
    requires
        0 <= upto <= text.len(),
        upto <= 11,
    ensures
        ({
            let sum = sum_upto(text, upto);
            let points: nat = if sum.point {
                1
            } else {
                0
            };
            sum.most + (sum.open + points + 1) * 31_557_600_000_000_000 <= tens(upto)
                * 31_557_600_000_000_000
        }),
    decreases upto,
{
    if upto > 0 {
        lemma_short_sums(text, upto - 1);
        let sum = sum_upto(text, upto - 1);
        let unit = unit_nanos_at(text, upto - 1);
        let count = if sum.point {
            sum.open + 1
        } else {
            sum.open
        };
        assert(count * unit <= count * 31_557_600_000_000_000) by (nonlinear_arith)
            requires
                unit <= 31_557_600_000_000_000,
        ;
    }
}

/// Ten to the power of `n`.
spec fn tens(n: int) -> nat
    decreases n,
{
    if n <= 0 {
        1
    } else {
        10 * tens(n - 1)
    }
}

/// A text of at most eleven characters is in range, whatever it says.
pub proof fn law_short_texts_are_in_range(text: Seq<char>)
    requires
        text.len() <= 11,
    ensures
        in_range(text),
{
    assert forall|upto: int| 0 <= upto <= text.len() implies !may_overflow(
        #[trigger] sum_upto(text, upto),
    ) by {
        lemma_short_sums(text, upto);
        reveal_with_fuel(tens, 12);
    }
}

/// What became of reading an interval is seen as it is.
pub proof fn law_intervals_are_seen_as_they_are(
    read: Result<Interval, String>,
    result: Result<Interval, UpdateError>,
)
    ensures
        read matches Ok(interval) ==> span_view(read) == Ok::<(u64, u32), Seq<char>>(
            (interval.secs, interval.nanos),
        ),
        read matches Err(reason) ==> span_view(read) == Err::<(u64, u32), Seq<char>>(reason@),
        result matches Ok(interval) ==> interval_view(result) == Ok::<
            Interval,
            Failure<Seq<char>>,
        >(interval),
        result matches Err(failure) ==> interval_view(result) == Err::<
            Interval,
            Failure<Seq<char>>,
        >(failure@),
{
}

/// How many of the first `upto` characters are digits.
pub open spec fn digits_upto(text: Seq<char>, upto: int) -> nat
    decreases upto,
{
    if upto <= 0 {
        0
    } else if '0' <= text[upto - 1] <= '9' {
        digits_upto(text, upto - 1) + 1
    } else {
        digits_upto(text, upto - 1)
    }
}

proof fn lemma_tens_grow(a: int, b: int)
    requires
        0 <= a <= b,
    ensures
        1 <= tens(a) <= tens(b),
    decreases b,
{
    if a < b {
        lemma_tens_grow(a, b - 1);
    } else if b > 0 {
        lemma_tens_grow(a - 1, b - 1);
    }
}

proof fn lemma_ordinary_sums(text: Seq<char>, upto: int)
    requires
        0 <= upto <= text.len(),
    ensures
        ({
            let sum = sum_upto(text, upto);
            let bound = tens(digits_upto(text, upto) as int);
            sum.open + 1 <= bound && sum.most <= upto * (bound * 31_557_600_000_000_000)
        }),
    decreases upto,
{
    if upto > 0 {
        lemma_ordinary_sums(text, upto - 1);
        let sum = sum_upto(text, upto - 1);
        let unit = unit_nanos_at(text, upto - 1);
        let before = tens(digits_upto(text, upto - 1) as int);
        let bound = tens(digits_upto(text, upto) as int);
        let count = if sum.point {
            sum.open + 1
        } else {
            sum.open
        };
        lemma_tens_grow(
            digits_upto(text, upto - 1) as int,
            digits_upto(text, upto) as int,
        );
        assert(count * unit <= bound * 31_557_600_000_000_000) by (nonlinear_arith)
            requires
                count <= before,
                before <= bound,
                unit <= 31_557_600_000_000_000,
        ;
        assert((upto - 1) * (before * 31_557_600_000_000_000) <= (upto - 1) * (bound
            * 31_557_600_000_000_000)) by (nonlinear_arith)
            requires
                upto >= 1,
                before <= bound,
        ;
        assert(upto * (bound * 31_557_600_000_000_000) == (upto - 1) * (bound
            * 31_557_600_000_000_000) + bound * 31_557_600_000_000_000) by (nonlinear_arith);
    } else {
        assert(0 * (tens(0) * 31_557_600_000_000_000) == 0);
    }
}

/// A text with at most nine digits among five hundred characters is in range, whatever it says.
pub proof fn law_ordinary_texts_are_in_range(text: Seq<char>)
    requires
        text.len() <= 500,
        digits_upto(text, text.len() as int) <= 9,
    ensures
        in_range(text),
{
    assert forall|upto: int| 0 <= upto <= text.len() implies !may_overflow(
        #[trigger] sum_upto(text, upto),
    ) by {
        lemma_ordinary_sums(text, upto);
        lemma_digits_grow(text, upto, text.len() as int);
        let bound = tens(digits_upto(text, upto) as int);
        lemma_tens_grow(digits_upto(text, upto) as int, 9);
        reveal_with_fuel(tens, 10);
        assert(upto * (bound * 31_557_600_000_000_000) <= 500 * (1_000_000_000
            * 31_557_600_000_000_000)) by (nonlinear_arith)
            requires
                0 <= upto <= 500,
                0 <= bound <= 1_000_000_000,
        ;
    }
}

proof fn lemma_digits_grow(text: Seq<char>, from: int, upto: int)
    requires
        0 <= from <= upto,
    ensures
        digits_upto(text, from) <= digits_upto(text, upto),
    decreases upto,
{
    if from < upto {
        lemma_digits_grow(text, from, upto - 1);
    }
}

} // verus!
