//! Durations in ISO-8601 spelling, such as `P1Y2M3DT4H5M6S`: how six counts
//! are spelled, how a spelling is read, and how long the duration is.

use crate::offset::Failure;
use vstd::prelude::*;

verus! {

/// The letter that opens a spelled duration.
pub const PERIOD: u8 = 0x50;

/// The letter that opens the time of day.
pub const TIME: u8 = 0x54;

/// The letter of the years.
pub const YEARS: u8 = 0x59;

/// The letter of the months before [`TIME`], of the minutes after it.
pub const MONTHS_OR_MINUTES: u8 = 0x4d;

/// The letter of the days.
pub const DAYS: u8 = 0x44;

/// The letter of the hours.
pub const HOURS: u8 = 0x48;

/// The letter of the seconds.
pub const SECONDS: u8 = 0x53;

pub const SECONDS_PER_MINUTE: u64 = 60;

pub const SECONDS_PER_HOUR: u64 = 3_600;

pub const SECONDS_PER_DAY: u64 = 86_400;

/// A month counts as 30 days.
pub const SECONDS_PER_MONTH: u64 = 2_592_000;

/// A year counts as 365 days.
pub const SECONDS_PER_YEAR: u64 = 31_536_000;

/// The six counts of a duration.
pub struct Counts {
    pub years: nat,
    pub months: nat,
    pub days: nat,
    pub hours: nat,
    pub minutes: nat,
    pub seconds: nat,
}

/// The length of a duration in seconds.
pub open spec fn total_seconds(d: Counts) -> nat {
    (d.seconds + SECONDS_PER_MINUTE * d.minutes + SECONDS_PER_HOUR * d.hours + SECONDS_PER_DAY
        * d.days + SECONDS_PER_MONTH * d.months + SECONDS_PER_YEAR * d.years) as nat
}

/// Whether `byte` is one of the digits `0` to `9`.
pub open spec fn is_digit(byte: u8) -> bool {
    0x30 <= byte <= 0x39
}

/// The decimal digits of a count, without leading zeros: none for 0.
pub open spec fn digits(count: nat) -> Seq<u8>
    decreases count,
{
    if count == 0 {
        Seq::empty()
    } else {
        digits(count / 10).push((0x30 + count % 10) as u8)
    }
}

/// A field as it is spelled: the count and the letter of the unit, or
/// nothing at all where the count is 0.
pub open spec fn spelled_field(count: nat, unit: u8) -> Seq<u8> {
    if count == 0 {
        Seq::empty()
    } else {
        digits(count).push(unit)
    }
}

/// Whether a duration has a time of day to spell.
pub open spec fn is_timed(d: Counts) -> bool {
    d.hours > 0 || d.minutes > 0 || d.seconds > 0
}

/// The time of day as it is spelled: [`TIME`] and the fields of the hours,
/// minutes and seconds, or nothing at all where each of them is 0.
pub open spec fn spelled_time(d: Counts) -> Seq<u8> {
    if is_timed(d) {
        seq![TIME] + (spelled_field(d.hours, HOURS) + (spelled_field(
            d.minutes,
            MONTHS_OR_MINUTES,
        ) + spelled_field(d.seconds, SECONDS)))
    } else {
        Seq::empty()
    }
}

/// A duration as it is spelled: [`PERIOD`], the fields of the years, months
/// and days, and the time of day.
pub open spec fn spell(d: Counts) -> Seq<u8> {
    seq![PERIOD] + (spelled_field(d.years, YEARS) + (spelled_field(d.months, MONTHS_OR_MINUTES)
        + (spelled_field(d.days, DAYS) + spelled_time(d))))
}

/// How many decimal digits stand at position `from` and directly after it.
pub open spec fn run_from(bytes: Seq<u8>, from: int) -> nat
    decreases bytes.len() - from,
{
    if 0 <= from < bytes.len() && is_digit(bytes[from]) {
        1 + run_from(bytes, from + 1)
    } else {
        0
    }
}

/// The number that the digits from `from` up to `to` spell.
pub open spec fn decimal(bytes: Seq<u8>, from: int, to: int) -> nat
    decreases to - from,
{
    if from < to {
        decimal(bytes, from, to - 1) * 10 + (bytes[to - 1] - 0x30) as nat
    } else {
        0
    }
}

/// One field as it is read: its count, and where reading goes on.
pub struct Field {
    pub count: nat,
    pub next: int,
}

/// The field with the letter `unit` at position `at`: a count and the letter.
/// Where there is none, the count is 0 and nothing is consumed.
pub open spec fn field(bytes: Seq<u8>, at: int, unit: u8) -> Field {
    let end = at + run_from(bytes, at);
    if at < end < bytes.len() && bytes[end] == unit {
        Field { count: decimal(bytes, at, end), next: end + 1 }
    } else {
        Field { count: 0, next: at }
    }
}

/// The fields of the time of day, read from position `at`: hours, minutes,
/// seconds, each of them optional.
pub open spec fn time_fields(bytes: Seq<u8>, at: int) -> (Field, Field, Field) {
    let hours = field(bytes, at, HOURS);
    let minutes = field(bytes, hours.next, MONTHS_OR_MINUTES);
    let seconds = field(bytes, minutes.next, SECONDS);
    (hours, minutes, seconds)
}

/// Reads [`PERIOD`], then the fields of the years, months and days, each of
/// them optional, then, only where [`TIME`] follows, the fields of the time
/// of day, up to the end. Gives `None` where `bytes` are not of this shape.
pub open spec fn read(bytes: Seq<u8>) -> Option<Counts> {
    if bytes.len() == 0 || bytes[0] != PERIOD {
        None
    } else {
        let years = field(bytes, 1, YEARS);
        let months = field(bytes, years.next, MONTHS_OR_MINUTES);
        let days = field(bytes, months.next, DAYS);
        if days.next < bytes.len() && bytes[days.next] == TIME {
            let (hours, minutes, seconds) = time_fields(bytes, days.next + 1);
            if seconds.next == bytes.len() {
                Some(
                    Counts {
                        years: years.count,
                        months: months.count,
                        days: days.count,
                        hours: hours.count,
                        minutes: minutes.count,
                        seconds: seconds.count,
                    },
                )
            } else {
                None
            }
        } else if days.next == bytes.len() {
            Some(
                Counts {
                    years: years.count,
                    months: months.count,
                    days: days.count,
                    hours: 0,
                    minutes: 0,
                    seconds: 0,
                },
            )
        } else {
            None
        }
    }
}

/// The length in seconds of the duration that `bytes` spell, where they
/// spell one and it is no longer than `u32::MAX` seconds.
pub open spec fn spelled_seconds(bytes: Seq<u8>) -> Result<u32, Failure> {
    match read(bytes) {
        None => Err(Failure::NotADuration),
        Some(d) => if total_seconds(d) <= u32::MAX {
            Ok(total_seconds(d) as u32)
        } else {
            Err(Failure::OutOfRange)
        },
    }
}

/// Tells whether `byte` is one of the digits `0` to `9`.
pub fn is_decimal_digit(byte: u8) -> (yes: bool)
    ensures
        yes == is_digit(byte),
{
    0x30 <= byte && byte <= 0x39
}

/// From this count on, a field alone is longer than `u32::MAX` seconds.
const COUNT_CAP: u64 = 0x1_0000_0000;

/// A count as the reader holds it: exact below [`COUNT_CAP`].
spec fn capped(n: nat) -> u64 {
    if n >= COUNT_CAP {
        COUNT_CAP
    } else {
        n as u64
    }
}

/// Reads the field with the letter `unit` at position `at`. The count is
/// exact below [`COUNT_CAP`] and is [`COUNT_CAP`] from there on.
fn read_field(bytes: &[u8], at: usize, unit: u8) -> (read: (u64, usize))
    requires
        at <= bytes.len(),
    ensures
        read.0 == capped(field(bytes@, at as int, unit).count),
        read.1 == field(bytes@, at as int, unit).next,
        at <= read.1 <= bytes.len(),
{
    let mut end: usize = at;
    let mut count: u64 = 0;
    while end < bytes.len() && is_decimal_digit(bytes[end])
        invariant
            at <= end <= bytes.len(),
            forall|i: int| at <= i < end ==> is_digit(#[trigger] bytes@[i]),
            count == capped(decimal(bytes@, at as int, end as int)),
        decreases bytes.len() - end,
    {
        let digit: u64 = (bytes[end] - 0x30) as u64;
        if count < COUNT_CAP {
            count = count * 10 + digit;
            if count > COUNT_CAP {
                count = COUNT_CAP;
            }
        }
        end = end + 1;
    }
    proof {
        lemma_run_from(bytes@, at as int, end as int);
    }
    if at < end && end < bytes.len() && bytes[end] == unit {
        (count, end + 1)
    } else {
        (0, at)
    }
}

/// Reads a duration in ISO-8601 spelling and gives its length in seconds.
pub fn seconds_of_spelling(bytes: &[u8]) -> (read: Result<u32, Failure>)
    ensures
        read == spelled_seconds(bytes@),
{
    if bytes.len() == 0 || bytes[0] != PERIOD {
        return Err(Failure::NotADuration);
    }
    let (years, after_years) = read_field(bytes, 1, YEARS);
    let (months, after_months) = read_field(bytes, after_years, MONTHS_OR_MINUTES);
    let (days, after_days) = read_field(bytes, after_months, DAYS);
    let mut hours: u64 = 0;
    let mut minutes: u64 = 0;
    let mut seconds: u64 = 0;
    let mut end = after_days;
    if after_days < bytes.len() && bytes[after_days] == TIME {
        let (read_hours, after_hours) = read_field(bytes, after_days + 1, HOURS);
        let (read_minutes, after_minutes) = read_field(bytes, after_hours, MONTHS_OR_MINUTES);
        let (read_seconds, after_seconds) = read_field(bytes, after_minutes, SECONDS);
        hours = read_hours;
        minutes = read_minutes;
        seconds = read_seconds;
        end = after_seconds;
    }
    if end != bytes.len() {
        return Err(Failure::NotADuration);
    }
    let total: u64 = seconds + SECONDS_PER_MINUTE * minutes + SECONDS_PER_HOUR * hours
        + SECONDS_PER_DAY * days + SECONDS_PER_MONTH * months + SECONDS_PER_YEAR * years;
    if total <= u32::MAX as u64 {
        Ok(total as u32)
    } else {
        Err(Failure::OutOfRange)
    }
}

/// A run of digits that ends at `end` is as long as it looks.
proof fn lemma_run_from(bytes: Seq<u8>, from: int, end: int)
    requires
        0 <= from <= end <= bytes.len(),
        forall|i: int| from <= i < end ==> is_digit(#[trigger] bytes[i]),
        end == bytes.len() || !is_digit(bytes[end]),
    ensures
        run_from(bytes, from) == end - from,
    decreases end - from,
{
    if from < end {
        lemma_run_from(bytes, from + 1, end);
    }
}

/// The number that digits spell depends on the digits alone.
proof fn lemma_decimal_agrees(a: Seq<u8>, from_a: int, b: Seq<u8>, from_b: int, n: nat)
    requires
        forall|j: int| from_a <= j < from_a + n ==> #[trigger] a[j] == b[j - from_a + from_b],
    ensures
        decimal(a, from_a, from_a + n) == decimal(b, from_b, from_b + n),
    decreases n,
{
    if n > 0 {
        lemma_decimal_agrees(a, from_a, b, from_b, (n - 1) as nat);
    }
}

/// The digits of a count are digits, and spell the count.
proof fn lemma_digits(count: nat)
    ensures
        count > 0 ==> digits(count).len() > 0,
        forall|i: int| 0 <= i < digits(count).len() ==> is_digit(#[trigger] digits(count)[i]),
        decimal(digits(count), 0, digits(count).len() as int) == count,
    decreases count,
{
    if count > 0 {
        let front = digits(count / 10);
        lemma_digits(count / 10);
        lemma_decimal_agrees(digits(count), 0, front, 0, front.len());
    }
}

/// A field that is spelled at position `at` is read there as it is spelled.
proof fn lemma_field_present(bytes: Seq<u8>, at: int, count: nat, unit: u8)
    requires
        count > 0,
        !is_digit(unit),
        0 <= at,
        at + digits(count).len() < bytes.len(),
        forall|j: int|
            at <= j < at + digits(count).len() ==> #[trigger] bytes[j] == digits(count)[j - at],
        bytes[at + digits(count).len()] == unit,
    ensures
        digits(count).len() > 0,
        run_from(bytes, at) == digits(count).len(),
        decimal(bytes, at, at + digits(count).len()) == count,
{
    lemma_digits(count);
    lemma_run_from(bytes, at, at + digits(count).len());
    lemma_decimal_agrees(bytes, at, digits(count), 0, digits(count).len());
}

/// A run of digits is the same seen from a position further left.
proof fn lemma_run_from_suffix(bytes: Seq<u8>, at: int, from: int)
    requires
        0 <= at <= bytes.len(),
        0 <= from,
    ensures
        run_from(bytes, at + from) == run_from(bytes.skip(at), from),
    decreases bytes.len() - at - from,
{
    if at + from < bytes.len() && is_digit(bytes[at + from]) {
        lemma_run_from_suffix(bytes, at, from + 1);
    }
}

/// Whether no field with the letter `unit` is read at the head of `rest`.
#[verifier::opaque]
spec fn bars(rest: Seq<u8>, unit: u8) -> bool {
    field(rest, 0, unit) == (Field { count: 0, next: 0 })
}

/// Nothing is read where nothing stands, or where a letter stands.
proof fn lemma_bars_at_letter(rest: Seq<u8>, unit: u8)
    requires
        rest.len() == 0 || !is_digit(rest[0]),
    ensures
        bars(rest, unit),
{
    reveal(bars);
}

/// A spelled field bars every other unit, unless it is empty and what
/// follows does not.
proof fn lemma_bars(count: nat, unit: u8, rest: Seq<u8>, other: u8)
    requires
        !is_digit(unit),
        other != unit,
        count == 0 ==> bars(rest, other),
    ensures
        bars(spelled_field(count, unit) + rest, other),
{
    reveal(bars);
    let all = spelled_field(count, unit) + rest;
    if count > 0 {
        lemma_field_present(all, 0, count, unit);
    } else {
        assert(all =~= rest);
    }
}

/// Where a spelled field and then `rest` stand at position `at`, the field
/// is read there and reading goes on at `rest`.
proof fn lemma_reads(bytes: Seq<u8>, at: int, count: nat, unit: u8, rest: Seq<u8>)
    requires
        0 <= at <= bytes.len(),
        bytes.skip(at) == spelled_field(count, unit) + rest,
        !is_digit(unit),
        count == 0 ==> bars(rest, unit),
    ensures
        field(bytes, at, unit) == (Field {
            count,
            next: at + spelled_field(count, unit).len(),
        }),
        at + spelled_field(count, unit).len() <= bytes.len(),
        bytes.skip(at + spelled_field(count, unit).len()) == rest,
{
    reveal(bars);
    let tail = bytes.skip(at);
    let spelled = spelled_field(count, unit);
    assert(tail.len() == spelled.len() + rest.len());
    assert(bytes.skip(at + spelled.len()) =~= rest) by {
        assert forall|i: int| 0 <= i < rest.len() implies bytes[at + spelled.len() + i]
            == rest[i] by {
            assert(tail[spelled.len() + i] == rest[i]);
        }
    }
    if count > 0 {
        assert forall|j: int| at <= j < at + digits(count).len() implies #[trigger] bytes[j]
            == digits(count)[j - at] by {
            assert(tail[j - at] == spelled[j - at]);
        }
        assert(tail[digits(count).len() as int] == unit);
        lemma_field_present(bytes, at, count, unit);
    } else {
        assert(tail =~= rest);
        lemma_run_from_suffix(bytes, at, 0);
    }
}

/// The time of day is read back from its spelling.
proof fn lemma_time_reads_back(bytes: Seq<u8>, at: int, d: Counts)
    requires
        0 <= at <= bytes.len(),
        bytes.skip(at) == spelled_time(d),
    ensures
        !is_timed(d) ==> at == bytes.len(),
        is_timed(d) ==> at < bytes.len() && bytes[at] == TIME && time_fields(bytes, at + 1) == (
            Field { count: d.hours, next: at + 1 + spelled_field(d.hours, HOURS).len() },
            Field {
                count: d.minutes,
                next: at + 1 + spelled_field(d.hours, HOURS).len() + spelled_field(
                    d.minutes,
                    MONTHS_OR_MINUTES,
                ).len(),
            },
            Field { count: d.seconds, next: bytes.len() as int },
        ),
{
    if is_timed(d) {
        let end = Seq::<u8>::empty();
        let seconds = spelled_field(d.seconds, SECONDS);
        let from_minutes = spelled_field(d.minutes, MONTHS_OR_MINUTES) + seconds;
        let from_hours = spelled_field(d.hours, HOURS) + from_minutes;
        let tail = bytes.skip(at);
        assert(tail == seq![TIME] + from_hours);
        assert(bytes[at] == tail[0]);
        assert(bytes.skip(at + 1) =~= from_hours) by {
            assert forall|i: int| 0 <= i < from_hours.len() implies bytes[at + 1 + i]
                == from_hours[i] by {
                assert(tail[1 + i] == from_hours[i]);
            }
        }
        assert(seconds =~= seconds + end);
        lemma_bars_at_letter(end, MONTHS_OR_MINUTES);
        lemma_bars_at_letter(end, HOURS);
        lemma_bars_at_letter(end, SECONDS);
        lemma_bars(d.seconds, SECONDS, end, MONTHS_OR_MINUTES);
        lemma_bars(d.seconds, SECONDS, end, HOURS);
        lemma_bars(d.minutes, MONTHS_OR_MINUTES, seconds, HOURS);
        lemma_reads(bytes, at + 1, d.hours, HOURS, from_minutes);
        let after_hours: int = at + 1 + spelled_field(d.hours, HOURS).len();
        lemma_reads(bytes, after_hours, d.minutes, MONTHS_OR_MINUTES, seconds);
        let after_minutes: int = after_hours + spelled_field(d.minutes, MONTHS_OR_MINUTES).len();
        lemma_reads(bytes, after_minutes, d.seconds, SECONDS, end);
    }
}

/// Every duration is read back from its spelling, count for count, so that
/// its length is taken from its spelling exactly.
pub proof fn law_spelling_reads_back(d: Counts)
    ensures
        read(spell(d)) == Some(d),
        total_seconds(d) <= u32::MAX ==> spelled_seconds(spell(d)) == Ok::<u32, Failure>(
            total_seconds(d) as u32,
        ),
        total_seconds(d) > u32::MAX ==> spelled_seconds(spell(d)) == Err::<u32, Failure>(
            Failure::OutOfRange,
        ),
{
    let time = spelled_time(d);
    let from_days = spelled_field(d.days, DAYS) + time;
    let from_months = spelled_field(d.months, MONTHS_OR_MINUTES) + from_days;
    let from_years = spelled_field(d.years, YEARS) + from_months;
    let bytes = spell(d);
    assert(bytes.skip(1) =~= from_years);
    lemma_bars_at_letter(time, YEARS);
    lemma_bars_at_letter(time, MONTHS_OR_MINUTES);
    lemma_bars_at_letter(time, DAYS);
    lemma_bars(d.days, DAYS, time, MONTHS_OR_MINUTES);
    lemma_bars(d.days, DAYS, time, YEARS);
    lemma_bars(d.months, MONTHS_OR_MINUTES, from_days, YEARS);
    lemma_reads(bytes, 1, d.years, YEARS, from_months);
    let after_years: int = 1int + spelled_field(d.years, YEARS).len();
    lemma_reads(bytes, after_years, d.months, MONTHS_OR_MINUTES, from_days);
    let after_months: int = after_years + spelled_field(d.months, MONTHS_OR_MINUTES).len();
    lemma_reads(bytes, after_months, d.days, DAYS, time);
    let after_days: int = after_months + spelled_field(d.days, DAYS).len();
    lemma_time_reads_back(bytes, after_days, d);
}

} // verus!
