//! The time at which the terms of service are accepted.
use crate::outside::outcome_of;
use crate::text::{
    decimal, decimal_has_digits, is_digit, number, number_reads_back, numbers_sort_by_size,
    signed_number, sorts_before, sorts_one_way,
};
use chrono::{Datelike, NaiveDate, Timelike, Utc};
use vstd::prelude::*;

verus! {

/// The pattern of the acceptance time.
pub const TOS_FORMAT: &'static str = "%Y-%m-%dT%H:%M:%S%.3f+00:00";

/// A moment in UTC, by its calendar fields.
///
/// A leap second is second 59 with a nanosecond of one billion or more.
#[derive(Debug, Clone, Copy, PartialEq, Eq, Structural)]
pub struct UtcTime {
    pub year: i32,
    pub month: u32,
    pub day: u32,
    pub hour: u32,
    pub minute: u32,
    pub second: u32,
    pub nanosecond: u32,
}

/// Whether a year of the Gregorian calendar has a 29th of February.
pub open spec fn is_leap_year(year: int) -> bool {
    year % 4 == 0 && (year % 100 != 0 || year % 400 == 0)
}

/// The number of days of a month of the Gregorian calendar.
pub open spec fn days_in_month(year: int, month: int) -> int {
    if month == 2 {
        if is_leap_year(year) { 29 } else { 28 }
    } else if month == 4 || month == 6 || month == 9 || month == 11 {
        30
    } else {
        31
    }
}

impl UtcTime {
    /// Whether the fields name a moment that exists and that `chrono` can hold.
    pub open spec fn valid(self) -> bool {
        &&& -262143 <= self.year <= 262142
        &&& 1 <= self.month <= 12
        &&& 1 <= self.day <= days_in_month(self.year as int, self.month as int)
        &&& self.hour < 24
        &&& self.minute < 60
        &&& self.second < 60
        &&& self.nanosecond < 2_000_000_000
        &&& self.nanosecond >= 1_000_000_000 ==> self.second == 59
    }
}

/// A year in at least four digits, with a sign where it is not within 0 to 9999.
pub open spec fn year_text(year: int) -> Seq<char> {
    if 0 <= year <= 9999 {
        decimal(year as nat, 4)
    } else if year > 9999 {
        seq!['+'] + decimal(year as nat, 4)
    } else {
        seq!['-'] + decimal((-year) as nat, 4)
    }
}

/// A moment as the API takes it: `2024-01-31T23:59:08.042+00:00`.
pub open spec fn tos_text(time: UtcTime) -> Seq<char> {
    year_text(time.year as int)
        + seq!['-'] + decimal(time.month as nat, 2)
        + seq!['-'] + decimal(time.day as nat, 2)
        + seq!['T'] + decimal(time.hour as nat, 2)
        + seq![':'] + decimal(time.minute as nat, 2)
        + seq![':'] + decimal((time.second + time.nanosecond as int / 1_000_000_000) as nat, 2)
        + seq!['.'] + decimal((time.nanosecond as int / 1_000_000 % 1000) as nat, 3)
        + seq!['+', '0', '0', ':', '0', '0']
}

/// `chrono::Utc::now`: the time of the system clock, which is a moment that
/// exists, and none before 1970. Which one it is, is left open.
#[verifier::external_body]
fn utc_now() -> (now: UtcTime)
    ensures
        now.valid(),
        now.year >= 1970,
{
    let now = Utc::now();
    UtcTime {
        year: now.year(),
        month: now.month(),
        day: now.day(),
        hour: now.hour(),
        minute: now.minute(),
        second: now.second(),
        nanosecond: now.nanosecond(),
    }
}

/// `chrono::DateTime::format`: the moment written by the pattern, which is
/// `TOS_FORMAT`: the year in at least four digits and with a sign where it has
/// more or is negative, the other fields in two digits, the fraction of the
/// second cut off after three.
#[verifier::external_body]
fn format_utc(time: &UtcTime, pattern: &str) -> (text: String)
    requires
        time.valid(),
        pattern@ == TOS_FORMAT@,
    ensures
        text@ == tos_text(*time),
{
    let date = NaiveDate::from_ymd_opt(time.year, time.month, time.day).unwrap();
    date.and_hms_nano_opt(time.hour, time.minute, time.second, time.nanosecond)
        .unwrap()
        .and_utc()
        .format(pattern)
        .to_string()
}

/// A moment as the API takes it.
pub fn cf_time_text(time: &UtcTime) -> (text: String)
    requires
        time.valid(),
    ensures
        text@ == tos_text(*time),
{
    format_utc(time, TOS_FORMAT)
}

/// Whether the system clock can have shown this moment when it was read.
pub closed spec fn is_clock_reading(now: UtcTime) -> bool {
    call_ensures(utc_now, (), now)
}

/// The present moment, as the system clock shows it, in the form that the API
/// takes.
pub fn cf_time_string() -> (text: String)
    ensures
        exists|now: UtcTime|
            #[trigger] is_clock_reading(now) && now.valid() && now.year >= 1970 && text@
                == tos_text(now),
{
    let now = outcome_of(utc_now);
    proof {
        assert(is_clock_reading(now));
    }
    cf_time_text(&now)
}

/// A moment to the millisecond, by its calendar fields. A leap second is second 60.
pub struct ShownTime {
    pub year: int,
    pub month: int,
    pub day: int,
    pub hour: int,
    pub minute: int,
    pub second: int,
    pub millisecond: int,
}

impl UtcTime {
    /// The moment to the millisecond.
    pub open spec fn shown(self) -> ShownTime {
        ShownTime {
            year: self.year as int,
            month: self.month as int,
            day: self.day as int,
            hour: self.hour as int,
            minute: self.minute as int,
            second: self.second + self.nanosecond as int / 1_000_000_000,
            millisecond: self.nanosecond as int / 1_000_000 % 1000,
        }
    }
}

impl ShownTime {
    /// Whether the moment comes before another one.
    pub open spec fn before(self, other: ShownTime) -> bool {
        if self.year != other.year {
            self.year < other.year
        } else if self.month != other.month {
            self.month < other.month
        } else if self.day != other.day {
            self.day < other.day
        } else if self.hour != other.hour {
            self.hour < other.hour
        } else if self.minute != other.minute {
            self.minute < other.minute
        } else if self.second != other.second {
            self.second < other.second
        } else {
            self.millisecond < other.millisecond
        }
    }

    /// The moment that a text gives.
    pub open spec fn read(text: Seq<char>) -> ShownTime {
        let rest = text.len() - 25;
        ShownTime {
            year: signed_number(text.subrange(0, rest)),
            month: number(text.subrange(rest + 1, rest + 3)),
            day: number(text.subrange(rest + 4, rest + 6)),
            hour: number(text.subrange(rest + 7, rest + 9)),
            minute: number(text.subrange(rest + 10, rest + 12)),
            second: number(text.subrange(rest + 13, rest + 15)),
            millisecond: number(text.subrange(rest + 16, rest + 19)),
        }
    }
}

proof fn decimal_width(n: nat, width: nat)
    requires
        width == 2 && n < 100 || width == 3 && n < 1000 || width == 4 && n < 10000,
    ensures
        decimal(n, width).len() == width,
{
    reveal_with_fuel(decimal, 5);
}

/// The fields behind the year have their fixed places, counted from the end of the
/// year.
proof fn fields_of_text(time: UtcTime)
    requires
        time.valid(),
    ensures
        ({
            let text = tos_text(time);
            let year = year_text(time.year as int).len() as int;
            let shown = time.shown();
            &&& text.len() == year + 25
            &&& text.subrange(0, year) == year_text(time.year as int)
            &&& text.subrange(year + 1, year + 3) == decimal(shown.month as nat, 2)
            &&& text.subrange(year + 4, year + 6) == decimal(shown.day as nat, 2)
            &&& text.subrange(year + 7, year + 9) == decimal(shown.hour as nat, 2)
            &&& text.subrange(year + 10, year + 12) == decimal(shown.minute as nat, 2)
            &&& text.subrange(year + 13, year + 15) == decimal(shown.second as nat, 2)
            &&& text.subrange(year + 16, year + 19) == decimal(shown.millisecond as nat, 3)
        }),
{
    let shown = time.shown();
    decimal_width(shown.month as nat, 2);
    decimal_width(shown.day as nat, 2);
    decimal_width(shown.hour as nat, 2);
    decimal_width(shown.minute as nat, 2);
    decimal_width(shown.second as nat, 2);
    decimal_width(shown.millisecond as nat, 3);
    let text = tos_text(time);
    let year = year_text(time.year as int).len() as int;
    assert(text.subrange(0, year) =~= year_text(time.year as int));
    assert(text.subrange(year + 1, year + 3) =~= decimal(shown.month as nat, 2));
    assert(text.subrange(year + 4, year + 6) =~= decimal(shown.day as nat, 2));
    assert(text.subrange(year + 7, year + 9) =~= decimal(shown.hour as nat, 2));
    assert(text.subrange(year + 10, year + 12) =~= decimal(shown.minute as nat, 2));
    assert(text.subrange(year + 13, year + 15) =~= decimal(shown.second as nat, 2));
    assert(text.subrange(year + 16, year + 19) =~= decimal(shown.millisecond as nat, 3));
}

/// Up to the year 9999 every acceptance time has 29 characters.
pub proof fn tos_text_length(time: UtcTime)
    requires
        time.valid(),
        0 <= time.year <= 9999,
    ensures
        tos_text(time).len() == 29,
{
    fields_of_text(time);
    decimal_width(time.year as nat, 4);
}

proof fn year_reads_back(year: int)
    ensures
        signed_number(year_text(year)) == year,
{
    let digits = decimal(if year < 0 { (-year) as nat } else { year as nat }, 4);
    number_reads_back(if year < 0 { (-year) as nat } else { year as nat }, 4);
    if 0 <= year <= 9999 {
    } else {
        assert(year_text(year).drop_first() =~= digits);
    }
}

/// The text of a moment gives the moment back, to the millisecond.
pub proof fn time_text_reads_back(time: UtcTime)
    requires
        time.valid(),
    ensures
        ShownTime::read(tos_text(time)) == time.shown(),
{
    let shown = time.shown();
    fields_of_text(time);
    year_reads_back(shown.year);
    number_reads_back(shown.month as nat, 2);
    number_reads_back(shown.day as nat, 2);
    number_reads_back(shown.hour as nat, 2);
    number_reads_back(shown.minute as nat, 2);
    number_reads_back(shown.second as nat, 2);
    number_reads_back(shown.millisecond as nat, 3);
}

/// Two moments have the same text exactly where they are the same to the
/// millisecond.
pub proof fn time_text_tells_milliseconds_apart(a: UtcTime, b: UtcTime)
    requires
        a.valid(),
        b.valid(),
    ensures
        tos_text(a) == tos_text(b) <==> a.shown() == b.shown(),
{
    time_text_reads_back(a);
    time_text_reads_back(b);
    if a.shown() == b.shown() {
        assert(a.shown().second == b.shown().second);
        assert(a.shown().millisecond == b.shown().millisecond);
    }
}

/// What comes before a field of the text, and the field itself.
spec fn up_to_field(time: UtcTime, field: int) -> (Seq<char>, nat, nat) {
    let shown = time.shown();
    let month = year_text(shown.year) + seq!['-'];
    let day = month + decimal(shown.month as nat, 2) + seq!['-'];
    let hour = day + decimal(shown.day as nat, 2) + seq!['T'];
    let minute = hour + decimal(shown.hour as nat, 2) + seq![':'];
    let second = minute + decimal(shown.minute as nat, 2) + seq![':'];
    let millisecond = second + decimal(shown.second as nat, 2) + seq!['.'];
    if field == 0 {
        (Seq::empty(), shown.year as nat, 4)
    } else if field == 1 {
        (month, shown.month as nat, 2)
    } else if field == 2 {
        (day, shown.day as nat, 2)
    } else if field == 3 {
        (hour, shown.hour as nat, 2)
    } else if field == 4 {
        (minute, shown.minute as nat, 2)
    } else if field == 5 {
        (second, shown.second as nat, 2)
    } else {
        (millisecond, shown.millisecond as nat, 3)
    }
}

proof fn field_is_in_text(time: UtcTime, field: int)
    requires
        time.valid(),
        0 <= time.year <= 9999,
        0 <= field <= 6,
    ensures
        ({
            let (start, n, width) = up_to_field(time, field);
            &&& (start + decimal(n, width)).is_prefix_of(tos_text(time))
            &&& decimal(n, width).len() == width
        }),
{
    let (start, n, width) = up_to_field(time, field);
    decimal_width(n, width);
    let text = tos_text(time);
    let part = start + decimal(n, width);
    assert(part =~= text.subrange(0, part.len() as int));
}

proof fn sorts_by_field(a: UtcTime, b: UtcTime, field: int)
    requires
        a.valid(),
        b.valid(),
        0 <= a.year <= 9999,
        0 <= b.year <= 9999,
        0 <= field <= 6,
        up_to_field(a, field).0 == up_to_field(b, field).0,
        up_to_field(a, field).1 < up_to_field(b, field).1,
    ensures
        sorts_before(tos_text(a), tos_text(b)),
{
    let (start, m, width) = up_to_field(a, field);
    field_is_in_text(a, field);
    field_is_in_text(b, field);
    numbers_sort_by_size(
        m,
        up_to_field(b, field).1,
        width,
        start,
        tos_text(a),
        tos_text(b),
    );
}

proof fn earlier_sorts_before(a: UtcTime, b: UtcTime)
    requires
        a.valid(),
        b.valid(),
        0 <= a.year <= 9999,
        0 <= b.year <= 9999,
        a.shown().before(b.shown()),
    ensures
        sorts_before(tos_text(a), tos_text(b)),
{
    let x = a.shown();
    let y = b.shown();
    if x.year != y.year {
        sorts_by_field(a, b, 0);
    } else if x.month != y.month {
        sorts_by_field(a, b, 1);
    } else if x.day != y.day {
        sorts_by_field(a, b, 2);
    } else if x.hour != y.hour {
        sorts_by_field(a, b, 3);
    } else if x.minute != y.minute {
        sorts_by_field(a, b, 4);
    } else if x.second != y.second {
        sorts_by_field(a, b, 5);
    } else {
        sorts_by_field(a, b, 6);
    }
}

/// Within the years 0 to 9999 the texts of moments sort as the moments follow each
/// other.
pub proof fn time_texts_sort_by_time(a: UtcTime, b: UtcTime)
    requires
        a.valid(),
        b.valid(),
        0 <= a.year <= 9999,
        0 <= b.year <= 9999,
    ensures
        sorts_before(tos_text(a), tos_text(b)) <==> a.shown().before(b.shown()),
{
    sorts_one_way(tos_text(a), tos_text(b));
    if a.shown().before(b.shown()) {
        earlier_sorts_before(a, b);
    } else if b.shown().before(a.shown()) {
        earlier_sorts_before(b, a);
    } else {
        assert(a.shown() == b.shown());
        time_text_tells_milliseconds_apart(a, b);
    }
}

/// How many characters the year takes: four digits, with a sign where it is not
/// within 0 to 9999, and more digits only where it needs them.
pub open spec fn year_width(year: int) -> int {
    if 0 <= year <= 9999 {
        4
    } else if -9999 <= year < 0 {
        5
    } else if -99999 <= year <= 99999 {
        6
    } else {
        7
    }
}

/// Whether a text has the form of a moment whose year takes this many characters:
/// the marks between the fields and the offset at the end are in their places, the
/// rest are digits behind the sign that the year may have.
pub open spec fn has_form_of_moment(text: Seq<char>, year: int) -> bool {
    let rest = text.len() - 25;
    &&& rest == year_width(year)
    &&& year > 9999 ==> text[0] == '+'
    &&& year < 0 ==> text[0] == '-'
    &&& 0 <= year <= 9999 ==> is_digit(text[0])
    &&& forall|i: int| 1 <= i < rest ==> is_digit(#[trigger] text[i])
    &&& text[rest] == '-' && is_digit(text[rest + 1]) && is_digit(text[rest + 2])
    &&& text[rest + 3] == '-' && is_digit(text[rest + 4]) && is_digit(text[rest + 5])
    &&& text[rest + 6] == 'T' && is_digit(text[rest + 7]) && is_digit(text[rest + 8])
    &&& text[rest + 9] == ':' && is_digit(text[rest + 10]) && is_digit(text[rest + 11])
    &&& text[rest + 12] == ':' && is_digit(text[rest + 13]) && is_digit(text[rest + 14])
    &&& text[rest + 15] == '.' && is_digit(text[rest + 16]) && is_digit(text[rest + 17])
    &&& is_digit(text[rest + 18])
    &&& text.subrange(rest + 19, rest + 25) == seq!['+', '0', '0', ':', '0', '0']
}

/// Whether a text shows this moment, to the millisecond and in UTC.
pub open spec fn shows_moment(text: Seq<char>, time: UtcTime) -> bool {
    has_form_of_moment(text, time.year as int) && ShownTime::read(text) == time.shown()
}

proof fn year_takes_its_width(year: int)
    requires
        -262143 <= year <= 262142,
    ensures
        year_text(year).len() == year_width(year),
        forall|i: int| 1 <= i < year_text(year).len() ==> is_digit(#[trigger] year_text(year)[i]),
        0 <= year <= 9999 ==> is_digit(year_text(year)[0]),
{
    reveal_with_fuel(decimal, 8);
    let size = if year < 0 { (-year) as nat } else { year as nat };
    decimal_has_digits(size, 4);
}

pub(crate) proof fn time_text_shows_moment(time: UtcTime)
    requires
        time.valid(),
    ensures
        shows_moment(tos_text(time), time),
{
    time_text_reads_back(time);
    fields_of_text(time);
    let text = tos_text(time);
    let shown = time.shown();
    let year = year_text(time.year as int);
    let rest = year.len() as int;
    year_takes_its_width(time.year as int);
    decimal_has_digits(shown.month as nat, 2);
    decimal_has_digits(shown.day as nat, 2);
    decimal_has_digits(shown.hour as nat, 2);
    decimal_has_digits(shown.minute as nat, 2);
    decimal_has_digits(shown.second as nat, 2);
    decimal_has_digits(shown.millisecond as nat, 3);
    assert forall|i: int| 0 <= i < rest implies text[i] == year[i] by {
        assert(text.subrange(0, rest)[i] == text[i]);
    }
    let (month, day) = (text.subrange(rest + 1, rest + 3), text.subrange(rest + 4, rest + 6));
    let (hour, minute) = (text.subrange(rest + 7, rest + 9), text.subrange(rest + 10, rest + 12));
    let second = text.subrange(rest + 13, rest + 15);
    let milli = text.subrange(rest + 16, rest + 19);
    assert(month[0] == text[rest + 1] && month[1] == text[rest + 2]);
    assert(day[0] == text[rest + 4] && day[1] == text[rest + 5]);
    assert(hour[0] == text[rest + 7] && hour[1] == text[rest + 8]);
    assert(minute[0] == text[rest + 10] && minute[1] == text[rest + 11]);
    assert(second[0] == text[rest + 13] && second[1] == text[rest + 14]);
    assert(milli[0] == text[rest + 16] && milli[1] == text[rest + 17] && milli[2] == text[rest
        + 18]);
    decimal_width(shown.month as nat, 2);
    decimal_width(shown.day as nat, 2);
    decimal_width(shown.hour as nat, 2);
    decimal_width(shown.minute as nat, 2);
    decimal_width(shown.second as nat, 2);
    decimal_width(shown.millisecond as nat, 3);
    assert(text.subrange(rest + 19, rest + 25) =~= seq!['+', '0', '0', ':', '0', '0']);
}

/// Whether there is such a moment in the Gregorian calendar, within the years that
/// can be written.
pub open spec fn is_in_calendar(time: UtcTime) -> bool {
    let leap = time.year % 4 == 0 && (time.year % 100 != 0 || time.year % 400 == 0);
    let short = time.month == 4 || time.month == 6 || time.month == 9 || time.month == 11;
    &&& -262143 <= time.year <= 262142
    &&& 1 <= time.month <= 12
    &&& 1 <= time.day <= 31
    &&& time.day == 31 ==> !short && time.month != 2
    &&& time.day == 30 ==> time.month != 2
    &&& time.day == 29 && time.month == 2 ==> leap
    &&& time.hour <= 23 && time.minute <= 59 && time.second <= 59
    &&& time.nanosecond <= 999_999_999 || time.second == 59 && time.nanosecond <= 1_999_999_999
}

/// Every moment of the calendar can be written, and its text shows that moment, to
/// the millisecond and in UTC: each field stands in its place and reads as the field
/// of the moment.
pub proof fn every_moment_is_shown(time: &UtcTime, text: String)
    requires
        is_in_calendar(*time),
        call_ensures(cf_time_text, (time,), text),
    ensures
        call_requires(cf_time_text, (time,)),
        shows_moment(text@, *time),
{
    assert(time.valid());
    time_text_shows_moment(*time);
}

/// Two moments of the calendar are written alike only where they are the same to the
/// millisecond, and within the years 0 to 9999 the earlier one sorts first.
pub proof fn moments_are_told_apart(a: &UtcTime, b: &UtcTime, first: String, second: String)
    requires
        is_in_calendar(*a),
        is_in_calendar(*b),
        call_ensures(cf_time_text, (a,), first),
        call_ensures(cf_time_text, (b,), second),
    ensures
        first@ == second@ <==> a.shown() == b.shown(),
        0 <= a.year <= 9999 && 0 <= b.year <= 9999 ==> (sorts_before(first@, second@)
            <==> a.shown().before(b.shown())),
{
    assert(a.valid() && b.valid());
    time_text_tells_milliseconds_apart(*a, *b);
    if 0 <= a.year <= 9999 && 0 <= b.year <= 9999 {
        time_texts_sort_by_time(*a, *b);
    }
}

/// The text of the present shows a moment that the clock can have shown, none before
/// 1970.
pub proof fn present_is_a_clock_reading(text: String)
    requires
        call_ensures(cf_time_string, (), text),
    ensures
        exists|now: UtcTime|
            #[trigger] is_clock_reading(now) && shows_moment(text@, now) && now.year >= 1970,
{
    let now = choose|now: UtcTime| #[trigger]
        is_clock_reading(now) && now.valid() && now.year >= 1970 && text@ == tos_text(now);
    time_text_shows_moment(now);
}

/// A moment counts as a reading of the clock only where the clock gave it.
proof fn readings_come_of_the_clock(now: UtcTime)
    requires
        is_clock_reading(now),
    ensures
        call_ensures(utc_now, (), now),
{
}

} // verus!
