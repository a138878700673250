//! Dates as they stand in a game's record, and as they are shown.

use crate::text::decimal;
use vstd::prelude::*;
use vstd::string::*;

verus! {

/// Whether a year has a 29th of February.
pub open spec fn leap(year: int) -> bool {
    year % 4 == 0 && (year % 100 != 0 || year % 400 == 0)
}

/// How long a month is.
pub open spec fn month_length(year: int, month: int) -> int {
    if month == 2 {
        if leap(year) {
            29
        } else {
            28
        }
    } else if month == 4 || month == 6 || month == 9 || month == 11 {
        30
    } else {
        31
    }
}

/// Whether a year, a month and a day make a date.
pub open spec fn is_date(year: int, month: int, day: int) -> bool {
    1 <= month <= 12 && 1 <= day <= month_length(year, month)
}

/// How many days of the calendar come before a year, counted from the first day of year 1.
pub open spec fn days_before_year(year: int) -> int {
    365 * (year - 1) + (year - 1) / 4 - (year - 1) / 100 + (year - 1) / 400
}

/// How many days of a year come before a month.
pub open spec fn days_before_month(year: int, month: int) -> int
    decreases month,
{
    if month <= 1 {
        0
    } else {
        days_before_month(year, month - 1) + month_length(year, month - 1)
    }
}

/// A date counted in days: the first day of year 1 is day 1.
pub open spec fn day_number(year: int, month: int, day: int) -> int {
    days_before_year(year) + days_before_month(year, month) + day
}

/// The number of the first day of 1970, which moments are counted from.
pub open spec fn epoch_day() -> int {
    719163
}

/// How many seconds a date's midday comes after the first moment of 1970.
pub open spec fn midday(year: int, month: int, day: int) -> int {
    (day_number(year, month, day) - epoch_day()) * 86400 + 43200
}

/// The earliest and the latest year that the calendar can hold.
pub open spec fn in_calendar(year: int) -> bool {
    -262143 <= year <= 262142
}

/// Whether a moment, in seconds, falls on a day that the calendar can hold.
pub open spec fn in_range(moment: int) -> bool {
    day_number(-262143, 1, 1) <= moment / 86400 + epoch_day() <= day_number(262142, 12, 31)
}

/// A month's short name.
pub open spec fn month_name(month: int) -> Seq<char> {
    if month == 1 {
        "Jan"@
    } else if month == 2 {
        "Feb"@
    } else if month == 3 {
        "Mar"@
    } else if month == 4 {
        "Apr"@
    } else if month == 5 {
        "May"@
    } else if month == 6 {
        "Jun"@
    } else if month == 7 {
        "Jul"@
    } else if month == 8 {
        "Aug"@
    } else if month == 9 {
        "Sep"@
    } else if month == 10 {
        "Oct"@
    } else if month == 11 {
        "Nov"@
    } else {
        "Dec"@
    }
}

/// How a date is shown beside a move: the day of the month and the month's short name.
pub open spec fn shown_date(month: int, day: int) -> Seq<char> {
    decimal(day as nat) + " "@ + month_name(month)
}

/// Whether a moment is a date's midday; there is none where there is no such date.
pub open spec fn is_midday(moment: Option<i64>, year: int, month: int, day: int) -> bool {
    match moment {
        Some(moment) => in_calendar(year) && is_date(year, month, day) && moment == midday(
            year,
            month,
            day,
        ),
        None => !(in_calendar(year) && is_date(year, month, day)),
    }
}

/// `chrono::TimeZone::with_ymd_and_hms`, for midday of a date in `chrono::Utc`, as the seconds
/// that its `timestamp` gives.
///
/// There is such a moment exactly where the year, month and day make a date and the year is one
/// that chrono can hold; it is the date's distance from the first of January 1970, and half a
/// day.
#[verifier::external_body]
fn utc_midday(year: i32, month: u32, day: u32) -> (r: Option<i64>)
    ensures
        is_midday(r, year as int, month as int, day as int),
{
    let noon = chrono::TimeZone::with_ymd_and_hms(&chrono::Utc, year, month, day, 12, 0, 0);
    noon.single().map(|moment| moment.timestamp())
}

/// A number below a hundred in two digits.
pub open spec fn two_digits(n: int) -> Seq<char> {
    seq![crate::text::digit(n / 10), crate::text::digit(n % 10)]
}

/// A number with zeros in front of it, so that it has four digits at least.
pub open spec fn four_digits(n: nat) -> Seq<char> {
    if n < 10 {
        "000"@ + decimal(n)
    } else if n < 100 {
        "00"@ + decimal(n)
    } else if n < 1000 {
        "0"@ + decimal(n)
    } else {
        decimal(n)
    }
}

/// A year in four digits at least, with a sign where it has more than four or is negative.
pub open spec fn year_text(year: int) -> Seq<char> {
    if year < 0 {
        "-"@ + four_digits((-year) as nat)
    } else if year > 9999 {
        "+"@ + four_digits(year as nat)
    } else {
        four_digits(year as nat)
    }
}

/// The day of the month, and the month's short name.
pub open spec fn day_pattern() -> Seq<char> {
    "%-d %b"@
}

/// The date, and the time of day to the minute.
pub open spec fn minute_pattern() -> Seq<char> {
    "%Y-%m-%d %H:%M"@
}

/// The date without its year, and the time of day to the minute.
pub open spec fn recent_pattern() -> Seq<char> {
    "%m-%d %H:%M"@
}

/// The month and the day of a date, and a time of day to the minute.
pub open spec fn shown_recent(month: int, day: int, moment: int) -> Seq<char> {
    two_digits(month) + "-"@ + two_digits(day) + " "@ + two_digits(moment % 86400 / 3600) + ":"@
        + two_digits(moment % 3600 / 60)
}

/// A date and a moment of it, as a pattern shows them.
pub open spec fn shown(pattern: Seq<char>, year: int, month: int, day: int, moment: int) -> Seq<
    char,
> {
    if pattern == day_pattern() {
        shown_date(month, day)
    } else if pattern == minute_pattern() {
        year_text(year) + "-"@ + shown_recent(month, day, moment)
    } else {
        shown_recent(month, day, moment)
    }
}

/// Whether a text is how a pattern shows a moment: by the date that the moment falls on.
pub open spec fn is_formatted(text: Seq<char>, moment: int, pattern: Seq<char>) -> bool {
    forall|year: int, month: int, day: int|
        #![trigger day_number(year, month, day)]
        is_date(year, month, day) && day_number(year, month, day) == moment / 86400 + epoch_day()
            ==> text == shown(pattern, year, month, day, moment)
}

/// `chrono::DateTime::format`, with the pattern given, of the moment so many seconds after the
/// first of January 1970, in UTC.
///
/// Whatever date the moment falls on, the text is, for `%-d %b`, that date's day of the month and
/// its month's short name; for `%m-%d %H:%M`, its month, its day and the hour and minute of the
/// moment in two digits each; and for `%Y-%m-%d %H:%M` the same behind the year in four digits,
/// which has a sign where it is negative or needs more than four.
#[verifier::external_body]
fn format_moment(moment: i64, pattern: &str) -> (r: String)
    requires
        in_range(moment as int),
        pattern@ == day_pattern() || pattern@ == minute_pattern() || pattern@ == recent_pattern(),
    ensures
        is_formatted(r@, moment as int, pattern@),
{
    let moment = chrono::DateTime::<chrono::Utc>::from_timestamp(moment, 0);
    moment.map(|moment| moment.format(pattern).to_string()).unwrap_or_default()
}

/// The date that a moment falls on: year, month and day.
pub open spec fn date_of(moment: int) -> (int, int, int) {
    choose|year: int, month: int, day: int|
        #![trigger day_number(year, month, day)]
        is_date(year, month, day) && day_number(year, month, day) == moment / 86400 + epoch_day()
}

/// How a pattern shows a moment.
pub open spec fn moment_text(moment: int, pattern: Seq<char>) -> Seq<char> {
    let (year, month, day) = date_of(moment);
    shown(pattern, year, month, day, moment)
}

/// The short form of the day that a moment falls on.
pub open spec fn day_text(moment: int) -> Seq<char> {
    shown_date(date_of(moment).1, date_of(moment).2)
}

/// Whatever date a moment falls on, it is shown by that date, and in one way.
pub proof fn a_moment_is_shown_by_its_date(moment: int, pattern: Seq<char>)
    ensures
        is_formatted(moment_text(moment, pattern), moment, pattern),
        forall|text: Seq<char>| #[trigger]
            is_formatted(text, moment, pattern) ==> text == moment_text(moment, pattern),
{
    every_day_has_a_date(moment / 86400 + epoch_day());
    let (year, month, day) = date_of(moment);
    assert forall|y: int, m: int, d: int|
        #![trigger day_number(y, m, d)]
        is_date(y, m, d) && day_number(y, m, d) == moment / 86400 + epoch_day() implies moment_text(
        moment,
        pattern,
    ) == shown(pattern, y, m, d, moment) by {
        a_day_has_one_date((year, month, day), (y, m, d));
    }
    assert forall|text: Seq<char>| #[trigger]
        is_formatted(text, moment, pattern) implies text == moment_text(moment, pattern) by {
        assert(day_number(year, month, day) == moment / 86400 + epoch_day());
    }
}

/// The short form of the day that a moment falls on, such as `3 Mar`.
pub fn day_label(moment: i64) -> (r: String)
    requires
        in_range(moment as int),
    ensures
        r@ == day_text(moment as int),
{
    proof {
        a_moment_is_shown_by_its_date(moment as int, day_pattern());
    }
    format_moment(moment, "%-d %b")
}

/// The day and the minute that a moment falls on, such as `2026-03-03 18:05`.
pub open spec fn minute_text(moment: int) -> Seq<char> {
    year_text(date_of(moment).0) + "-"@ + recent_text(moment)
}

/// The day of the year and the minute that a moment falls on, such as `03-03 18:05`.
pub open spec fn recent_text(moment: int) -> Seq<char> {
    shown_recent(date_of(moment).1, date_of(moment).2, moment)
}

/// The day and the minute that a moment falls on.
pub fn minute_label(moment: i64) -> (r: String)
    requires
        in_range(moment as int),
    ensures
        r@ == minute_text(moment as int),
{
    proof {
        a_moment_is_shown_by_its_date(moment as int, minute_pattern());
        reveal_strlit("%-d %b");
        reveal_strlit("%Y-%m-%d %H:%M");
        assert(minute_pattern().len() != day_pattern().len());
    }
    format_moment(moment, "%Y-%m-%d %H:%M")
}

/// The day of the year and the minute that a moment falls on.
pub fn recent_label(moment: i64) -> (r: String)
    requires
        in_range(moment as int),
    ensures
        r@ == recent_text(moment as int),
{
    proof {
        a_moment_is_shown_by_its_date(moment as int, recent_pattern());
        reveal_strlit("%-d %b");
        reveal_strlit("%Y-%m-%d %H:%M");
        reveal_strlit("%m-%d %H:%M");
        assert(recent_pattern().len() != day_pattern().len());
        assert(recent_pattern().len() != minute_pattern().len());
    }
    format_moment(moment, "%m-%d %H:%M")
}

/// A count of days, hours, minutes and seconds comes apart again.
proof fn a_moment_comes_apart(days: int, hour: int, minute: int, second: int)
    requires
        0 <= hour < 24,
        0 <= minute < 60,
        0 <= second < 60,
    ensures
        ({
            let moment = days * 86400 + hour * 3600 + minute * 60 + second;
            &&& moment / 86400 == days
            &&& moment % 86400 / 3600 == hour
            &&& moment % 3600 / 60 == minute
        }),
{
    let moment = days * 86400 + hour * 3600 + minute * 60 + second;
    let within = hour * 3600 + minute * 60 + second;
    assert(0 <= within < 86400);
    assert(moment / 86400 == days && moment % 86400 == within);
    assert(within / 3600 == hour);
    assert(moment == (days * 24 + hour) * 3600 + (minute * 60 + second));
    assert(moment % 3600 == minute * 60 + second);
}

/// Every second of a day is shown by that day and by its own hour and minute: the short form names
/// the day of the month and the month, the longer ones put month before day and hour before minute,
/// in two digits each, and the longest has the year in front.
pub proof fn a_second_is_shown_by_its_own_day(
    year: int,
    month: int,
    day: int,
    hour: int,
    minute: int,
    second: int,
)
    requires
        is_date(year, month, day),
        0 <= hour < 24,
        0 <= minute < 60,
        0 <= second < 60,
    ensures
        ({
            let moment = (day_number(year, month, day) - epoch_day()) * 86400 + hour * 3600 + minute
                * 60 + second;
            &&& day_text(moment) == decimal(day as nat) + " "@ + month_name(month)
            &&& recent_text(moment) == two_digits(month) + "-"@ + two_digits(day) + " "@
                + two_digits(hour) + ":"@ + two_digits(minute)
            &&& minute_text(moment) == year_text(year) + "-"@ + recent_text(moment)
        }),
{
    let moment = (day_number(year, month, day) - epoch_day()) * 86400 + hour * 3600 + minute * 60
        + second;
    let number = day_number(year, month, day);
    a_moment_comes_apart(number - epoch_day(), hour, minute, second);
    assert(date_of(moment) == (year, month, day)) by {
        assert(number == moment / 86400 + epoch_day());
        let (y, m, d) = date_of(moment);
        assert(is_date(y, m, d) && day_number(y, m, d) == number);
        a_day_has_one_date((y, m, d), (year, month, day));
    }
}

/// A month's name is three letters long and no other month's.
pub proof fn months_have_their_own_names(a: int, b: int)
    requires
        1 <= a <= 12,
        1 <= b <= 12,
    ensures
        month_name(a).len() == 3,
        month_name(a) == month_name(b) ==> a == b,
{
    reveal_strlit("Jan");
    reveal_strlit("Feb");
    reveal_strlit("Mar");
    reveal_strlit("Apr");
    reveal_strlit("May");
    reveal_strlit("Jun");
    reveal_strlit("Jul");
    reveal_strlit("Aug");
    reveal_strlit("Sep");
    reveal_strlit("Oct");
    reveal_strlit("Nov");
    reveal_strlit("Dec");
    let one = month_name(a);
    let other = month_name(b);
    assert(one == other ==> one[0] == other[0] && one[1] == other[1] && one[2] == other[2]);
}

/// The calendar goes on by one day from month to month and from year to year: the day after a
/// date has the next number.
pub proof fn the_next_day_has_the_next_number(year: int, month: int, day: int)
    requires
        is_date(year, month, day),
    ensures
        day < month_length(year, month) ==> is_date(year, month, day + 1) && day_number(
            year,
            month,
            day + 1,
        ) == day_number(year, month, day) + 1,
        day == month_length(year, month) && month < 12 ==> is_date(year, month + 1, 1)
            && day_number(year, month + 1, 1) == day_number(year, month, day) + 1,
        day == month_length(year, month) && month == 12 ==> is_date(year + 1, 1, 1) && day_number(
            year + 1,
            1,
            1,
        ) == day_number(year, month, day) + 1,
{
    if month == 12 {
        a_year_has_365_or_366_days(year);
    }
}

/// How long a year is, by its months and by the count of days before it.
proof fn a_year_has_365_or_366_days(year: int)
    ensures
        days_before_month(year, 12) + 31 == if leap(year) {
            366int
        } else {
            365
        },
        days_before_year(year + 1) - days_before_year(year) == if leap(year) {
            366int
        } else {
            365
        },
{
    reveal_with_fuel(days_before_month, 13);
}

/// The months of a year follow one another.
proof fn months_follow_one_another(year: int, a: int, b: int)
    requires
        1 <= a < b <= 12,
    ensures
        days_before_month(year, a) + month_length(year, a) <= days_before_month(year, b),
    decreases b,
{
    if a < b - 1 {
        months_follow_one_another(year, a, b - 1);
    }
}

/// The days of a year lie between its first and the first of the next.
proof fn a_date_lies_in_its_year(year: int, month: int, day: int)
    requires
        is_date(year, month, day),
    ensures
        days_before_year(year) < day_number(year, month, day) <= days_before_year(year + 1),
{
    a_year_has_365_or_366_days(year);
    if month > 1 {
        months_follow_one_another(year, 1, month);
    }
    if month < 12 {
        months_follow_one_another(year, month, 12);
    }
}

/// Years follow one another.
proof fn years_follow_one_another(a: int, b: int)
    requires
        a < b,
    ensures
        days_before_year(a + 1) <= days_before_year(b),
    decreases b - a,
{
    if a + 1 < b {
        years_follow_one_another(a, b - 1);
        a_year_has_365_or_366_days(b - 1);
    }
}

/// Whether one date comes before another.
pub open spec fn earlier(a: (int, int, int), b: (int, int, int)) -> bool {
    a.0 < b.0 || a.0 == b.0 && (a.1 < b.1 || a.1 == b.1 && a.2 < b.2)
}

/// A later date is a later moment.
pub proof fn a_later_date_is_a_later_moment(a: (int, int, int), b: (int, int, int))
    requires
        is_date(a.0, a.1, a.2),
        is_date(b.0, b.1, b.2),
        earlier(a, b),
    ensures
        day_number(a.0, a.1, a.2) < day_number(b.0, b.1, b.2),
        midday(a.0, a.1, a.2) < midday(b.0, b.1, b.2),
{
    a_date_lies_in_its_year(a.0, a.1, a.2);
    a_date_lies_in_its_year(b.0, b.1, b.2);
    if a.0 < b.0 {
        years_follow_one_another(a.0, b.0);
    } else if a.1 < b.1 {
        months_follow_one_another(a.0, a.1, b.1);
    }
}

/// Two dates with one number are one date.
pub proof fn a_day_has_one_date(a: (int, int, int), b: (int, int, int))
    requires
        is_date(a.0, a.1, a.2),
        is_date(b.0, b.1, b.2),
        day_number(a.0, a.1, a.2) == day_number(b.0, b.1, b.2),
    ensures
        a == b,
{
    if earlier(a, b) {
        a_later_date_is_a_later_moment(a, b);
    } else if earlier(b, a) {
        a_later_date_is_a_later_moment(b, a);
    }
}

/// Every day has a date.
pub proof fn every_day_has_a_date(number: int)
    ensures
        exists|year: int, month: int, day: int|
            #![trigger day_number(year, month, day)]
            is_date(year, month, day) && day_number(year, month, day) == number,
    decreases
            if number >= 1 {
                number
            } else {
                2 - number
            },
{
    if number == 1 {
        assert(is_date(1, 1, 1) && day_number(1, 1, 1) == number);
    } else if number > 1 {
        every_day_has_a_date(number - 1);
        let (year, month, day) = choose|year: int, month: int, day: int|
            #![trigger day_number(year, month, day)]
            is_date(year, month, day) && day_number(year, month, day) == number - 1;
        the_next_day_has_the_next_number(year, month, day);
        if day < month_length(year, month) {
            assert(day_number(year, month, day + 1) == number);
        } else if month < 12 {
            assert(day_number(year, month + 1, 1) == number);
        } else {
            assert(day_number(year + 1, 1, 1) == number);
        }
    } else {
        every_day_has_a_date(number + 1);
        let (year, month, day) = choose|year: int, month: int, day: int|
            #![trigger day_number(year, month, day)]
            is_date(year, month, day) && day_number(year, month, day) == number + 1;
        if day > 1 {
            the_next_day_has_the_next_number(year, month, day - 1);
            assert(is_date(year, month, day - 1));
            assert(day_number(year, month, day - 1) == number);
        } else if month > 1 {
            let last = month_length(year, month - 1);
            the_next_day_has_the_next_number(year, month - 1, last);
            assert(is_date(year, month - 1, last));
            assert(day_number(year, month - 1, last) == number);
        } else {
            the_next_day_has_the_next_number(year - 1, 12, 31);
            assert(is_date(year - 1, 12, 31));
            assert(day_number(year - 1, 12, 31) == number);
        }
    }
}

/// Whether a character parts the fields of a date.
pub open spec fn parts_fields(c: char) -> bool {
    c == '.' || c == '-' || c == '/'
}

/// Where the field that begins at `from` ends.
pub open spec fn field_end(text: Seq<char>, from: int) -> int
    decreases text.len() - from,
{
    if from >= text.len() || parts_fields(text[from]) {
        from
    } else {
        field_end(text, from + 1)
    }
}

/// Whether a character is a decimal digit.
pub open spec fn is_digit(c: char) -> bool {
    '0' <= c <= '9'
}

/// The number that a run of digits stands for.
pub open spec fn digits_value(text: Seq<char>) -> nat
    decreases text.len(),
{
    if text.len() == 0 {
        0
    } else {
        10 * digits_value(text.drop_last()) + (text.last() as nat - 48) as nat
    }
}

/// A field without the plus sign that may stand in front of it.
pub open spec fn without_plus(field: Seq<char>) -> Seq<char> {
    if field.len() > 0 && field[0] == '+' {
        field.skip(1)
    } else {
        field
    }
}

/// The number that a field holds: digits and nothing else, behind an optional plus sign, and no
/// more than `most`.
pub open spec fn field_number(field: Seq<char>, most: nat) -> Option<nat> {
    let digits = without_plus(field);
    if digits.len() > 0 && (forall|i: int| 0 <= i < digits.len() ==> is_digit(#[trigger] digits[i]))
        && digits_value(digits) <= most {
        Some(digits_value(digits))
    } else {
        None
    }
}

/// The year, month and day that a text holds in its first three fields.
pub open spec fn date_fields(text: Seq<char>) -> Option<(nat, nat, nat)> {
    let a = field_end(text, 0);
    let b = field_end(text, a + 1);
    let c = field_end(text, b + 1);
    if a < text.len() && b < text.len() {
        match (
            field_number(text.subrange(0, a), i32::MAX as nat),
            field_number(text.subrange(a + 1, b), u32::MAX as nat),
            field_number(text.subrange(b + 1, c), u32::MAX as nat),
        ) {
            (Some(year), Some(month), Some(day)) => Some((year, month, day)),
            _ => None,
        }
    } else {
        None
    }
}

/// The moment that a record's date stands for: its midday.
pub open spec fn date_moment(date: Option<Seq<char>>) -> Option<int> {
    match date {
        Some(text) => match date_fields(text) {
            Some((year, month, day)) => if in_calendar(year as int) && is_date(
                year as int,
                month as int,
                day as int,
            ) {
                Some(midday(year as int, month as int, day as int))
            } else {
                None
            },
            None => None,
        },
        None => None,
    }
}

/// A date that can be read lands on its own day, at midday.
pub proof fn a_date_is_read_as_its_midday(date: Option<Seq<char>>)
    ensures
        date_moment(date) matches Some(moment) ==> {
            &&& moment % 86400 == 43200
            &&& date_fields(date->0) matches Some((year, month, day)) && is_date(
                year as int,
                month as int,
                day as int,
            ) && moment / 86400 + epoch_day() == day_number(year as int, month as int, day as int)
        },
{
}

/// A field ends where nothing before parts it and something there does, or the text ends.
proof fn a_field_ends_at_its_separator(text: Seq<char>, from: int, end: int)
    requires
        0 <= from <= end <= text.len(),
        forall|i: int| from <= i < end ==> !parts_fields(#[trigger] text[i]),
        end == text.len() || parts_fields(text[end]),
    ensures
        field_end(text, from) == end,
    decreases end - from,
{
    if from < end {
        a_field_ends_at_its_separator(text, from + 1, end);
    }
}

/// A row of digits stands for what it is worth.
proof fn digits_are_worth_their_number(text: Seq<char>)
    requires
        forall|i: int| 0 <= i < text.len() ==> '0' <= #[trigger] text[i] <= '9',
    ensures
        digits_value(text) == crate::text::worth(text),
    decreases text.len(),
{
    if text.len() > 0 {
        digits_are_worth_their_number(text.drop_last());
        assert('0' <= text[text.len() - 1] <= '9');
    }
}

/// A date of the calendar that is written in digits is read as the midday of that very date: the
/// year, the month and the day in this order, whatever zeros stand in front of them, with a dot, a
/// dash or a stroke between them, and whatever follows behind another of these. Digits that make no
/// date are not read as one.
pub proof fn a_written_date_is_read_back(
    years: Seq<char>,
    months: Seq<char>,
    days: Seq<char>,
    first: char,
    second: char,
    rest: Seq<char>,
)
    requires
        years.len() > 0,
        months.len() > 0,
        days.len() > 0,
        forall|i: int| 0 <= i < years.len() ==> '0' <= #[trigger] years[i] <= '9',
        forall|i: int| 0 <= i < months.len() ==> '0' <= #[trigger] months[i] <= '9',
        forall|i: int| 0 <= i < days.len() ==> '0' <= #[trigger] days[i] <= '9',
        first == '.' || first == '-' || first == '/',
        second == '.' || second == '-' || second == '/',
        rest.len() == 0 || rest[0] == '.' || rest[0] == '-' || rest[0] == '/',
    ensures
        ({
            let year = crate::text::worth(years);
            let month = crate::text::worth(months);
            let day = crate::text::worth(days);
            date_moment(Some(years + seq![first] + months + seq![second] + days + rest)) == if year
                <= 262142 && is_date(year, month, day) {
                Some(midday(year, month, day))
            } else {
                None
            }
        }),
{
    let text = years + seq![first] + months + seq![second] + days + rest;
    let a = years.len() as int;
    let b = a + 1 + months.len();
    let c = b + 1 + days.len();
    assert forall|i: int| 0 <= i < a implies !parts_fields(#[trigger] text[i]) by {
        assert(text[i] == years[i]);
    }
    assert forall|i: int| a + 1 <= i < b implies !parts_fields(#[trigger] text[i]) by {
        assert(text[i] == months[i - a - 1]);
    }
    assert forall|i: int| b + 1 <= i < c implies !parts_fields(#[trigger] text[i]) by {
        assert(text[i] == days[i - b - 1]);
    }
    assert(text[a] == first);
    assert(text[b] == second);
    if rest.len() > 0 {
        assert(text[c] == rest[0]);
    }
    a_field_ends_at_its_separator(text, 0, a);
    a_field_ends_at_its_separator(text, a + 1, b);
    a_field_ends_at_its_separator(text, b + 1, c);
    assert(text.subrange(0, a) =~= years);
    assert(text.subrange(a + 1, b) =~= months);
    assert(text.subrange(b + 1, c) =~= days);
    assert('0' <= years[0] <= '9' && '0' <= months[0] <= '9' && '0' <= days[0] <= '9');
    digits_are_worth_their_number(years);
    digits_are_worth_their_number(months);
    digits_are_worth_their_number(days);
}

/// A field's end lies at or behind its beginning, and within the text.
proof fn field_end_bounds(text: Seq<char>, from: int)
    requires
        0 <= from <= text.len(),
    ensures
        from <= field_end(text, from) <= text.len(),
        forall|i: int| from <= i < field_end(text, from) ==> !parts_fields(#[trigger] text[i]),
        field_end(text, from) < text.len() ==> parts_fields(text[field_end(text, from)]),
    decreases text.len() - from,
{
    if from < text.len() && !parts_fields(text[from]) {
        field_end_bounds(text, from + 1);
    }
}

/// Find the end of a field.
fn find_field_end(text: &str, len: usize, from: usize) -> (r: usize)
    requires
        from <= len,
        len == text@.len(),
    ensures
        r == field_end(text@, from as int),
        from <= r <= len,
{
    let mut at: usize = from;
    while at < len && !is_separator(text.get_char(at))
        invariant
            from <= at <= len,
            len == text@.len(),
            field_end(text@, from as int) == field_end(text@, at as int),
        decreases len - at,
    {
        at += 1;
    }
    at
}

/// Whether a character parts the fields of a date.
fn is_separator(c: char) -> (r: bool)
    ensures
        r == parts_fields(c),
{
    c == '.' || c == '-' || c == '/'
}

/// Read the number of a field.
fn read_field(text: &str, from: usize, to: usize, most: u32) -> (r: Option<u32>)
    requires
        from <= to <= text@.len(),
    ensures
        r is Some <==> field_number(text@.subrange(from as int, to as int), most as nat) is Some,
        r matches Some(n) ==> n == field_number(
            text@.subrange(from as int, to as int),
            most as nat,
        )->0,
{
    let ghost field = text@.subrange(from as int, to as int);
    let ghost digits = without_plus(field);
    let start: usize = if from < to && text.get_char(from) == '+' {
        from + 1
    } else {
        from
    };
    assert(digits =~= text@.subrange(start as int, to as int));
    if start == to {
        return None;
    }
    let mut at: usize = start;
    let mut value: u64 = 0;
    let mut over: bool = false;
    while at < to
        invariant
            start <= at <= to <= text@.len(),
            digits == text@.subrange(start as int, to as int),
            digits == without_plus(field),
            field == text@.subrange(from as int, to as int),
            forall|i: int| 0 <= i < at - start ==> is_digit(#[trigger] digits[i]),
            !over ==> value == digits_value(digits.take(at - start)) && value <= most,
            over ==> digits_value(digits.take(at - start)) > most,
        decreases to - at,
    {
        let c = text.get_char(at);
        assert(digits[at - start] == c);
        if c < '0' || c > '9' {
            assert(!is_digit(digits[at - start]));
            return None;
        }
        assert(digits.take(at + 1 - start).drop_last() =~= digits.take(at - start));
        if !over {
            value = 10 * value + (c as u64 - 48);
            if value > most as u64 {
                over = true;
            }
        }
        at += 1;
    }
    assert(digits.take(at - start) =~= digits);
    if over {
        None
    } else {
        Some(value as u32)
    }
}

/// Read a record's date. Dates are written `YYYY.MM.DD`; anything else is left to the caller.
///
/// What comes back is the moment, in seconds since the first of January 1970, of that date's
/// midday.
pub fn parse_date(date: Option<&str>) -> (r: Option<i64>)
    ensures
        r is Some <==> date_moment(
            match date {
                Some(text) => Some(text@),
                None => None,
            },
        ) is Some,
        r matches Some(moment) ==> moment == date_moment(Some(date->0@))->0,
{
    let text = match date {
        Some(text) => text,
        None => {
            return None;
        },
    };
    let len = text.unicode_len();
    let a = find_field_end(text, len, 0);
    if a >= len {
        return None;
    }
    let b = find_field_end(text, len, a + 1);
    if b >= len {
        return None;
    }
    let c = find_field_end(text, len, b + 1);
    match (
        read_field(text, 0, a, i32::MAX as u32),
        read_field(text, a + 1, b, u32::MAX),
        read_field(text, b + 1, c, u32::MAX),
    ) {
        (Some(year), Some(month), Some(day)) => utc_midday(year as i32, month, day),
        _ => None,
    }
}

} // verus!
