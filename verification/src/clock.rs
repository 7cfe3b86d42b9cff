//! Civil time at a longitude: what a calendar and a clock show there.

use chrono::{DateTime, Datelike, FixedOffset, TimeDelta, Timelike};
use vstd::prelude::*;

use crate::meridian::Longitude;

verus! {

/// The first year of the supported calendar.
pub const FIRST_YEAR: i64 = -262_143;

/// The year after the last one of the supported calendar.
pub const END_YEAR: i64 = 262_143;

/// Leap days of the proleptic Gregorian calendar from year 1 up to, and without, `year`.
pub open spec fn leap_days_before(year: int) -> int {
    (year - 1) / 4 - (year - 1) / 100 + (year - 1) / 400
}

/// Days from 1 January 1970 to 1 January of `year`.
pub open spec fn days_before_year(year: int) -> int {
    365 * (year - 1970) + leap_days_before(year) - leap_days_before(1970)
}

/// `year` has a 29 February.
pub open spec fn is_leap_year(year: int) -> bool {
    year % 4 == 0 && (year % 100 != 0 || year % 400 == 0)
}

/// The number of days in `year`.
pub open spec fn days_in_year(year: int) -> int {
    if is_leap_year(year) {
        366
    } else {
        365
    }
}

/// `day`, counted from 1 January 1970, lies in `year`.
pub open spec fn day_in_year(day: int, year: int) -> bool {
    days_before_year(year) <= day < days_before_year(year + 1)
}

/// The year that holds `day`.
pub open spec fn year_of_day(day: int) -> int {
    choose|year: int| #[trigger] day_in_year(day, year)
}

/// The place of `day` in its year, from 1.
pub open spec fn ordinal_of_day(day: int) -> int {
    day - days_before_year(year_of_day(day)) + 1
}

/// The days of a year before `month`, from 1; the month after the last counts too.
pub open spec fn days_before_month(month: int, leap: bool) -> int {
    let days = seq![0int, 31, 59, 90, 120, 151, 181, 212, 243, 273, 304, 334, 365][month - 1];
    if leap && month > 2 {
        days + 1
    } else {
        days
    }
}

/// The day at `ordinal`, from 1, of a year lies in `month`.
pub open spec fn ordinal_in_month(ordinal: int, leap: bool, month: int) -> bool {
    1 <= month <= 12 && days_before_month(month, leap) < ordinal <= days_before_month(
        month + 1,
        leap,
    )
}

/// The month, from 1, that holds `day`.
pub open spec fn month_of_day(day: int) -> int {
    choose|month: int|
        #[trigger] ordinal_in_month(ordinal_of_day(day), is_leap_year(year_of_day(day)), month)
}

/// The place of `day` in its month, from 1.
pub open spec fn day_of_month(day: int) -> int {
    ordinal_of_day(day) - days_before_month(month_of_day(day), is_leap_year(year_of_day(day)))
}

/// A number below a hundred in two digits.
pub open spec fn two_digits(number: int) -> Seq<char> {
    seq![
        crate::text::digit_char((number / 10) as nat),
        crate::text::digit_char((number % 10) as nat),
    ]
}

/// A year in at least four digits; only one that needs no more goes without a sign.
pub open spec fn year_text(year: int) -> Seq<char> {
    let size = if year < 0 {
        -year
    } else {
        year
    };
    let digits = if size < 10_000 {
        two_digits(size / 100) + two_digits(size % 100)
    } else {
        crate::text::decimal(size as nat)
    };
    if year < 0 {
        "-"@ + digits
    } else if year < 10_000 {
        digits
    } else {
        "+"@ + digits
    }
}

/// A day as year, month and day of the month.
pub open spec fn date_text(day: int) -> Seq<char> {
    year_text(year_of_day(day)) + "-"@ + two_digits(month_of_day(day)) + "-"@ + two_digits(
        day_of_month(day),
    )
}

/// Seconds since midnight as hours, minutes and seconds.
pub open spec fn time_text(seconds: int) -> Seq<char> {
    two_digits(seconds / 3600) + ":"@ + two_digits(seconds % 3600 / 60) + ":"@ + two_digits(
        seconds % 60,
    )
}

/// A count of milliseconds since the Unix epoch lies in the supported calendar.
pub open spec fn millis_in_calendar(millis: int) -> bool {
    days_before_year(FIRST_YEAR as int) * 86_400_000 <= millis < days_before_year(END_YEAR as int)
        * 86_400_000
}

/// An offset from UTC is shorter than a day.
pub open spec fn offset_in_range(offset_seconds: int) -> bool {
    -86_400 < offset_seconds < 86_400
}

/// Whole seconds that a clock at the offset shows, counted from the start of 1970.
pub open spec fn local_seconds(utc_millis: int, offset_seconds: int) -> int {
    utc_millis / 1000 + offset_seconds
}

/// The day that a calendar at the offset shows, counted from 1 January 1970.
pub open spec fn local_day(utc_millis: int, offset_seconds: int) -> int {
    local_seconds(utc_millis, offset_seconds) / 86_400
}

/// Seconds since local midnight.
pub open spec fn second_of_day(utc_millis: int, offset_seconds: int) -> int {
    local_seconds(utc_millis, offset_seconds) % 86_400
}

/// A moment together with the offset, in seconds east of UTC, of the clock that shows it.
#[derive(Clone, Copy, Debug, PartialEq, Eq, Structural)]
pub struct LocalTime {
    /// Milliseconds since the Unix epoch.
    pub utc_millis: i64,
    /// Seconds that the local clock is ahead of UTC.
    pub offset_seconds: i32,
}

/// What a clock and a calendar show, as far as the position of the sun depends on it.
#[derive(Clone, Copy, Debug, PartialEq, Eq, Structural)]
pub struct CivilTime {
    pub days_in_year: u32,
    /// Day of the year, from 1.
    pub ordinal: u32,
    pub hour: u32,
    pub minute: u32,
    pub second: u32,
    /// Seconds that the clock is ahead of UTC.
    pub offset_seconds: i32,
}

impl LocalTime {
    /// The moment lies in the supported calendar and the offset is shorter than a day.
    pub open spec fn wf(self) -> bool {
        millis_in_calendar(self.utc_millis as int) && offset_in_range(self.offset_seconds as int)
    }

    /// The local date lies in the supported calendar too.
    pub open spec fn has_date(self) -> bool {
        millis_in_calendar(self.utc_millis + 1000 * self.offset_seconds)
    }

    /// The day of the local date, counted from 1 January 1970.
    pub open spec fn day(self) -> int {
        local_day(self.utc_millis as int, self.offset_seconds as int)
    }

    /// Seconds since local midnight.
    pub open spec fn time_of_day(self) -> int {
        second_of_day(self.utc_millis as int, self.offset_seconds as int)
    }

    /// The local date and time in words.
    pub open spec fn text(self) -> Seq<char> {
        date_text(self.day()) + " "@ + time_text(self.time_of_day())
    }

    /// `civil` is what the local calendar and clock show.
    pub open spec fn shows(self, civil: CivilTime) -> bool {
        &&& civil.days_in_year == days_in_year(year_of_day(self.day()))
        &&& civil.ordinal == ordinal_of_day(self.day())
        &&& civil.hour == self.time_of_day() / 3600
        &&& civil.minute == self.time_of_day() % 3600 / 60
        &&& civil.second == self.time_of_day() % 60
        &&& civil.offset_seconds == self.offset_seconds
    }

    /// What the local calendar and clock show, or `None` where the local date lies outside the
    /// supported calendar.
    pub fn civil(self) -> (civil: Option<CivilTime>)
        requires
            self.wf(),
        ensures
            civil is Some <==> self.has_date(),
            civil matches Some(shown) ==> self.shows(shown),
    {
        if !is_timestamp(self.utc_millis + 1000 * (self.offset_seconds as i64)) {
            return None;
        }
        let leap = has_ordinal(self.utc_millis, self.offset_seconds, 366);
        proof {
            law_every_day_lies_in_one_year(self.day());
        }
        Some(
            CivilTime {
                days_in_year: if leap {
                    366
                } else {
                    365
                },
                ordinal: ordinal(self.utc_millis, self.offset_seconds),
                hour: hour(self.utc_millis, self.offset_seconds),
                minute: minute(self.utc_millis, self.offset_seconds),
                second: second(self.utc_millis, self.offset_seconds),
                offset_seconds: self.offset_seconds,
            },
        )
    }

    /// The same clock `minutes` later, or `None` where that leaves the supported calendar.
    pub fn plus_minutes(self, minutes: i64) -> (later: Option<LocalTime>)
        requires
            self.wf(),
        ensures
            later == if millis_in_calendar(self.utc_millis + 60_000 * minutes) {
                Some(
                    LocalTime {
                        utc_millis: (self.utc_millis + 60_000 * minutes) as i64,
                        offset_seconds: self.offset_seconds,
                    },
                )
            } else {
                None
            },
            later matches Some(time) ==> time.wf(),
    {
        match add_minutes(self.utc_millis, self.offset_seconds, minutes) {
            Some(utc_millis) => Some(
                LocalTime { utc_millis, offset_seconds: self.offset_seconds },
            ),
            None => None,
        }
    }

    /// Date and time of day as `YYYY-MM-DD HH:MM:SS`.
    pub fn format(self) -> (text: String)
        requires
            self.wf(),
        ensures
            text@ == self.text(),
    {
        format_time(self.utc_millis, self.offset_seconds, "%Y-%m-%d %H:%M:%S")
    }
}

/// The local mean time of a longitude. `None` where its clock would be a day or more away from
/// UTC, which no longitude from -180 to 180 degrees is, or where the moment lies outside the
/// supported calendar.
pub fn longitude_local_time(utc_millis: i64, longitude: Longitude) -> (time: Option<LocalTime>)
    ensures
        time == if millis_in_calendar(utc_millis as int) && offset_in_range(
            longitude.spec_clock_offset() as int,
        ) {
            Some(LocalTime { utc_millis, offset_seconds: longitude.spec_clock_offset() })
        } else {
            None
        },
        time matches Some(local) ==> local.wf(),
{
    let offset_seconds: i32 = longitude.clock_offset();
    if is_timestamp(utc_millis) && is_offset(offset_seconds) {
        Some(LocalTime { utc_millis, offset_seconds })
    } else {
        None
    }
}

/// Calls `chrono::DateTime::from_timestamp_millis`, which finds a date for exactly the counts of
/// milliseconds in its range of years.
#[verifier::external_body]
fn is_timestamp(millis: i64) -> (found: bool)
    ensures
        found == millis_in_calendar(millis as int),
{
    DateTime::from_timestamp_millis(millis).is_some()
}

/// Calls `chrono::FixedOffset::east_opt`, which accepts exactly the offsets shorter than a day.
#[verifier::external_body]
fn is_offset(offset_seconds: i32) -> (accepted: bool)
    ensures
        accepted == offset_in_range(offset_seconds as int),
{
    FixedOffset::east_opt(offset_seconds).is_some()
}

/// Calls `chrono::Timelike::hour` on the moment as seen at the offset: the hour of the local
/// clock, from 0 to 23.
#[verifier::external_body]
fn hour(utc_millis: i64, offset_seconds: i32) -> (hour: u32)
    requires
        millis_in_calendar(utc_millis as int),
        offset_in_range(offset_seconds as int),
    ensures
        hour == second_of_day(utc_millis as int, offset_seconds as int) / 3600,
{
    let offset = FixedOffset::east_opt(offset_seconds).unwrap();
    DateTime::from_timestamp_millis(utc_millis).unwrap().with_timezone(&offset).hour()
}

/// Calls `chrono::Timelike::minute` on the moment as seen at the offset: the minute of the local
/// clock, from 0 to 59.
#[verifier::external_body]
fn minute(utc_millis: i64, offset_seconds: i32) -> (minute: u32)
    requires
        millis_in_calendar(utc_millis as int),
        offset_in_range(offset_seconds as int),
    ensures
        minute == second_of_day(utc_millis as int, offset_seconds as int) % 3600 / 60,
{
    let offset = FixedOffset::east_opt(offset_seconds).unwrap();
    DateTime::from_timestamp_millis(utc_millis).unwrap().with_timezone(&offset).minute()
}

/// Calls `chrono::Timelike::second` on the moment as seen at the offset: the second of the local
/// clock, from 0 to 59 (a count of milliseconds holds no leap second).
#[verifier::external_body]
fn second(utc_millis: i64, offset_seconds: i32) -> (second: u32)
    requires
        millis_in_calendar(utc_millis as int),
        offset_in_range(offset_seconds as int),
    ensures
        second == second_of_day(utc_millis as int, offset_seconds as int) % 60,
{
    let offset = FixedOffset::east_opt(offset_seconds).unwrap();
    DateTime::from_timestamp_millis(utc_millis).unwrap().with_timezone(&offset).second()
}

/// Calls `chrono::Datelike::ordinal` on the moment as seen at the offset: the place of the local
/// date in its year, from 1.
#[verifier::external_body]
fn ordinal(utc_millis: i64, offset_seconds: i32) -> (ordinal: u32)
    requires
        millis_in_calendar(utc_millis as int),
        offset_in_range(offset_seconds as int),
    ensures
        ordinal == ordinal_of_day(local_day(utc_millis as int, offset_seconds as int)),
{
    let offset = FixedOffset::east_opt(offset_seconds).unwrap();
    DateTime::from_timestamp_millis(utc_millis).unwrap().with_timezone(&offset).ordinal()
}

/// Calls `chrono::NaiveDate::with_ordinal` on the local date: whether its year has a day of that
/// number. The local date itself has to lie in the calendar, else taking it panics.
#[verifier::external_body]
fn has_ordinal(utc_millis: i64, offset_seconds: i32, ordinal: u32) -> (exists_in_year: bool)
    requires
        millis_in_calendar(utc_millis as int),
        offset_in_range(offset_seconds as int),
        millis_in_calendar(utc_millis + 1000 * offset_seconds),
    ensures
        exists_in_year == (1 <= ordinal <= days_in_year(
            year_of_day(local_day(utc_millis as int, offset_seconds as int)),
        )),
{
    let offset = FixedOffset::east_opt(offset_seconds).unwrap();
    let time = DateTime::from_timestamp_millis(utc_millis).unwrap().with_timezone(&offset);
    time.date_naive().with_ordinal(ordinal).is_some()
}

/// Calls `chrono::DateTime::checked_add_signed` with `chrono::TimeDelta::try_minutes`: the moment
/// that many minutes later in milliseconds since the Unix epoch, or `None` where it lies outside
/// the calendar.
#[verifier::external_body]
fn add_minutes(utc_millis: i64, offset_seconds: i32, minutes: i64) -> (sum: Option<i64>)
    requires
        millis_in_calendar(utc_millis as int),
        offset_in_range(offset_seconds as int),
    ensures
        sum == if millis_in_calendar(utc_millis + 60_000 * minutes) {
            Some((utc_millis + 60_000 * minutes) as i64)
        } else {
            None
        },
{
    let offset = FixedOffset::east_opt(offset_seconds).unwrap();
    let time = DateTime::from_timestamp_millis(utc_millis).unwrap().with_timezone(&offset);
    let delta = TimeDelta::try_minutes(minutes)?;
    Some(time.checked_add_signed(delta)?.timestamp_millis())
}

/// Calls `chrono::DateTime::format` on the moment as seen at the offset, with the one pattern for
/// year, month, day, hour, minute and second: each has two digits, the year at least four, and a
/// year of more than four digits or before year 0 has a sign. The local date may lie a day outside
/// the calendar. Other patterns are left out because they write something else, or panic.
#[verifier::external_body]
fn format_time(utc_millis: i64, offset_seconds: i32, pattern: &str) -> (text: String)
    requires
        millis_in_calendar(utc_millis as int),
        offset_in_range(offset_seconds as int),
        pattern@ == "%Y-%m-%d %H:%M:%S"@,
    ensures
        text@ == date_text(local_day(utc_millis as int, offset_seconds as int)) + " "@ + time_text(
            second_of_day(utc_millis as int, offset_seconds as int),
        ),
{
    let offset = FixedOffset::east_opt(offset_seconds).unwrap();
    let time = DateTime::from_timestamp_millis(utc_millis).unwrap().with_timezone(&offset);
    time.format(pattern).to_string()
}

/// Counting up by one passes a multiple of `divisor` only at one.
proof fn lemma_next_multiple(value: int, divisor: int)
    requires
        divisor > 1,
    ensures
        value / divisor - (value - 1) / divisor == if value % divisor == 0 {
            1int
        } else {
            0int
        },
{
    let whole = value / divisor;
    let rest = value % divisor;
    vstd::arithmetic::div_mod::lemma_fundamental_div_mod(value, divisor);
    assert((whole - 1) * divisor == divisor * whole - divisor) by (nonlinear_arith);
    assert(whole * divisor == divisor * whole) by (nonlinear_arith);
    if rest == 0 {
        vstd::arithmetic::div_mod::lemma_fundamental_div_mod_converse(
            value - 1,
            divisor,
            whole - 1,
            divisor - 1,
        );
    } else {
        vstd::arithmetic::div_mod::lemma_fundamental_div_mod_converse(
            value - 1,
            divisor,
            whole,
            rest - 1,
        );
    }
}

/// A year is as long as the calendar says: 366 days in leap years, else 365.
pub proof fn law_year_length(year: int)
    ensures
        days_before_year(year + 1) - days_before_year(year) == days_in_year(year),
{
    lemma_next_multiple(year, 4);
    lemma_next_multiple(year, 100);
    lemma_next_multiple(year, 400);
    vstd::arithmetic::div_mod::lemma_mod_mod(year, 4, 25);
    vstd::arithmetic::div_mod::lemma_mod_mod(year, 100, 4);
}

/// Some year, from `year` on, holds `day`.
proof fn lemma_year_found_from(day: int, year: int) -> (found: int)
    requires
        days_before_year(year) <= day,
    ensures
        day_in_year(day, found),
    decreases day - days_before_year(year),
{
    law_year_length(year);
    if day < days_before_year(year + 1) {
        year
    } else {
        lemma_year_found_from(day, year + 1)
    }
}

/// Some year, up to `year`, starts on or before `day`.
proof fn lemma_year_starts_before(day: int, year: int) -> (found: int)
    ensures
        days_before_year(found) <= day,
    decreases (if days_before_year(year) <= day { 0 } else { days_before_year(year) - day }),
{
    if days_before_year(year) <= day {
        year
    } else {
        law_year_length(year - 1);
        lemma_year_starts_before(day, year - 1)
    }
}

/// Later years start later.
proof fn lemma_years_in_order(earlier: int, later: int)
    requires
        earlier <= later,
    ensures
        days_before_year(earlier) <= days_before_year(later),
    decreases later - earlier,
{
    if earlier < later {
        law_year_length(later - 1);
        lemma_years_in_order(earlier, later - 1);
    }
}

/// Every day lies in exactly one year, and its place there is between 1 and the length of the
/// year.
pub proof fn law_every_day_lies_in_one_year(day: int)
    ensures
        day_in_year(day, year_of_day(day)),
        forall|year: int| #[trigger] day_in_year(day, year) ==> year == year_of_day(day),
        1 <= ordinal_of_day(day) <= days_in_year(year_of_day(day)),
{
    let start = lemma_year_starts_before(day, 1970);
    let found = lemma_year_found_from(day, start);
    let chosen = year_of_day(day);
    assert(day_in_year(day, chosen));
    assert forall|year: int| #[trigger] day_in_year(day, year) implies year == chosen by {
        if year < chosen {
            lemma_years_in_order(year + 1, chosen);
        } else if chosen < year {
            lemma_years_in_order(chosen + 1, year);
        }
    }
    law_year_length(chosen);
}

/// Every day lies in exactly one month, and its place there is between 1 and 31.
pub proof fn law_every_day_lies_in_one_month(day: int)
    ensures
        1 <= month_of_day(day) <= 12,
        1 <= day_of_month(day) <= 31,
        ordinal_in_month(
            ordinal_of_day(day),
            is_leap_year(year_of_day(day)),
            month_of_day(day),
        ),
        forall|month: int|
            #[trigger] ordinal_in_month(
                ordinal_of_day(day),
                is_leap_year(year_of_day(day)),
                month,
            ) ==> month == month_of_day(day),
{
    law_every_day_lies_in_one_year(day);
    let ordinal = ordinal_of_day(day);
    let leap = is_leap_year(year_of_day(day));
    assert(ordinal_in_month(ordinal, leap, 1) || ordinal_in_month(ordinal, leap, 2)
        || ordinal_in_month(ordinal, leap, 3) || ordinal_in_month(ordinal, leap, 4)
        || ordinal_in_month(ordinal, leap, 5) || ordinal_in_month(ordinal, leap, 6)
        || ordinal_in_month(ordinal, leap, 7) || ordinal_in_month(ordinal, leap, 8)
        || ordinal_in_month(ordinal, leap, 9) || ordinal_in_month(ordinal, leap, 10)
        || ordinal_in_month(ordinal, leap, 11) || ordinal_in_month(ordinal, leap, 12));
    assert(ordinal_in_month(ordinal, leap, month_of_day(day)));
}

/// A clock that is `minutes` further ahead shows what this one shows `minutes` later.
pub proof fn law_moving_east_is_waiting(
    time: LocalTime,
    east: LocalTime,
    later: LocalTime,
    minutes: int,
)
    requires
        east.utc_millis == time.utc_millis,
        east.offset_seconds == time.offset_seconds + 60 * minutes,
        later.utc_millis == time.utc_millis + 60_000 * minutes,
        later.offset_seconds == time.offset_seconds,
    ensures
        east.day() == later.day(),
        east.time_of_day() == later.time_of_day(),
        east.text() == later.text(),
{
}

/// The local date and the seconds since local midnight make up the seconds that have passed since
/// the start of 1970, moved by the offset; a part of a second is left out.
pub proof fn law_local_time_is_moved_by_the_offset(time: LocalTime)
    ensures
        0 <= time.time_of_day() < 86_400,
        ({
            let shown = 86_400 * time.day() + time.time_of_day();
            0 <= time.utc_millis + 1000 * time.offset_seconds - 1000 * shown < 1000
        }),
{
}

/// The calendar reaches from the year -262143 to the year 262142, a clock less than a day to either
/// side of UTC; where the local date itself lies outside, there is none.
pub proof fn law_limits_of_the_calendar(millis: int, offset_seconds: int, time: LocalTime)
    ensures
        millis_in_calendar(millis) <==> -8_334_601_228_800_000 <= millis < 8_210_266_876_800_000,
        offset_in_range(offset_seconds) <==> -86_400 < offset_seconds < 86_400,
        time.wf() <==> millis_in_calendar(time.utc_millis as int) && offset_in_range(
            time.offset_seconds as int,
        ),
        time.has_date() <==> -8_334_601_228_800_000 <= time.utc_millis + 1000
            * time.offset_seconds < 8_210_266_876_800_000,
{
    assert(days_before_year(FIRST_YEAR as int) == -96_465_292);
    assert(days_before_year(END_YEAR as int) == 95_026_237);
}

/// Hour, minute and second make up the time of the day, and year and day of the year make up the
/// date; a year of 366 days has a 29 February.
pub proof fn law_civil_time_makes_up_the_moment(time: LocalTime, civil: CivilTime, year: int)
    requires
        time.shows(civil),
        day_in_year(time.day(), year),
    ensures
        civil.hour < 24,
        civil.minute < 60,
        civil.second < 60,
        3600 * civil.hour + 60 * civil.minute + civil.second == time.time_of_day(),
        civil.days_in_year == days_before_year(year + 1) - days_before_year(year),
        days_before_year(year) + civil.ordinal - 1 == time.day(),
        1 <= civil.ordinal <= civil.days_in_year,
        civil.offset_seconds == time.offset_seconds,
{
    law_local_time_is_moved_by_the_offset(time);
    law_every_day_lies_in_one_year(time.day());
    law_year_length(year);
}

/// The first day of 1970 is day 0, 400 years have 146097 days, and a leap year comes every fourth
/// year but for the centuries, of which only every fourth is one.
pub proof fn law_days_are_counted_from_1970(year: int)
    ensures
        days_before_year(1970) == 0,
        days_before_year(year + 400) - days_before_year(year) == 146_097,
        year % 4 != 0 ==> days_in_year(year) == 365,
        year % 4 == 0 && year % 100 != 0 ==> days_in_year(year) == 366,
        year % 100 == 0 && year % 400 != 0 ==> days_in_year(year) == 365,
        year % 400 == 0 ==> days_in_year(year) == 366,
{
    vstd::arithmetic::div_mod::lemma_hoist_over_denominator(year - 1, 100, 4);
    vstd::arithmetic::div_mod::lemma_hoist_over_denominator(year - 1, 4, 100);
    vstd::arithmetic::div_mod::lemma_hoist_over_denominator(year - 1, 1, 400);
    vstd::arithmetic::div_mod::lemma_mod_mod(year, 4, 25);
    vstd::arithmetic::div_mod::lemma_mod_mod(year, 100, 4);
}

/// The months of a year follow each other: a month has 31 or 30 days, February 28 or in a leap year
/// 29, and together they fill the year.
pub proof fn law_months_fill_the_year(leap: bool)
    ensures
        days_before_month(1, leap) == 0,
        days_before_month(13, leap) == if leap {
            366
        } else {
            365int
        },
        forall|month: int|
            1 <= month <= 12 ==> #[trigger] days_before_month(month + 1, leap) - days_before_month(
                month,
                leap,
            ) == if month == 2 {
                if leap {
                    29
                } else {
                    28int
                }
            } else if month == 4 || month == 6 || month == 9 || month == 11 {
                30
            } else {
                31int
            },
{
}

/// The text of a date names the year, the month and the day of the month that it lies on.
pub proof fn law_date_text_reads_back(day: int, year: int)
    requires
        day_in_year(day, year),
        0 <= year < 10_000,
    ensures
        ({
            let text = date_text(day);
            let month = crate::text::number_of(text.subrange(5, 7));
            let in_month = crate::text::number_of(text.subrange(8, 10));
            &&& text.len() == 10
            &&& text[4] == '-' && text[7] == '-'
            &&& crate::text::number_of(text.subrange(0, 4)) == year
            &&& 1 <= month <= 12
            &&& 1 <= in_month <= days_before_month(month + 1, is_leap_year(year))
                - days_before_month(month, is_leap_year(year))
            &&& days_before_year(year) + days_before_month(month, is_leap_year(year)) + in_month - 1
                == day
        }),
{
    law_every_day_lies_in_one_year(day);
    law_every_day_lies_in_one_month(day);
    reveal_strlit("-");
    let text = date_text(day);
    let leap = is_leap_year(year);
    let month = month_of_day(day);
    assert(year_of_day(day) == year);
    lemma_two_digits(year / 100);
    lemma_two_digits(year % 100);
    lemma_two_digits(month);
    lemma_two_digits(day_of_month(day));
    assert(text.subrange(5, 7) =~= two_digits(month));
    assert(text.subrange(8, 10) =~= two_digits(day_of_month(day)));
    let first = two_digits(year / 100);
    let last = two_digits(year % 100);
    let four = text.subrange(0, 4);
    assert(four =~= first + last);
    reveal_with_fuel(crate::text::number_of, 3);
    assert(four.drop_last() =~= first.push(last[0]));
    assert(four.drop_last().drop_last() =~= first);
    assert(last.drop_last() =~= seq![last[0]]);
    assert(last.drop_last().drop_last() =~= Seq::<char>::empty());
}

/// Years of more than four digits, and years before the year 0, are written with a sign.
pub proof fn law_long_years_have_a_sign(year: int)
    requires
        year < 0 || year >= 10_000,
    ensures
        year_text(year).len() >= 5,
        year_text(year)[0] == if year < 0 {
            '-'
        } else {
            '+'
        },
        crate::text::number_of(year_text(year).skip(1)) == if year < 0 {
            -year
        } else {
            year
        },
{
    reveal_strlit("-");
    reveal_strlit("+");
    let size = if year < 0 {
        -year
    } else {
        year
    };
    let digits = year_text(year).skip(1);
    if size < 10_000 {
        lemma_two_digits(size / 100);
        lemma_two_digits(size % 100);
        let first = two_digits(size / 100);
        let last = two_digits(size % 100);
        assert(digits =~= first + last);
        reveal_with_fuel(crate::text::number_of, 3);
        assert(digits.drop_last() =~= first.push(last[0]));
        assert(digits.drop_last().drop_last() =~= first);
        assert(last.drop_last() =~= seq![last[0]]);
        assert(last.drop_last().drop_last() =~= Seq::<char>::empty());
    } else {
        assert(digits =~= crate::text::decimal(size as nat));
        crate::text::law_decimals_read_back(size as nat);
        reveal_with_fuel(crate::text::decimal, 5);
    }
}

/// The text of a time of the day reads back as the seconds since midnight.
pub proof fn law_time_text_reads_back(seconds: int)
    requires
        0 <= seconds < 86_400,
    ensures
        ({
            let text = time_text(seconds);
            let hour = crate::text::number_of(text.subrange(0, 2));
            let minute = crate::text::number_of(text.subrange(3, 5));
            let second = crate::text::number_of(text.subrange(6, 8));
            &&& text.len() == 8
            &&& text[2] == ':' && text[5] == ':'
            &&& 0 <= minute < 60
            &&& 0 <= second < 60
            &&& 3600 * hour + 60 * minute + second == seconds
        }),
{
    reveal_strlit(":");
    let text = time_text(seconds);
    lemma_two_digits(seconds / 3600);
    lemma_two_digits(seconds % 3600 / 60);
    lemma_two_digits(seconds % 60);
    assert(text.subrange(0, 2) =~= two_digits(seconds / 3600));
    assert(text.subrange(3, 5) =~= two_digits(seconds % 3600 / 60));
    assert(text.subrange(6, 8) =~= two_digits(seconds % 60));
}

/// The text of a moment is that of its local date and that of its local time, with a space between
/// them.
pub proof fn law_text_is_date_and_time(time: LocalTime)
    ensures
        ({
            let at = time.text().len() - 9;
            &&& time.text().take(at) == date_text(time.day())
            &&& time.text()[at] == ' '
            &&& time.text().skip(at + 1) == time_text(time.time_of_day())
        }),
{
    reveal_strlit(" ");
    law_local_time_is_moved_by_the_offset(time);
    law_time_text_reads_back(time.time_of_day());
    let at = time.text().len() - 9;
    assert(time.text().take(at) =~= date_text(time.day()));
    assert(time.text().skip(at + 1) =~= time_text(time.time_of_day()));
}

/// Two digits read back as the number that they write.
proof fn lemma_two_digits(number: int)
    requires
        0 <= number < 100,
    ensures
        two_digits(number).len() == 2,
        crate::text::number_of(two_digits(number)) == number,
        two_digits(number)[0] as int - '0' as int == number / 10,
        two_digits(number)[1] as int - '0' as int == number % 10,
{
    reveal_with_fuel(crate::text::number_of, 3);
    let digits = two_digits(number);
    assert(digits.drop_last() =~= seq![digits[0]]);
    assert(digits.drop_last().drop_last() =~= Seq::<char>::empty());
}

} // verus!
