use chrono::{Datelike, NaiveDateTime, Timelike};
use vstd::prelude::*;

verus! {

/// The proleptic Gregorian leap-year rule.
pub open spec fn is_leap_year(year: int) -> bool {
    year % 4 == 0 && (year % 100 != 0 || year % 400 == 0)
}

/// Days in `year`.
pub open spec fn days_in_year(year: int) -> int {
    if is_leap_year(year) {
        366
    } else {
        365
    }
}

/// Days in the month `month0` (January is 0) of `year`.
pub open spec fn days_in_month(year: int, month0: int) -> int {
    if month0 == 1 {
        if is_leap_year(year) {
            29
        } else {
            28
        }
    } else if month0 == 3 || month0 == 5 || month0 == 8 || month0 == 10 {
        30
    } else {
        31
    }
}

/// Days of `year` that lie before the first of month `month0`.
pub open spec fn days_before_month(year: int, month0: int) -> int
    decreases month0,
{
    if month0 <= 0 {
        0
    } else {
        days_before_month(year, month0 - 1) + days_in_month(year, month0 - 1)
    }
}

/// Leap years among the years 1, 2, .., `year - 1`.
pub open spec fn leap_years_before(year: int) -> int {
    (year - 1) / 4 - (year - 1) / 100 + (year - 1) / 400
}

/// Days from 1 January 1970 to 1 January of `year`; negative before 1970.
pub open spec fn days_before_year(year: int) -> int {
    365 * (year - 1970) + leap_years_before(year) - leap_years_before(1970)
}

/// Days from 1 January 1970 to the given date. Month and day count from 0.
pub open spec fn epoch_days(year: int, month0: int, day0: int) -> int {
    days_before_year(year) + days_before_month(year, month0) + day0
}

/// Seconds from 1970-01-01T00:00:00 to the given date and time of day, every
/// day taken as 86 400 seconds long.
pub open spec fn epoch_seconds(
    year: int,
    month0: int,
    day0: int,
    hour: int,
    minute: int,
    second: int,
) -> int {
    epoch_days(year, month0, day0) * 86_400 + hour * 3_600 + minute * 60 + second
}

/// The fields name a day of the calendar and a second of that day.
pub open spec fn valid_civil(
    year: int,
    month0: int,
    day0: int,
    hour: int,
    minute: int,
    second: int,
) -> bool {
    &&& 0 <= month0 < 12
    &&& 0 <= day0 < days_in_month(year, month0)
    &&& 0 <= hour < 24
    &&& 0 <= minute < 60
    &&& 0 <= second < 60
}

/// A date and a time of day in calendar fields, month and day counted from 0.
#[derive(Clone, Copy, Debug)]
pub struct CivilTime {
    pub year: i32,
    pub month0: u32,
    pub day0: u32,
    pub hour: u32,
    pub minute: u32,
    pub second: u32,
}

impl CivilTime {
    pub open spec fn valid(self) -> bool {
        valid_civil(
            self.year as int,
            self.month0 as int,
            self.day0 as int,
            self.hour as int,
            self.minute as int,
            self.second as int,
        )
    }

    pub open spec fn epoch_seconds(self) -> int {
        epoch_seconds(
            self.year as int,
            self.month0 as int,
            self.day0 as int,
            self.hour as int,
            self.minute as int,
            self.second as int,
        )
    }
}

/// Calls chrono's `NaiveDateTime::from_timestamp` with no nanoseconds and
/// reads the result's `year`, `month0`, `day0`, `hour`, `minute` and `second`.
///
/// Trusted: that the six fields are a date of the proleptic Gregorian
/// calendar and a time of day, and that this date and time lie `secs`
/// seconds after 1970-01-01T00:00:00. chrono refuses only timestamps some
/// 262 000 years from the epoch, far outside what 32 bits hold.
#[verifier::external_body]
#[allow(deprecated)]
pub(crate) fn civil_from_timestamp(secs: i32) -> (civil: CivilTime)
    ensures
        civil.valid(),
        civil.epoch_seconds() == secs,
{
    let dt = NaiveDateTime::from_timestamp(secs as i64, 0);
    CivilTime {
        year: dt.year(),
        month0: dt.month0(),
        day0: dt.day0(),
        hour: dt.hour(),
        minute: dt.minute(),
        second: dt.second(),
    }
}

/// A year is as long as the distance between its first day and the next
/// year's.
pub proof fn lemma_year_step(year: int)
    ensures
        days_before_year(year + 1) == days_before_year(year) + days_in_year(year),
{
}

/// Later years start later, by at least 365 days a year.
pub proof fn lemma_years_increase(from: int, to: int)
    requires
        from <= to,
    ensures
        days_before_year(from) + 365 * (to - from) <= days_before_year(to),
    decreases to - from,
{
    if from < to {
        lemma_years_increase(from, to - 1);
        lemma_year_step(to - 1);
    }
}

/// The months before `month0` are as long as the table of the common year
/// says, and one day longer from March on in a leap year.
pub proof fn lemma_days_before_month(year: int, month0: int)
    requires
        0 <= month0 <= 12,
    ensures
        days_before_month(year, month0) == (if month0 == 0 {
            0int
        } else if month0 == 1 {
            31
        } else if month0 == 2 {
            59
        } else if month0 == 3 {
            90
        } else if month0 == 4 {
            120
        } else if month0 == 5 {
            151
        } else if month0 == 6 {
            181
        } else if month0 == 7 {
            212
        } else if month0 == 8 {
            243
        } else if month0 == 9 {
            273
        } else if month0 == 10 {
            304
        } else if month0 == 11 {
            334
        } else {
            365
        }) + (if month0 >= 2 && is_leap_year(year) {
            1int
        } else {
            0
        }),
    decreases month0,
{
    if month0 > 0 {
        lemma_days_before_month(year, month0 - 1);
    }
}

/// A valid date lies within its year.
pub proof fn lemma_date_within_year(year: int, month0: int, day0: int)
    requires
        0 <= month0 < 12,
        0 <= day0 < days_in_month(year, month0),
    ensures
        0 <= days_before_month(year, month0) + day0 < days_in_year(year),
        days_before_year(year) <= epoch_days(year, month0, day0) < days_before_year(year + 1),
{
    lemma_days_before_month(year, month0);
    lemma_year_step(year);
}

/// No two dates and times of day lie the same number of seconds from the
/// epoch: the calendar fields of a timestamp are determined by it.
pub proof fn lemma_civil_unique(a: CivilTime, b: CivilTime)
    requires
        a.valid(),
        b.valid(),
        a.epoch_seconds() == b.epoch_seconds(),
    ensures
        a == b,
{
    let days_a = epoch_days(a.year as int, a.month0 as int, a.day0 as int);
    let days_b = epoch_days(b.year as int, b.month0 as int, b.day0 as int);
    assert(days_a == days_b);
    assert(a.hour == b.hour && a.minute == b.minute && a.second == b.second);
    lemma_date_within_year(a.year as int, a.month0 as int, a.day0 as int);
    lemma_date_within_year(b.year as int, b.month0 as int, b.day0 as int);
    if a.year < b.year {
        lemma_years_increase(a.year + 1, b.year as int);
    }
    if b.year < a.year {
        lemma_years_increase(b.year + 1, a.year as int);
    }
    assert(a.year == b.year);
    lemma_days_before_month(a.year as int, a.month0 as int);
    lemma_days_before_month(b.year as int, b.month0 as int);
    assert(a.month0 == b.month0);
}

/// A timestamp of 32 bits lies in the years 1901 to 2038, and from 1970 on
/// exactly when it is not negative.
pub proof fn lemma_year_of_timestamp(civil: CivilTime)
    requires
        civil.valid(),
        i32::MIN <= civil.epoch_seconds() <= i32::MAX,
    ensures
        1901 <= civil.year <= 2038,
        civil.year >= 1970 <==> civil.epoch_seconds() >= 0,
{
    lemma_date_within_year(civil.year as int, civil.month0 as int, civil.day0 as int);
    if civil.year >= 2039 {
        lemma_years_increase(2039, civil.year as int);
    }
    if civil.year <= 1900 {
        lemma_years_increase(civil.year + 1, 1901);
    }
    if civil.year >= 1970 {
        lemma_years_increase(1970, civil.year as int);
    } else {
        lemma_years_increase(civil.year + 1, 1970);
    }
}

} // verus!
