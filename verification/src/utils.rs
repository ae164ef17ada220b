use vstd::prelude::*;

use chrono::Datelike;
use chrono::TimeZone;

use crate::CalendarDate;

verus! {

/// Milliseconds in one day.
pub const MS_PER_DAY: u32 = 86400000;

/// Day count from the Unix epoch day (1970-01-01) to the Gregorian calendar
/// day `(year, month, day)`, as the chrono date library computes it. The
/// count is negative for days before the Unix epoch.
pub uninterp spec fn ad_day_number(year: int, month: int, day: int) -> int;

/// `y` is a leap year of the proleptic Gregorian calendar.
pub open spec fn greg_leap_year(y: int) -> bool {
    (y % 4 == 0 && y % 100 != 0) || y % 400 == 0
}

/// Length in days of month `m` of Gregorian year `y`.
pub open spec fn greg_days_in_month(y: int, m: int) -> int {
    if m == 2 {
        if greg_leap_year(y) {
            29
        } else {
            28
        }
    } else if m == 4 || m == 6 || m == 9 || m == 11 {
        30
    } else {
        31
    }
}

/// The triple `(y, m, d)` is a real day of the proleptic Gregorian calendar,
/// within the span of years that the chrono library can represent.
pub open spec fn valid_ad_date(y: int, m: int, d: int) -> bool {
    -262000 <= y <= 262000 && 1 <= m <= 12 && 1 <= d <= greg_days_in_month(y, m)
}

/// Relies on chrono's `TimeZone::with_ymd_and_hms` for `Utc` and
/// `DateTime::timestamp_millis`: the result is the millisecond Unix timestamp
/// of noon UTC on the given Gregorian calendar day, that is, the day's day
/// number times `MS_PER_DAY` plus half a day. Anchoring at noon keeps the
/// elapsed-day arithmetic of the converter clear of any day-boundary
/// ambiguity.
#[verifier::external_body]
pub fn parse_date_to_epoch(date: CalendarDate) -> (r: i64)
    requires
        valid_ad_date(date.year as int, date.month as int, date.day as int),
    ensures
        r == ad_day_number(date.year as int, date.month as int, date.day as int) * MS_PER_DAY
            + MS_PER_DAY / 2,
        -9000000000000000 <= r <= 9000000000000000,
{
    chrono::Utc
        .with_ymd_and_hms(date.year, date.month, date.day, 12, 0, 0)
        .unwrap()
        .timestamp_millis()
}

/// Relies on chrono's `DateTime::from_timestamp_millis` and the `Datelike`
/// accessors: the result is the Gregorian calendar day that the given
/// millisecond Unix timestamp falls on. Every timestamp falls on exactly one
/// calendar day, and distinct valid calendar days have distinct day numbers,
/// so the result is the one valid date with that day number. The bound on
/// `t` keeps the timestamp's day strictly inside the span of years that
/// both chrono and `valid_ad_date` cover, so the call cannot fail.
#[verifier::external_body]
pub(crate) fn timestamp_to_date(t: i64) -> (r: CalendarDate)
    requires
        -8000000000000000 <= t <= 8000000000000000,
    ensures
        valid_ad_date(r.year as int, r.month as int, r.day as int),
        ad_day_number(r.year as int, r.month as int, r.day as int) == t as int / (
        MS_PER_DAY as int),
        forall|y2: int, m2: int, d2: int|
            valid_ad_date(y2, m2, d2) && #[trigger] ad_day_number(y2, m2, d2) == ad_day_number(
                r.year as int,
                r.month as int,
                r.day as int,
            ) ==> y2 == r.year as int && m2 == r.month as int && d2 == r.day as int,
{
    let dt = chrono::DateTime::<chrono::Utc>::from_timestamp_millis(t).unwrap();
    CalendarDate { year: dt.year(), month: dt.month(), day: dt.day() }
}

} // verus!
