use vstd::prelude::*;

use vstd::arithmetic::div_mod::lemma_fundamental_div_mod_converse;

use crate::CalendarDate;
use crate::ConvertError;
use crate::table::{
    bs_serial, calculate_days_in_month, days_before_month, days_before_year, days_in_month,
    lemma_bs_serial_range, lemma_dbm_step, lemma_dby_step, lemma_dby_upper,
    table_days, valid_bs_date, year_days, BS_YEAR_LAST, BS_YEAR_ZERO,
};
use crate::utils::{
    ad_day_number, parse_date_to_epoch, timestamp_to_date, valid_ad_date, MS_PER_DAY,
};

verus! {

/// Millisecond Unix timestamp of the instant just before the first supported
/// BS day begins: BS (1970, 1, 1) covers the AD day 1913-04-13, and this
/// anchor sits one millisecond before that day's midnight UTC.
pub const BS_EPOCH_TIMESTAMP: i64 = -1789948800001;

/// Day number, as `ad_day_number` counts, of the AD day 1913-04-13 — the AD
/// day that BS (1970, 1, 1) covers.
pub const EPOCH_AD_DAY: i64 = -20717;

/// The BS serial day number on which the AD day with day number `dn` falls:
/// AD 1913-04-13 falls on serial 1.
pub open spec fn serial_of_ad_day(dn: int) -> int {
    dn - EPOCH_AD_DAY + 1
}

/// What a successful AD-to-BS conversion returns: a valid BS table date
/// whose serial day number is the AD day number shifted so that AD
/// 1913-04-13 becomes serial 1.
pub open spec fn ad_to_bs_ok(ad: CalendarDate, bs: CalendarDate) -> bool {
    &&& valid_bs_date(bs.year as int, bs.month as int, bs.day as int)
    &&& bs_serial(bs.year as int, bs.month as int, bs.day as int) == serial_of_ad_day(
        ad_day_number(ad.year as int, ad.month as int, ad.day as int),
    )
}

/// What a successful BS-to-AD conversion returns: a valid Gregorian date
/// whose day number corresponds to the BS date's serial day number.
pub open spec fn bs_to_ad_ok(bs: CalendarDate, ad: CalendarDate) -> bool {
    &&& valid_ad_date(ad.year as int, ad.month as int, ad.day as int)
    &&& serial_of_ad_day(ad_day_number(ad.year as int, ad.month as int, ad.day as int))
        == bs_serial(bs.year as int, bs.month as int, bs.day as int)
}

/// `ad` is the only valid Gregorian date with its day number. Together with
/// the converters' contracts this closes the AD-side round trip: converting
/// an AD date to BS and back yields an AD date with the same day number,
/// which by this predicate is the original date itself.
pub open spec fn unique_ad_day(ad: CalendarDate) -> bool {
    forall|y2: int, m2: int, d2: int|
        valid_ad_date(y2, m2, d2) && #[trigger] ad_day_number(y2, m2, d2) == ad_day_number(
            ad.year as int,
            ad.month as int,
            ad.day as int,
        ) ==> y2 == ad.year as int && m2 == ad.month as int && d2 == ad.day as int
}

/// Converts the AD (Gregorian) date `date` into the BS date that covers the
/// same calendar day: anchor the AD day at noon UTC, count whole days from
/// the epoch anchor, then walk the month-length table until the count lands
/// in a month. Fails with `OutOfRange` exactly when the day lies outside the
/// span the table covers, and never otherwise.
#[verifier::loop_isolation(false)]
pub fn ad_to_bs(date: CalendarDate) -> (r: Result<CalendarDate, ConvertError>)
    requires
        valid_ad_date(date.year as int, date.month as int, date.day as int),
    ensures
        r is Ok <==> 1 <= serial_of_ad_day(
            ad_day_number(date.year as int, date.month as int, date.day as int),
        ) <= table_days(),
        r is Ok ==> ad_to_bs_ok(date, r.unwrap()),
        r is Err ==> r == Err::<CalendarDate, ConvertError>(ConvertError::OutOfRange),
{
    let ghost dn = ad_day_number(date.year as int, date.month as int, date.day as int);
    let t = parse_date_to_epoch(date);
    let diff = t - BS_EPOCH_TIMESTAMP;
    proof {
        assert(diff == (dn - EPOCH_AD_DAY) * (MS_PER_DAY as int) + 43200001) by {
            assert(t == dn * (MS_PER_DAY as int) + 43200000);
        };
    }
    if diff < 0 {
        return Err(ConvertError::OutOfRange);
    }
    let days_past: u64 = (diff as u64) / (MS_PER_DAY as u64);
    proof {
        lemma_fundamental_div_mod_converse(
            diff as int,
            MS_PER_DAY as int,
            dn - EPOCH_AD_DAY,
            43200001,
        );
        assert(days_past == dn - EPOCH_AD_DAY);
    }
    let mut days: u64 = days_past + 1;
    let ghost n = serial_of_ad_day(dn);
    let mut year: i32 = BS_YEAR_ZERO;
    while year <= BS_YEAR_LAST
        invariant
            BS_YEAR_ZERO <= year <= BS_YEAR_LAST + 1,
            1 <= days,
            days + days_before_year(year as int) == n,
        decreases BS_YEAR_LAST + 1 - year,
    {
        let mut month: u32 = 1;
        while month <= 12
            invariant
                1 <= month <= 13,
                BS_YEAR_ZERO <= year <= BS_YEAR_LAST,
                1 <= days,
                days + days_before_year(year as int) + days_before_month(
                    year as int,
                    month as int,
                ) == n,
            decreases 13 - month,
        {
            let len = calculate_days_in_month(year, month);
            if days <= len as u64 {
                let found = CalendarDate { year, month, day: days as u32 };
                proof {
                    assert(valid_bs_date(found.year as int, found.month as int, found.day as int));
                    assert(bs_serial(found.year as int, found.month as int, found.day as int) == n);
                    lemma_bs_serial_range(
                        found.year as int,
                        found.month as int,
                        found.day as int,
                    );
                }
                return Ok(found);
            }
            proof {
                lemma_dbm_step(year as int, month as int);
            }
            days = days - len as u64;
            month = month + 1;
        }
        proof {
            lemma_dby_step(year as int);
        }
        year = year + 1;
    }
    Err(ConvertError::OutOfRange)
}

/// Sums the twelve month lengths of BS year `year`.
#[verifier::loop_isolation(false)]
fn year_days_of(year: i32) -> (r: u32)
    requires
        BS_YEAR_ZERO <= year <= BS_YEAR_LAST,
    ensures
        r == year_days(year as int),
        r <= 384,
{
    let mut sum: u32 = 0;
    let mut month: u32 = 1;
    while month <= 12
        invariant
            1 <= month <= 13,
            BS_YEAR_ZERO <= year <= BS_YEAR_LAST,
            sum == days_before_month(year as int, month as int),
            sum <= 32 * (month - 1),
        decreases 13 - month,
    {
        let len = calculate_days_in_month(year, month);
        proof {
            lemma_dbm_step(year as int, month as int);
        }
        sum = sum + len;
        month = month + 1;
    }
    sum
}

/// Converts the BS date `date` into the AD (Gregorian) date that covers the
/// same calendar day: sum the day's offset in its month, the lengths of the
/// earlier months of its year and the lengths of all earlier supported
/// years, then read the Gregorian fields off the resulting instant. The
/// month and day must form a date of the BS calendar; the conversion fails
/// with `OutOfRange` exactly when the year lies outside the span the table
/// covers, and never otherwise.
#[verifier::loop_isolation(false)]
pub fn bs_to_ad(date: CalendarDate) -> (r: Result<CalendarDate, ConvertError>)
    requires
        1 <= date.month <= 12,
        1 <= date.day <= 32,
        BS_YEAR_ZERO <= date.year <= BS_YEAR_LAST ==> date.day <= days_in_month(
            date.year as int,
            date.month as int,
        ),
    ensures
        r is Ok <==> BS_YEAR_ZERO <= date.year <= BS_YEAR_LAST,
        r is Ok ==> bs_to_ad_ok(date, r.unwrap()) && unique_ad_day(r.unwrap()),
        r is Err ==> r == Err::<CalendarDate, ConvertError>(ConvertError::OutOfRange),
{
    if date.year < BS_YEAR_ZERO || date.year > BS_YEAR_LAST {
        return Err(ConvertError::OutOfRange);
    }
    let mut total: u64 = date.day as u64;
    let mut month: u32 = 1;
    while month < date.month
        invariant
            1 <= month <= date.month <= 12,
            1 <= date.day <= 32,
            BS_YEAR_ZERO <= date.year <= BS_YEAR_LAST,
            total == date.day + days_before_month(date.year as int, month as int),
            total <= 32 + 32 * (month - 1),
        decreases date.month - month,
    {
        let len = calculate_days_in_month(date.year, month);
        proof {
            lemma_dbm_step(date.year as int, month as int);
        }
        total = total + len as u64;
        month = month + 1;
    }
    let mut year: i32 = BS_YEAR_ZERO;
    while year < date.year
        invariant
            BS_YEAR_ZERO <= year <= date.year <= BS_YEAR_LAST,
            total == date.day + days_before_month(date.year as int, date.month as int)
                + days_before_year(year as int),
            total <= 416 + 366 * (year - BS_YEAR_ZERO),
        decreases date.year - year,
    {
        let len = year_days_of(year);
        proof {
            lemma_dby_step(year as int);
            lemma_dby_upper(year as int);
            crate::table::lemma_year_days_range(year as int);
        }
        total = total + len as u64;
        year = year + 1;
    }
    let ghost n = bs_serial(date.year as int, date.month as int, date.day as int);
    proof {
        assert(total == n);
    }
    let t: i64 = BS_EPOCH_TIMESTAMP + (total as i64) * (MS_PER_DAY as i64);
    let ad = timestamp_to_date(t);
    proof {
        lemma_fundamental_div_mod_converse(
            t as int,
            MS_PER_DAY as int,
            n + EPOCH_AD_DAY - 1,
            86399999,
        );
        assert(ad_day_number(ad.year as int, ad.month as int, ad.day as int) == n + EPOCH_AD_DAY
            - 1);
    }
    Ok(ad)
}

/// Round trip, AD side: an AD date that converts into the supported BS span
/// comes back unchanged when its BS image is converted to AD again. The
/// premises are exactly what `ad_to_bs` ensures of its result `b` and what
/// `bs_to_ad` then ensures of its result `a2`.
pub proof fn lemma_round_trip_ad(a: CalendarDate, b: CalendarDate, a2: CalendarDate)
    requires
        valid_ad_date(a.year as int, a.month as int, a.day as int),
        ad_to_bs_ok(a, b),
        bs_to_ad_ok(b, a2),
        unique_ad_day(a2),
    ensures
        a2 == a,
{
    assert(ad_day_number(a.year as int, a.month as int, a.day as int) == ad_day_number(
        a2.year as int,
        a2.month as int,
        a2.day as int,
    ));
}

/// Dispatches between the two conversions: AD to BS when `to_bs` holds, BS
/// to AD otherwise. Pure dispatch; each call is a stateless function of its
/// input date.
pub fn convert(date: CalendarDate, to_bs: bool) -> (r: Result<CalendarDate, ConvertError>)
    requires
        to_bs ==> valid_ad_date(date.year as int, date.month as int, date.day as int),
        !to_bs ==> 1 <= date.month <= 12 && 1 <= date.day <= 32 && (BS_YEAR_ZERO <= date.year
            <= BS_YEAR_LAST ==> date.day <= days_in_month(date.year as int, date.month as int)),
    ensures
        to_bs ==> ((r is Ok <==> 1 <= serial_of_ad_day(
            ad_day_number(date.year as int, date.month as int, date.day as int),
        ) <= table_days()) && (r is Ok ==> ad_to_bs_ok(date, r.unwrap()))),
        !to_bs ==> ((r is Ok <==> BS_YEAR_ZERO <= date.year <= BS_YEAR_LAST) && (r is Ok
            ==> bs_to_ad_ok(date, r.unwrap()) && unique_ad_day(r.unwrap()))),
        r is Err ==> r == Err::<CalendarDate, ConvertError>(ConvertError::OutOfRange),
{
    if to_bs {
        ad_to_bs(date)
    } else {
        bs_to_ad(date)
    }
}

} // verus!
