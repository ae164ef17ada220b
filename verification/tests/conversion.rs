use ndate::ad_to_bs;
use ndate::bs_to_ad;
use ndate::calculate_days_in_month;
use ndate::convert;
use ndate::parse_date_to_epoch;
use ndate::CalendarDate;
use ndate::ConvertError;

fn date(year: i32, month: u32, day: u32) -> CalendarDate {
    CalendarDate { year, month, day }
}

#[test]
fn test_calculate_days_in_month() {
    assert_eq!(30, calculate_days_in_month(1985, 9));
}

#[test]
fn test_bs_to_ad() {
    assert_eq!(Ok(date(2042, 5, 24)), ad_to_bs(date(1985, 9, 9)));
}

#[test]
fn test_ad_to_bs() {
    assert_eq!(Ok(date(2021, 6, 27)), bs_to_ad(date(2078, 3, 13)));
}

#[test]
fn parse_date_to_epoch_test() {
    assert_eq!(400420800000, parse_date_to_epoch(date(1982, 9, 9)));
}

#[test]
fn parse_date_to_epoch_at_unix_epoch() {
    assert_eq!(43200000, parse_date_to_epoch(date(1970, 1, 1)));
}

#[test]
fn first_supported_day() {
    assert_eq!(Ok(date(1913, 4, 13)), bs_to_ad(date(1970, 1, 1)));
    assert_eq!(Ok(date(1970, 1, 1)), ad_to_bs(date(1913, 4, 13)));
}

#[test]
fn last_supported_day() {
    assert_eq!(30, calculate_days_in_month(2100, 12));
    assert_eq!(Ok(date(2044, 4, 15)), bs_to_ad(date(2100, 12, 30)));
    assert_eq!(Ok(date(2100, 12, 30)), ad_to_bs(date(2044, 4, 15)));
}

#[test]
fn round_trip_bs_ad_bs() {
    let samples = [
        date(1970, 1, 1),
        date(1985, 9, 30),
        date(2000, 1, 1),
        date(2042, 5, 24),
        date(2078, 3, 13),
        date(2100, 12, 30),
    ];
    for bs in samples {
        let ad = bs_to_ad(bs).unwrap();
        assert_eq!(Ok(bs), ad_to_bs(ad));
    }
}

#[test]
fn round_trip_ad_bs_ad() {
    let samples = [
        date(1913, 4, 13),
        date(1944, 2, 29),
        date(1985, 9, 9),
        date(2021, 6, 27),
        date(2044, 4, 15),
    ];
    for ad in samples {
        let bs = ad_to_bs(ad).unwrap();
        assert_eq!(Ok(ad), bs_to_ad(bs));
    }
}

#[test]
fn consecutive_ad_days_step_bs_by_one_day() {
    assert_eq!(31, calculate_days_in_month(2042, 5));
    assert_eq!(Ok(date(2042, 5, 31)), ad_to_bs(date(1985, 9, 16)));
    assert_eq!(Ok(date(2042, 6, 1)), ad_to_bs(date(1985, 9, 17)));
}

#[test]
fn month_boundary_rolls_over_year() {
    assert_eq!(31, calculate_days_in_month(2042, 12));
    assert_eq!(Ok(date(1986, 4, 13)), bs_to_ad(date(2042, 12, 31)));
    assert_eq!(Ok(date(2043, 1, 1)), ad_to_bs(date(1986, 4, 14)));
}

#[test]
fn month_lengths_of_a_year_sum_to_year_total() {
    let mut total: u32 = 0;
    for month in 1..=12 {
        let len = calculate_days_in_month(2000, month);
        assert!((29..=32).contains(&len));
        total += len;
    }
    assert_eq!(365, total);
}

#[test]
fn ad_before_epoch_is_out_of_range() {
    assert_eq!(Err(ConvertError::OutOfRange), ad_to_bs(date(1913, 4, 12)));
    assert_eq!(Err(ConvertError::OutOfRange), ad_to_bs(date(1900, 1, 1)));
}

#[test]
fn ad_beyond_table_is_out_of_range() {
    assert_eq!(Err(ConvertError::OutOfRange), ad_to_bs(date(2044, 4, 16)));
    assert_eq!(Err(ConvertError::OutOfRange), ad_to_bs(date(2050, 1, 1)));
}

#[test]
fn bs_year_outside_table_is_out_of_range() {
    assert_eq!(Err(ConvertError::OutOfRange), bs_to_ad(date(1969, 12, 30)));
    assert_eq!(Err(ConvertError::OutOfRange), bs_to_ad(date(2101, 1, 1)));
}

#[test]
fn convert_dispatches_by_direction() {
    assert_eq!(Ok(date(2042, 5, 24)), convert(date(1985, 9, 9), true));
    assert_eq!(Ok(date(2021, 6, 27)), convert(date(2078, 3, 13), false));
    assert_eq!(
        Err(ConvertError::OutOfRange),
        convert(date(2101, 1, 1), false)
    );
}
