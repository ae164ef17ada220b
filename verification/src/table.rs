use vstd::prelude::*;

verus! {

/// First BS year covered by the month-length table.
pub const BS_YEAR_ZERO: i32 = 1970;

/// Last BS year covered by the month-length table.
pub const BS_YEAR_LAST: i32 = 2100;

/// Packed month lengths of the BS year at index `i` (that is, of BS year
/// `BS_YEAR_ZERO + i`): two bits per month, where the two-bit field for month
/// `m` stores that month's length minus 29 days.
pub open spec fn month_lengths_encoded(i: int) -> u32 {
    if i == 0 {
        5314298u32
    } else if i == 1 {
        9459438u32
    } else if i == 2 {
        8673005u32
    } else if i == 3 {
        5315258u32
    } else if i == 4 {
        5314298u32
    } else if i == 5 {
        9459438u32
    } else if i == 6 {
        8673005u32
    } else if i == 7 {
        5315258u32
    } else if i == 8 {
        5314298u32
    } else if i == 9 {
        9459438u32
    } else if i == 10 {
        8673005u32
    } else if i == 11 {
        5315258u32
    } else if i == 12 {
        5314298u32
    } else if i == 13 {
        9459438u32
    } else if i == 14 {
        8673005u32
    } else if i == 15 {
        5315258u32
    } else if i == 16 {
        5314298u32
    } else if i == 17 {
        9459438u32
    } else if i == 18 {
        8673005u32
    } else if i == 19 {
        5315258u32
    } else if i == 20 {
        5314298u32
    } else if i == 21 {
        9459438u32
    } else if i == 22 {
        8673005u32
    } else if i == 23 {
        5315258u32
    } else if i == 24 {
        5314298u32
    } else if i == 25 {
        9459438u32
    } else if i == 26 {
        8673005u32
    } else if i == 27 {
        5315258u32
    } else if i == 28 {
        8673005u32
    } else if i == 29 {
        9459438u32
    } else if i == 30 {
        8673005u32
    } else if i == 31 {
        5315258u32
    } else if i == 32 {
        5314298u32
    } else if i == 33 {
        9459438u32
    } else if i == 34 {
        8673005u32
    } else if i == 35 {
        5315258u32
    } else if i == 36 {
        5314298u32
    } else if i == 37 {
        9459438u32
    } else if i == 38 {
        8473322u32
    } else if i == 39 {
        5315258u32
    } else if i == 40 {
        5314298u32
    } else if i == 41 {
        9459438u32
    } else if i == 42 {
        5327594u32
    } else if i == 43 {
        5315258u32
    } else if i == 44 {
        5314298u32
    } else if i == 45 {
        9459438u32
    } else if i == 46 {
        5327594u32
    } else if i == 47 {
        5315258u32
    } else if i == 48 {
        5314286u32
    } else if i == 49 {
        8673006u32
    } else if i == 50 {
        5315306u32
    } else if i == 51 {
        5315258u32
    } else if i == 52 {
        5265134u32
    } else if i == 53 {
        8673006u32
    } else if i == 54 {
        5315306u32
    } else if i == 55 {
        5315258u32
    } else if i == 56 {
        9459438u32
    } else if i == 57 {
        8673005u32
    } else if i == 58 {
        5315258u32
    } else if i == 59 {
        5314490u32
    } else if i == 60 {
        8673006u32
    } else if i == 61 {
        8673005u32
    } else if i == 62 {
        5315258u32
    } else if i == 63 {
        5314298u32
    } else if i == 64 {
        9459438u32
    } else if i == 65 {
        8473325u32
    } else if i == 66 {
        5315258u32
    } else if i == 67 {
        5314298u32
    } else if i == 68 {
        9459438u32
    } else if i == 69 {
        5327594u32
    } else if i == 70 {
        5315258u32
    } else if i == 71 {
        5314298u32
    } else if i == 72 {
        9459438u32
    } else if i == 73 {
        5327594u32
    } else if i == 74 {
        5315258u32
    } else if i == 75 {
        5314286u32
    } else if i == 76 {
        9459438u32
    } else if i == 77 {
        5315306u32
    } else if i == 78 {
        5315258u32
    } else if i == 79 {
        5265134u32
    } else if i == 80 {
        8673006u32
    } else if i == 81 {
        5315306u32
    } else if i == 82 {
        5315258u32
    } else if i == 83 {
        5265134u32
    } else if i == 84 {
        8673006u32
    } else if i == 85 {
        5315258u32
    } else if i == 86 {
        5314490u32
    } else if i == 87 {
        8673006u32
    } else if i == 88 {
        8673005u32
    } else if i == 89 {
        5315258u32
    } else if i == 90 {
        5314298u32
    } else if i == 91 {
        9459438u32
    } else if i == 92 {
        8669933u32
    } else if i == 93 {
        5315258u32
    } else if i == 94 {
        5314298u32
    } else if i == 95 {
        9459438u32
    } else if i == 96 {
        8473322u32
    } else if i == 97 {
        5315258u32
    } else if i == 98 {
        5314298u32
    } else if i == 99 {
        9459438u32
    } else if i == 100 {
        5327594u32
    } else if i == 101 {
        5315258u32
    } else if i == 102 {
        5314286u32
    } else if i == 103 {
        9459438u32
    } else if i == 104 {
        5315306u32
    } else if i == 105 {
        5315258u32
    } else if i == 106 {
        5265134u32
    } else if i == 107 {
        8673006u32
    } else if i == 108 {
        5315306u32
    } else if i == 109 {
        5315258u32
    } else if i == 110 {
        5265134u32
    } else if i == 111 {
        5527290u32
    } else if i == 112 {
        5527277u32
    } else if i == 113 {
        5527226u32
    } else if i == 114 {
        5527226u32
    } else if i == 115 {
        5528046u32
    } else if i == 116 {
        5527277u32
    } else if i == 117 {
        5528250u32
    } else if i == 118 {
        5528057u32
    } else if i == 119 {
        5527277u32
    } else if i == 120 {
        5527277u32
    } else if i == 121 {
        5528250u32
    } else if i == 122 {
        5528057u32
    } else if i == 123 {
        5527277u32
    } else if i == 124 {
        5527226u32
    } else if i == 125 {
        5528250u32
    } else if i == 126 {
        5527289u32
    } else if i == 127 {
        5527278u32
    } else if i == 128 {
        5524154u32
    } else if i == 129 {
        5528250u32
    } else if i == 130 {
        5528046u32
    } else {
        0u32
    }
}

/// Table lookup for the packed month lengths of the BS year at index `i`.
fn encoded_for_index(i: usize) -> (r: u32)
    ensures
        r == month_lengths_encoded(i as int),
{
    if i == 0 {
        5314298u32
    } else if i == 1 {
        9459438u32
    } else if i == 2 {
        8673005u32
    } else if i == 3 {
        5315258u32
    } else if i == 4 {
        5314298u32
    } else if i == 5 {
        9459438u32
    } else if i == 6 {
        8673005u32
    } else if i == 7 {
        5315258u32
    } else if i == 8 {
        5314298u32
    } else if i == 9 {
        9459438u32
    } else if i == 10 {
        8673005u32
    } else if i == 11 {
        5315258u32
    } else if i == 12 {
        5314298u32
    } else if i == 13 {
        9459438u32
    } else if i == 14 {
        8673005u32
    } else if i == 15 {
        5315258u32
    } else if i == 16 {
        5314298u32
    } else if i == 17 {
        9459438u32
    } else if i == 18 {
        8673005u32
    } else if i == 19 {
        5315258u32
    } else if i == 20 {
        5314298u32
    } else if i == 21 {
        9459438u32
    } else if i == 22 {
        8673005u32
    } else if i == 23 {
        5315258u32
    } else if i == 24 {
        5314298u32
    } else if i == 25 {
        9459438u32
    } else if i == 26 {
        8673005u32
    } else if i == 27 {
        5315258u32
    } else if i == 28 {
        8673005u32
    } else if i == 29 {
        9459438u32
    } else if i == 30 {
        8673005u32
    } else if i == 31 {
        5315258u32
    } else if i == 32 {
        5314298u32
    } else if i == 33 {
        9459438u32
    } else if i == 34 {
        8673005u32
    } else if i == 35 {
        5315258u32
    } else if i == 36 {
        5314298u32
    } else if i == 37 {
        9459438u32
    } else if i == 38 {
        8473322u32
    } else if i == 39 {
        5315258u32
    } else if i == 40 {
        5314298u32
    } else if i == 41 {
        9459438u32
    } else if i == 42 {
        5327594u32
    } else if i == 43 {
        5315258u32
    } else if i == 44 {
        5314298u32
    } else if i == 45 {
        9459438u32
    } else if i == 46 {
        5327594u32
    } else if i == 47 {
        5315258u32
    } else if i == 48 {
        5314286u32
    } else if i == 49 {
        8673006u32
    } else if i == 50 {
        5315306u32
    } else if i == 51 {
        5315258u32
    } else if i == 52 {
        5265134u32
    } else if i == 53 {
        8673006u32
    } else if i == 54 {
        5315306u32
    } else if i == 55 {
        5315258u32
    } else if i == 56 {
        9459438u32
    } else if i == 57 {
        8673005u32
    } else if i == 58 {
        5315258u32
    } else if i == 59 {
        5314490u32
    } else if i == 60 {
        8673006u32
    } else if i == 61 {
        8673005u32
    } else if i == 62 {
        5315258u32
    } else if i == 63 {
        5314298u32
    } else if i == 64 {
        9459438u32
    } else if i == 65 {
        8473325u32
    } else if i == 66 {
        5315258u32
    } else if i == 67 {
        5314298u32
    } else if i == 68 {
        9459438u32
    } else if i == 69 {
        5327594u32
    } else if i == 70 {
        5315258u32
    } else if i == 71 {
        5314298u32
    } else if i == 72 {
        9459438u32
    } else if i == 73 {
        5327594u32
    } else if i == 74 {
        5315258u32
    } else if i == 75 {
        5314286u32
    } else if i == 76 {
        9459438u32
    } else if i == 77 {
        5315306u32
    } else if i == 78 {
        5315258u32
    } else if i == 79 {
        5265134u32
    } else if i == 80 {
        8673006u32
    } else if i == 81 {
        5315306u32
    } else if i == 82 {
        5315258u32
    } else if i == 83 {
        5265134u32
    } else if i == 84 {
        8673006u32
    } else if i == 85 {
        5315258u32
    } else if i == 86 {
        5314490u32
    } else if i == 87 {
        8673006u32
    } else if i == 88 {
        8673005u32
    } else if i == 89 {
        5315258u32
    } else if i == 90 {
        5314298u32
    } else if i == 91 {
        9459438u32
    } else if i == 92 {
        8669933u32
    } else if i == 93 {
        5315258u32
    } else if i == 94 {
        5314298u32
    } else if i == 95 {
        9459438u32
    } else if i == 96 {
        8473322u32
    } else if i == 97 {
        5315258u32
    } else if i == 98 {
        5314298u32
    } else if i == 99 {
        9459438u32
    } else if i == 100 {
        5327594u32
    } else if i == 101 {
        5315258u32
    } else if i == 102 {
        5314286u32
    } else if i == 103 {
        9459438u32
    } else if i == 104 {
        5315306u32
    } else if i == 105 {
        5315258u32
    } else if i == 106 {
        5265134u32
    } else if i == 107 {
        8673006u32
    } else if i == 108 {
        5315306u32
    } else if i == 109 {
        5315258u32
    } else if i == 110 {
        5265134u32
    } else if i == 111 {
        5527290u32
    } else if i == 112 {
        5527277u32
    } else if i == 113 {
        5527226u32
    } else if i == 114 {
        5527226u32
    } else if i == 115 {
        5528046u32
    } else if i == 116 {
        5527277u32
    } else if i == 117 {
        5528250u32
    } else if i == 118 {
        5528057u32
    } else if i == 119 {
        5527277u32
    } else if i == 120 {
        5527277u32
    } else if i == 121 {
        5528250u32
    } else if i == 122 {
        5528057u32
    } else if i == 123 {
        5527277u32
    } else if i == 124 {
        5527226u32
    } else if i == 125 {
        5528250u32
    } else if i == 126 {
        5527289u32
    } else if i == 127 {
        5527278u32
    } else if i == 128 {
        5524154u32
    } else if i == 129 {
        5528250u32
    } else if i == 130 {
        5528046u32
    } else {
        0u32
    }
}

/// The power of four that brings month `m`'s two-bit field of a packed table
/// entry into the low two bits.
pub open spec fn month_divisor(m: int) -> u32 {
    if m == 2 {
        4u32
    } else if m == 3 {
        16u32
    } else if m == 4 {
        64u32
    } else if m == 5 {
        256u32
    } else if m == 6 {
        1024u32
    } else if m == 7 {
        4096u32
    } else if m == 8 {
        16384u32
    } else if m == 9 {
        65536u32
    } else if m == 10 {
        262144u32
    } else if m == 11 {
        1048576u32
    } else if m == 12 {
        4194304u32
    } else {
        1u32
    }
}

/// Executable counterpart of `month_divisor`.
fn month_divisor_for(month: u32) -> (r: u32)
    ensures
        r == month_divisor(month as int),
        r >= 1,
{
    if month == 2 {
        4u32
    } else if month == 3 {
        16u32
    } else if month == 4 {
        64u32
    } else if month == 5 {
        256u32
    } else if month == 6 {
        1024u32
    } else if month == 7 {
        4096u32
    } else if month == 8 {
        16384u32
    } else if month == 9 {
        65536u32
    } else if month == 10 {
        262144u32
    } else if month == 11 {
        1048576u32
    } else if month == 12 {
        4194304u32
    } else {
        1u32
    }
}

/// Length in days of month `m` of BS year `y`, as the packed table stores it.
pub open spec fn days_in_month(y: int, m: int) -> int {
    29 + ((month_lengths_encoded(y - BS_YEAR_ZERO) as int) / (month_divisor(m) as int)) % 4
}

/// Looks up the length in days of month `month` of BS year `year`.
pub fn calculate_days_in_month(year: i32, month: u32) -> (r: u32)
    requires
        BS_YEAR_ZERO <= year <= BS_YEAR_LAST,
        1 <= month <= 12,
    ensures
        r == days_in_month(year as int, month as int),
        29 <= r <= 32,
{
    let encoded = encoded_for_index((year - BS_YEAR_ZERO) as usize);
    let divisor = month_divisor_for(month);
    29 + (encoded / divisor) % 4
}

/// Days of BS year `y` that precede month `m`: the lengths of months
/// `1 .. m` summed.
pub open spec fn days_before_month(y: int, m: int) -> int
    decreases m,
{
    if m <= 1 {
        0
    } else {
        days_before_month(y, m - 1) + days_in_month(y, m - 1)
    }
}

/// Total day count of BS year `y`.
pub open spec fn year_days(y: int) -> int {
    days_before_month(y, 13)
}

/// Days of the supported BS years that precede year `y`.
pub open spec fn days_before_year(y: int) -> int
    decreases y - BS_YEAR_ZERO,
{
    if y <= BS_YEAR_ZERO {
        0
    } else {
        days_before_year(y - 1) + year_days(y - 1)
    }
}

/// Serial day number of the BS date `(y, m, d)`: BS (1970, 1, 1) has serial
/// 1, and consecutive calendar days have consecutive serials.
pub open spec fn bs_serial(y: int, m: int, d: int) -> int {
    days_before_year(y) + days_before_month(y, m) + d
}

/// The triple `(y, m, d)` is a BS calendar date that the table covers.
pub open spec fn valid_bs_date(y: int, m: int, d: int) -> bool {
    BS_YEAR_ZERO <= y <= BS_YEAR_LAST && 1 <= m <= 12 && 1 <= d <= days_in_month(y, m)
}

/// Day count of the whole supported span of BS years.
pub open spec fn table_days() -> int {
    days_before_year(BS_YEAR_LAST + 1)
}

/// Every entry of the month-length table denotes between 29 and 32 days.
pub proof fn lemma_days_in_month_range(y: int, m: int)
    ensures
        29 <= days_in_month(y, m) <= 32,
{
}

pub(crate) proof fn lemma_dbm_step(y: int, m: int)
    requires
        m >= 1,
    ensures
        days_before_month(y, m + 1) == days_before_month(y, m) + days_in_month(y, m),
{
}

proof fn lemma_dbm_nonneg(y: int, m: int)
    ensures
        days_before_month(y, m) >= 0,
    decreases m,
{
    if m > 1 {
        lemma_dbm_nonneg(y, m - 1);
        lemma_days_in_month_range(y, m - 1);
    }
}

proof fn lemma_dbm_mono(y: int, a: int, b: int)
    requires
        a <= b,
    ensures
        days_before_month(y, a) <= days_before_month(y, b),
    decreases b - a,
{
    if a < b {
        lemma_dbm_mono(y, a, b - 1);
        lemma_days_in_month_range(y, b - 1);
    }
}

proof fn lemma_dbm_within_year(y: int, m: int)
    requires
        1 <= m <= 12,
    ensures
        days_before_month(y, m) + days_in_month(y, m) <= year_days(y),
{
    lemma_dbm_step(y, m);
    lemma_dbm_mono(y, m + 1, 13);
}

proof fn lemma_year_days_nonneg(y: int)
    ensures
        year_days(y) >= 0,
{
    lemma_dbm_nonneg(y, 13);
}

pub(crate) proof fn lemma_dby_step(y: int)
    requires
        y >= BS_YEAR_ZERO,
    ensures
        days_before_year(y + 1) == days_before_year(y) + year_days(y),
{
}

proof fn lemma_dby_mono(a: int, b: int)
    requires
        a <= b,
    ensures
        days_before_year(a) <= days_before_year(b),
    decreases b - a,
{
    if a < b {
        lemma_dby_mono(a, b - 1);
        lemma_year_days_nonneg(b - 1);
    }
}

/// Serial day numbers of valid BS dates lie in `[1, table_days()]`.
pub proof fn lemma_bs_serial_range(y: int, m: int, d: int)
    requires
        valid_bs_date(y, m, d),
    ensures
        1 <= bs_serial(y, m, d) <= table_days(),
{
    lemma_dbm_nonneg(y, m);
    lemma_dby_mono(BS_YEAR_ZERO as int, y);
    lemma_dbm_within_year(y, m);
    lemma_dby_step(y);
    lemma_dby_mono(y + 1, BS_YEAR_LAST + 1);
}

proof fn lemma_serial_lt(y1: int, m1: int, d1: int, y2: int, m2: int, d2: int)
    requires
        valid_bs_date(y1, m1, d1),
        valid_bs_date(y2, m2, d2),
        y1 < y2 || (y1 == y2 && m1 < m2) || (y1 == y2 && m1 == m2 && d1 < d2),
    ensures
        bs_serial(y1, m1, d1) < bs_serial(y2, m2, d2),
{
    if y1 < y2 {
        lemma_dbm_within_year(y1, m1);
        lemma_dby_step(y1);
        lemma_dby_mono(y1 + 1, y2);
        lemma_dbm_nonneg(y2, m2);
    } else if m1 < m2 {
        lemma_dbm_step(y1, m1);
        lemma_dbm_mono(y1, m1 + 1, m2);
    }
}

/// Round trip, BS side: a serial day number pins a valid BS date uniquely.
/// `bs_to_ad` maps a BS date to the AD day whose day number is the date's
/// serial shifted by the epoch offset, and `ad_to_bs` maps that AD day back
/// to a BS date with the very same serial; by this lemma the round trip
/// returns the original BS date.
pub proof fn lemma_bs_serial_injective(y1: int, m1: int, d1: int, y2: int, m2: int, d2: int)
    requires
        valid_bs_date(y1, m1, d1),
        valid_bs_date(y2, m2, d2),
        bs_serial(y1, m1, d1) == bs_serial(y2, m2, d2),
    ensures
        y1 == y2 && m1 == m2 && d1 == d2,
{
    if y1 < y2 || (y1 == y2 && m1 < m2) || (y1 == y2 && m1 == m2 && d1 < d2) {
        lemma_serial_lt(y1, m1, d1, y2, m2, d2);
    } else if y2 < y1 || (y1 == y2 && m2 < m1) || (y1 == y2 && m1 == m2 && d2 < d1) {
        lemma_serial_lt(y2, m2, d2, y1, m1, d1);
    }
}

/// Monotonicity: when two valid BS dates have consecutive serial day numbers
/// (one AD day apart after conversion), the later one is either the next day
/// of the same BS month, or the first day of the next BS month, or the first
/// day of the first month of the next BS year.
pub proof fn lemma_bs_serial_successor(y1: int, m1: int, d1: int, y2: int, m2: int, d2: int)
    requires
        valid_bs_date(y1, m1, d1),
        valid_bs_date(y2, m2, d2),
        bs_serial(y2, m2, d2) == bs_serial(y1, m1, d1) + 1,
    ensures
        (y2 == y1 && m2 == m1 && d2 == d1 + 1)
            || (y2 == y1 && m2 == m1 + 1 && d2 == 1 && d1 == days_in_month(y1, m1))
            || (y2 == y1 + 1 && m2 == 1 && d2 == 1 && m1 == 12 && d1 == days_in_month(y1, 12)),
{
    lemma_days_in_month_range(y1, m1);
    if d1 < days_in_month(y1, m1) {
        lemma_bs_serial_injective(y1, m1, d1 + 1, y2, m2, d2);
    } else if m1 < 12 {
        lemma_dbm_step(y1, m1);
        lemma_days_in_month_range(y1, m1 + 1);
        lemma_bs_serial_injective(y1, m1 + 1, 1, y2, m2, d2);
    } else if y1 < BS_YEAR_LAST {
        lemma_dbm_step(y1, 12);
        lemma_dby_step(y1);
        lemma_days_in_month_range(y1 + 1, 1);
        lemma_bs_serial_injective(y1 + 1, 1, 1, y2, m2, d2);
    } else {
        lemma_dbm_step(y1, 12);
        lemma_dby_step(y1);
        lemma_bs_serial_range(y2, m2, d2);
        assert(false);
    }
}

/// Boundary: starting from the last day of a BS month, the next serial day
/// number belongs to the first day of the next BS month, rolling over to the
/// first month of the next year after the twelfth month.
pub proof fn lemma_bs_month_boundary(y: int, m: int, d: int)
    requires
        valid_bs_date(y, m, d),
        d == days_in_month(y, m),
        !(m == 12 && y == BS_YEAR_LAST),
    ensures
        m < 12 ==> valid_bs_date(y, m + 1, 1) && bs_serial(y, m + 1, 1) == bs_serial(y, m, d) + 1,
        m == 12 ==> valid_bs_date(y + 1, 1, 1) && bs_serial(y + 1, 1, 1) == bs_serial(y, m, d) + 1,
{
    if m < 12 {
        lemma_dbm_step(y, m);
        lemma_days_in_month_range(y, m + 1);
    } else {
        lemma_dbm_step(y, 12);
        lemma_dby_step(y);
        lemma_days_in_month_range(y + 1, 1);
    }
}

proof fn lemma_year_days_sum(y: int)
    ensures
        year_days(y) == days_in_month(y, 1) + days_in_month(y, 2) + days_in_month(y, 3)
            + days_in_month(y, 4) + days_in_month(y, 5) + days_in_month(y, 6) + days_in_month(y, 7)
            + days_in_month(y, 8) + days_in_month(y, 9) + days_in_month(y, 10) + days_in_month(
            y,
            11,
        ) + days_in_month(y, 12),
{
    reveal_with_fuel(days_before_month, 14);
}

#[verifier::rlimit(100)]
proof fn lemma_year_days_chunk0(y: int)
    requires
        1970 <= y < 1980,
    ensures
        353 <= year_days(y) <= 366,
{
    lemma_year_days_sum(y);
    if y == 1970 {
        assert(month_lengths_encoded(0) == 5314298u32);
        assert((5314298int / 1int) % 4int == 2int);
        assert((5314298int / 4int) % 4int == 2int);
        assert((5314298int / 16int) % 4int == 3int);
        assert((5314298int / 64int) % 4int == 3int);
        assert((5314298int / 256int) % 4int == 2int);
        assert((5314298int / 1024int) % 4int == 1int);
        assert((5314298int / 4096int) % 4int == 1int);
        assert((5314298int / 16384int) % 4int == 0int);
        assert((5314298int / 65536int) % 4int == 1int);
        assert((5314298int / 262144int) % 4int == 0int);
        assert((5314298int / 1048576int) % 4int == 1int);
        assert((5314298int / 4194304int) % 4int == 1int);
        assert(year_days(1970) == 365);
    } else if y == 1971 {
        assert(month_lengths_encoded(1) == 9459438u32);
        assert((9459438int / 1int) % 4int == 2int);
        assert((9459438int / 4int) % 4int == 3int);
        assert((9459438int / 16int) % 4int == 2int);
        assert((9459438int / 64int) % 4int == 3int);
        assert((9459438int / 256int) % 4int == 2int);
        assert((9459438int / 1024int) % 4int == 1int);
        assert((9459438int / 4096int) % 4int == 1int);
        assert((9459438int / 16384int) % 4int == 1int);
        assert((9459438int / 65536int) % 4int == 0int);
        assert((9459438int / 262144int) % 4int == 0int);
        assert((9459438int / 1048576int) % 4int == 1int);
        assert((9459438int / 4194304int) % 4int == 2int);
        assert(year_days(1971) == 366);
    } else if y == 1972 {
        assert(month_lengths_encoded(2) == 8673005u32);
        assert((8673005int / 1int) % 4int == 1int);
        assert((8673005int / 4int) % 4int == 3int);
        assert((8673005int / 16int) % 4int == 2int);
        assert((8673005int / 64int) % 4int == 3int);
        assert((8673005int / 256int) % 4int == 2int);
        assert((8673005int / 1024int) % 4int == 1int);
        assert((8673005int / 4096int) % 4int == 1int);
        assert((8673005int / 16384int) % 4int == 1int);
        assert((8673005int / 65536int) % 4int == 0int);
        assert((8673005int / 262144int) % 4int == 1int);
        assert((8673005int / 1048576int) % 4int == 0int);
        assert((8673005int / 4194304int) % 4int == 2int);
        assert(year_days(1972) == 365);
    } else if y == 1973 {
        assert(month_lengths_encoded(3) == 5315258u32);
        assert((5315258int / 1int) % 4int == 2int);
        assert((5315258int / 4int) % 4int == 2int);
        assert((5315258int / 16int) % 4int == 3int);
        assert((5315258int / 64int) % 4int == 2int);
        assert((5315258int / 256int) % 4int == 2int);
        assert((5315258int / 1024int) % 4int == 2int);
        assert((5315258int / 4096int) % 4int == 1int);
        assert((5315258int / 16384int) % 4int == 0int);
        assert((5315258int / 65536int) % 4int == 1int);
        assert((5315258int / 262144int) % 4int == 0int);
        assert((5315258int / 1048576int) % 4int == 1int);
        assert((5315258int / 4194304int) % 4int == 1int);
        assert(year_days(1973) == 365);
    } else if y == 1974 {
        assert(month_lengths_encoded(4) == 5314298u32);
        assert((5314298int / 1int) % 4int == 2int);
        assert((5314298int / 4int) % 4int == 2int);
        assert((5314298int / 16int) % 4int == 3int);
        assert((5314298int / 64int) % 4int == 3int);
        assert((5314298int / 256int) % 4int == 2int);
        assert((5314298int / 1024int) % 4int == 1int);
        assert((5314298int / 4096int) % 4int == 1int);
        assert((5314298int / 16384int) % 4int == 0int);
        assert((5314298int / 65536int) % 4int == 1int);
        assert((5314298int / 262144int) % 4int == 0int);
        assert((5314298int / 1048576int) % 4int == 1int);
        assert((5314298int / 4194304int) % 4int == 1int);
        assert(year_days(1974) == 365);
    } else if y == 1975 {
        assert(month_lengths_encoded(5) == 9459438u32);
        assert((9459438int / 1int) % 4int == 2int);
        assert((9459438int / 4int) % 4int == 3int);
        assert((9459438int / 16int) % 4int == 2int);
        assert((9459438int / 64int) % 4int == 3int);
        assert((9459438int / 256int) % 4int == 2int);
        assert((9459438int / 1024int) % 4int == 1int);
        assert((9459438int / 4096int) % 4int == 1int);
        assert((9459438int / 16384int) % 4int == 1int);
        assert((9459438int / 65536int) % 4int == 0int);
        assert((9459438int / 262144int) % 4int == 0int);
        assert((9459438int / 1048576int) % 4int == 1int);
        assert((9459438int / 4194304int) % 4int == 2int);
        assert(year_days(1975) == 366);
    } else if y == 1976 {
        assert(month_lengths_encoded(6) == 8673005u32);
        assert((8673005int / 1int) % 4int == 1int);
        assert((8673005int / 4int) % 4int == 3int);
        assert((8673005int / 16int) % 4int == 2int);
        assert((8673005int / 64int) % 4int == 3int);
        assert((8673005int / 256int) % 4int == 2int);
        assert((8673005int / 1024int) % 4int == 1int);
        assert((8673005int / 4096int) % 4int == 1int);
        assert((8673005int / 16384int) % 4int == 1int);
        assert((8673005int / 65536int) % 4int == 0int);
        assert((8673005int / 262144int) % 4int == 1int);
        assert((8673005int / 1048576int) % 4int == 0int);
        assert((8673005int / 4194304int) % 4int == 2int);
        assert(year_days(1976) == 365);
    } else if y == 1977 {
        assert(month_lengths_encoded(7) == 5315258u32);
        assert((5315258int / 1int) % 4int == 2int);
        assert((5315258int / 4int) % 4int == 2int);
        assert((5315258int / 16int) % 4int == 3int);
        assert((5315258int / 64int) % 4int == 2int);
        assert((5315258int / 256int) % 4int == 2int);
        assert((5315258int / 1024int) % 4int == 2int);
        assert((5315258int / 4096int) % 4int == 1int);
        assert((5315258int / 16384int) % 4int == 0int);
        assert((5315258int / 65536int) % 4int == 1int);
        assert((5315258int / 262144int) % 4int == 0int);
        assert((5315258int / 1048576int) % 4int == 1int);
        assert((5315258int / 4194304int) % 4int == 1int);
        assert(year_days(1977) == 365);
    } else if y == 1978 {
        assert(month_lengths_encoded(8) == 5314298u32);
        assert((5314298int / 1int) % 4int == 2int);
        assert((5314298int / 4int) % 4int == 2int);
        assert((5314298int / 16int) % 4int == 3int);
        assert((5314298int / 64int) % 4int == 3int);
        assert((5314298int / 256int) % 4int == 2int);
        assert((5314298int / 1024int) % 4int == 1int);
        assert((5314298int / 4096int) % 4int == 1int);
        assert((5314298int / 16384int) % 4int == 0int);
        assert((5314298int / 65536int) % 4int == 1int);
        assert((5314298int / 262144int) % 4int == 0int);
        assert((5314298int / 1048576int) % 4int == 1int);
        assert((5314298int / 4194304int) % 4int == 1int);
        assert(year_days(1978) == 365);
    } else if y == 1979 {
        assert(month_lengths_encoded(9) == 9459438u32);
        assert((9459438int / 1int) % 4int == 2int);
        assert((9459438int / 4int) % 4int == 3int);
        assert((9459438int / 16int) % 4int == 2int);
        assert((9459438int / 64int) % 4int == 3int);
        assert((9459438int / 256int) % 4int == 2int);
        assert((9459438int / 1024int) % 4int == 1int);
        assert((9459438int / 4096int) % 4int == 1int);
        assert((9459438int / 16384int) % 4int == 1int);
        assert((9459438int / 65536int) % 4int == 0int);
        assert((9459438int / 262144int) % 4int == 0int);
        assert((9459438int / 1048576int) % 4int == 1int);
        assert((9459438int / 4194304int) % 4int == 2int);
        assert(year_days(1979) == 366);
    }
}

#[verifier::rlimit(100)]
proof fn lemma_year_days_chunk1(y: int)
    requires
        1980 <= y < 1990,
    ensures
        353 <= year_days(y) <= 366,
{
    lemma_year_days_sum(y);
    if y == 1980 {
        assert(month_lengths_encoded(10) == 8673005u32);
        assert((8673005int / 1int) % 4int == 1int);
        assert((8673005int / 4int) % 4int == 3int);
        assert((8673005int / 16int) % 4int == 2int);
        assert((8673005int / 64int) % 4int == 3int);
        assert((8673005int / 256int) % 4int == 2int);
        assert((8673005int / 1024int) % 4int == 1int);
        assert((8673005int / 4096int) % 4int == 1int);
        assert((8673005int / 16384int) % 4int == 1int);
        assert((8673005int / 65536int) % 4int == 0int);
        assert((8673005int / 262144int) % 4int == 1int);
        assert((8673005int / 1048576int) % 4int == 0int);
        assert((8673005int / 4194304int) % 4int == 2int);
        assert(year_days(1980) == 365);
    } else if y == 1981 {
        assert(month_lengths_encoded(11) == 5315258u32);
        assert((5315258int / 1int) % 4int == 2int);
        assert((5315258int / 4int) % 4int == 2int);
        assert((5315258int / 16int) % 4int == 3int);
        assert((5315258int / 64int) % 4int == 2int);
        assert((5315258int / 256int) % 4int == 2int);
        assert((5315258int / 1024int) % 4int == 2int);
        assert((5315258int / 4096int) % 4int == 1int);
        assert((5315258int / 16384int) % 4int == 0int);
        assert((5315258int / 65536int) % 4int == 1int);
        assert((5315258int / 262144int) % 4int == 0int);
        assert((5315258int / 1048576int) % 4int == 1int);
        assert((5315258int / 4194304int) % 4int == 1int);
        assert(year_days(1981) == 365);
    } else if y == 1982 {
        assert(month_lengths_encoded(12) == 5314298u32);
        assert((5314298int / 1int) % 4int == 2int);
        assert((5314298int / 4int) % 4int == 2int);
        assert((5314298int / 16int) % 4int == 3int);
        assert((5314298int / 64int) % 4int == 3int);
        assert((5314298int / 256int) % 4int == 2int);
        assert((5314298int / 1024int) % 4int == 1int);
        assert((5314298int / 4096int) % 4int == 1int);
        assert((5314298int / 16384int) % 4int == 0int);
        assert((5314298int / 65536int) % 4int == 1int);
        assert((5314298int / 262144int) % 4int == 0int);
        assert((5314298int / 1048576int) % 4int == 1int);
        assert((5314298int / 4194304int) % 4int == 1int);
        assert(year_days(1982) == 365);
    } else if y == 1983 {
        assert(month_lengths_encoded(13) == 9459438u32);
        assert((9459438int / 1int) % 4int == 2int);
        assert((9459438int / 4int) % 4int == 3int);
        assert((9459438int / 16int) % 4int == 2int);
        assert((9459438int / 64int) % 4int == 3int);
        assert((9459438int / 256int) % 4int == 2int);
        assert((9459438int / 1024int) % 4int == 1int);
        assert((9459438int / 4096int) % 4int == 1int);
        assert((9459438int / 16384int) % 4int == 1int);
        assert((9459438int / 65536int) % 4int == 0int);
        assert((9459438int / 262144int) % 4int == 0int);
        assert((9459438int / 1048576int) % 4int == 1int);
        assert((9459438int / 4194304int) % 4int == 2int);
        assert(year_days(1983) == 366);
    } else if y == 1984 {
        assert(month_lengths_encoded(14) == 8673005u32);
        assert((8673005int / 1int) % 4int == 1int);
        assert((8673005int / 4int) % 4int == 3int);
        assert((8673005int / 16int) % 4int == 2int);
        assert((8673005int / 64int) % 4int == 3int);
        assert((8673005int / 256int) % 4int == 2int);
        assert((8673005int / 1024int) % 4int == 1int);
        assert((8673005int / 4096int) % 4int == 1int);
        assert((8673005int / 16384int) % 4int == 1int);
        assert((8673005int / 65536int) % 4int == 0int);
        assert((8673005int / 262144int) % 4int == 1int);
        assert((8673005int / 1048576int) % 4int == 0int);
        assert((8673005int / 4194304int) % 4int == 2int);
        assert(year_days(1984) == 365);
    } else if y == 1985 {
        assert(month_lengths_encoded(15) == 5315258u32);
        assert((5315258int / 1int) % 4int == 2int);
        assert((5315258int / 4int) % 4int == 2int);
        assert((5315258int / 16int) % 4int == 3int);
        assert((5315258int / 64int) % 4int == 2int);
        assert((5315258int / 256int) % 4int == 2int);
        assert((5315258int / 1024int) % 4int == 2int);
        assert((5315258int / 4096int) % 4int == 1int);
        assert((5315258int / 16384int) % 4int == 0int);
        assert((5315258int / 65536int) % 4int == 1int);
        assert((5315258int / 262144int) % 4int == 0int);
        assert((5315258int / 1048576int) % 4int == 1int);
        assert((5315258int / 4194304int) % 4int == 1int);
        assert(year_days(1985) == 365);
    } else if y == 1986 {
        assert(month_lengths_encoded(16) == 5314298u32);
        assert((5314298int / 1int) % 4int == 2int);
        assert((5314298int / 4int) % 4int == 2int);
        assert((5314298int / 16int) % 4int == 3int);
        assert((5314298int / 64int) % 4int == 3int);
        assert((5314298int / 256int) % 4int == 2int);
        assert((5314298int / 1024int) % 4int == 1int);
        assert((5314298int / 4096int) % 4int == 1int);
        assert((5314298int / 16384int) % 4int == 0int);
        assert((5314298int / 65536int) % 4int == 1int);
        assert((5314298int / 262144int) % 4int == 0int);
        assert((5314298int / 1048576int) % 4int == 1int);
        assert((5314298int / 4194304int) % 4int == 1int);
        assert(year_days(1986) == 365);
    } else if y == 1987 {
        assert(month_lengths_encoded(17) == 9459438u32);
        assert((9459438int / 1int) % 4int == 2int);
        assert((9459438int / 4int) % 4int == 3int);
        assert((9459438int / 16int) % 4int == 2int);
        assert((9459438int / 64int) % 4int == 3int);
        assert((9459438int / 256int) % 4int == 2int);
        assert((9459438int / 1024int) % 4int == 1int);
        assert((9459438int / 4096int) % 4int == 1int);
        assert((9459438int / 16384int) % 4int == 1int);
        assert((9459438int / 65536int) % 4int == 0int);
        assert((9459438int / 262144int) % 4int == 0int);
        assert((9459438int / 1048576int) % 4int == 1int);
        assert((9459438int / 4194304int) % 4int == 2int);
        assert(year_days(1987) == 366);
    } else if y == 1988 {
        assert(month_lengths_encoded(18) == 8673005u32);
        assert((8673005int / 1int) % 4int == 1int);
        assert((8673005int / 4int) % 4int == 3int);
        assert((8673005int / 16int) % 4int == 2int);
        assert((8673005int / 64int) % 4int == 3int);
        assert((8673005int / 256int) % 4int == 2int);
        assert((8673005int / 1024int) % 4int == 1int);
        assert((8673005int / 4096int) % 4int == 1int);
        assert((8673005int / 16384int) % 4int == 1int);
        assert((8673005int / 65536int) % 4int == 0int);
        assert((8673005int / 262144int) % 4int == 1int);
        assert((8673005int / 1048576int) % 4int == 0int);
        assert((8673005int / 4194304int) % 4int == 2int);
        assert(year_days(1988) == 365);
    } else if y == 1989 {
        assert(month_lengths_encoded(19) == 5315258u32);
        assert((5315258int / 1int) % 4int == 2int);
        assert((5315258int / 4int) % 4int == 2int);
        assert((5315258int / 16int) % 4int == 3int);
        assert((5315258int / 64int) % 4int == 2int);
        assert((5315258int / 256int) % 4int == 2int);
        assert((5315258int / 1024int) % 4int == 2int);
        assert((5315258int / 4096int) % 4int == 1int);
        assert((5315258int / 16384int) % 4int == 0int);
        assert((5315258int / 65536int) % 4int == 1int);
        assert((5315258int / 262144int) % 4int == 0int);
        assert((5315258int / 1048576int) % 4int == 1int);
        assert((5315258int / 4194304int) % 4int == 1int);
        assert(year_days(1989) == 365);
    }
}

#[verifier::rlimit(100)]
proof fn lemma_year_days_chunk2(y: int)
    requires
        1990 <= y < 2000,
    ensures
        353 <= year_days(y) <= 366,
{
    lemma_year_days_sum(y);
    if y == 1990 {
        assert(month_lengths_encoded(20) == 5314298u32);
        assert((5314298int / 1int) % 4int == 2int);
        assert((5314298int / 4int) % 4int == 2int);
        assert((5314298int / 16int) % 4int == 3int);
        assert((5314298int / 64int) % 4int == 3int);
        assert((5314298int / 256int) % 4int == 2int);
        assert((5314298int / 1024int) % 4int == 1int);
        assert((5314298int / 4096int) % 4int == 1int);
        assert((5314298int / 16384int) % 4int == 0int);
        assert((5314298int / 65536int) % 4int == 1int);
        assert((5314298int / 262144int) % 4int == 0int);
        assert((5314298int / 1048576int) % 4int == 1int);
        assert((5314298int / 4194304int) % 4int == 1int);
        assert(year_days(1990) == 365);
    } else if y == 1991 {
        assert(month_lengths_encoded(21) == 9459438u32);
        assert((9459438int / 1int) % 4int == 2int);
        assert((9459438int / 4int) % 4int == 3int);
        assert((9459438int / 16int) % 4int == 2int);
        assert((9459438int / 64int) % 4int == 3int);
        assert((9459438int / 256int) % 4int == 2int);
        assert((9459438int / 1024int) % 4int == 1int);
        assert((9459438int / 4096int) % 4int == 1int);
        assert((9459438int / 16384int) % 4int == 1int);
        assert((9459438int / 65536int) % 4int == 0int);
        assert((9459438int / 262144int) % 4int == 0int);
        assert((9459438int / 1048576int) % 4int == 1int);
        assert((9459438int / 4194304int) % 4int == 2int);
        assert(year_days(1991) == 366);
    } else if y == 1992 {
        assert(month_lengths_encoded(22) == 8673005u32);
        assert((8673005int / 1int) % 4int == 1int);
        assert((8673005int / 4int) % 4int == 3int);
        assert((8673005int / 16int) % 4int == 2int);
        assert((8673005int / 64int) % 4int == 3int);
        assert((8673005int / 256int) % 4int == 2int);
        assert((8673005int / 1024int) % 4int == 1int);
        assert((8673005int / 4096int) % 4int == 1int);
        assert((8673005int / 16384int) % 4int == 1int);
        assert((8673005int / 65536int) % 4int == 0int);
        assert((8673005int / 262144int) % 4int == 1int);
        assert((8673005int / 1048576int) % 4int == 0int);
        assert((8673005int / 4194304int) % 4int == 2int);
        assert(year_days(1992) == 365);
    } else if y == 1993 {
        assert(month_lengths_encoded(23) == 5315258u32);
        assert((5315258int / 1int) % 4int == 2int);
        assert((5315258int / 4int) % 4int == 2int);
        assert((5315258int / 16int) % 4int == 3int);
        assert((5315258int / 64int) % 4int == 2int);
        assert((5315258int / 256int) % 4int == 2int);
        assert((5315258int / 1024int) % 4int == 2int);
        assert((5315258int / 4096int) % 4int == 1int);
        assert((5315258int / 16384int) % 4int == 0int);
        assert((5315258int / 65536int) % 4int == 1int);
        assert((5315258int / 262144int) % 4int == 0int);
        assert((5315258int / 1048576int) % 4int == 1int);
        assert((5315258int / 4194304int) % 4int == 1int);
        assert(year_days(1993) == 365);
    } else if y == 1994 {
        assert(month_lengths_encoded(24) == 5314298u32);
        assert((5314298int / 1int) % 4int == 2int);
        assert((5314298int / 4int) % 4int == 2int);
        assert((5314298int / 16int) % 4int == 3int);
        assert((5314298int / 64int) % 4int == 3int);
        assert((5314298int / 256int) % 4int == 2int);
        assert((5314298int / 1024int) % 4int == 1int);
        assert((5314298int / 4096int) % 4int == 1int);
        assert((5314298int / 16384int) % 4int == 0int);
        assert((5314298int / 65536int) % 4int == 1int);
        assert((5314298int / 262144int) % 4int == 0int);
        assert((5314298int / 1048576int) % 4int == 1int);
        assert((5314298int / 4194304int) % 4int == 1int);
        assert(year_days(1994) == 365);
    } else if y == 1995 {
        assert(month_lengths_encoded(25) == 9459438u32);
        assert((9459438int / 1int) % 4int == 2int);
        assert((9459438int / 4int) % 4int == 3int);
        assert((9459438int / 16int) % 4int == 2int);
        assert((9459438int / 64int) % 4int == 3int);
        assert((9459438int / 256int) % 4int == 2int);
        assert((9459438int / 1024int) % 4int == 1int);
        assert((9459438int / 4096int) % 4int == 1int);
        assert((9459438int / 16384int) % 4int == 1int);
        assert((9459438int / 65536int) % 4int == 0int);
        assert((9459438int / 262144int) % 4int == 0int);
        assert((9459438int / 1048576int) % 4int == 1int);
        assert((9459438int / 4194304int) % 4int == 2int);
        assert(year_days(1995) == 366);
    } else if y == 1996 {
        assert(month_lengths_encoded(26) == 8673005u32);
        assert((8673005int / 1int) % 4int == 1int);
        assert((8673005int / 4int) % 4int == 3int);
        assert((8673005int / 16int) % 4int == 2int);
        assert((8673005int / 64int) % 4int == 3int);
        assert((8673005int / 256int) % 4int == 2int);
        assert((8673005int / 1024int) % 4int == 1int);
        assert((8673005int / 4096int) % 4int == 1int);
        assert((8673005int / 16384int) % 4int == 1int);
        assert((8673005int / 65536int) % 4int == 0int);
        assert((8673005int / 262144int) % 4int == 1int);
        assert((8673005int / 1048576int) % 4int == 0int);
        assert((8673005int / 4194304int) % 4int == 2int);
        assert(year_days(1996) == 365);
    } else if y == 1997 {
        assert(month_lengths_encoded(27) == 5315258u32);
        assert((5315258int / 1int) % 4int == 2int);
        assert((5315258int / 4int) % 4int == 2int);
        assert((5315258int / 16int) % 4int == 3int);
        assert((5315258int / 64int) % 4int == 2int);
        assert((5315258int / 256int) % 4int == 2int);
        assert((5315258int / 1024int) % 4int == 2int);
        assert((5315258int / 4096int) % 4int == 1int);
        assert((5315258int / 16384int) % 4int == 0int);
        assert((5315258int / 65536int) % 4int == 1int);
        assert((5315258int / 262144int) % 4int == 0int);
        assert((5315258int / 1048576int) % 4int == 1int);
        assert((5315258int / 4194304int) % 4int == 1int);
        assert(year_days(1997) == 365);
    } else if y == 1998 {
        assert(month_lengths_encoded(28) == 8673005u32);
        assert((8673005int / 1int) % 4int == 1int);
        assert((8673005int / 4int) % 4int == 3int);
        assert((8673005int / 16int) % 4int == 2int);
        assert((8673005int / 64int) % 4int == 3int);
        assert((8673005int / 256int) % 4int == 2int);
        assert((8673005int / 1024int) % 4int == 1int);
        assert((8673005int / 4096int) % 4int == 1int);
        assert((8673005int / 16384int) % 4int == 1int);
        assert((8673005int / 65536int) % 4int == 0int);
        assert((8673005int / 262144int) % 4int == 1int);
        assert((8673005int / 1048576int) % 4int == 0int);
        assert((8673005int / 4194304int) % 4int == 2int);
        assert(year_days(1998) == 365);
    } else if y == 1999 {
        assert(month_lengths_encoded(29) == 9459438u32);
        assert((9459438int / 1int) % 4int == 2int);
        assert((9459438int / 4int) % 4int == 3int);
        assert((9459438int / 16int) % 4int == 2int);
        assert((9459438int / 64int) % 4int == 3int);
        assert((9459438int / 256int) % 4int == 2int);
        assert((9459438int / 1024int) % 4int == 1int);
        assert((9459438int / 4096int) % 4int == 1int);
        assert((9459438int / 16384int) % 4int == 1int);
        assert((9459438int / 65536int) % 4int == 0int);
        assert((9459438int / 262144int) % 4int == 0int);
        assert((9459438int / 1048576int) % 4int == 1int);
        assert((9459438int / 4194304int) % 4int == 2int);
        assert(year_days(1999) == 366);
    }
}

#[verifier::rlimit(100)]
proof fn lemma_year_days_chunk3(y: int)
    requires
        2000 <= y < 2010,
    ensures
        353 <= year_days(y) <= 366,
{
    lemma_year_days_sum(y);
    if y == 2000 {
        assert(month_lengths_encoded(30) == 8673005u32);
        assert((8673005int / 1int) % 4int == 1int);
        assert((8673005int / 4int) % 4int == 3int);
        assert((8673005int / 16int) % 4int == 2int);
        assert((8673005int / 64int) % 4int == 3int);
        assert((8673005int / 256int) % 4int == 2int);
        assert((8673005int / 1024int) % 4int == 1int);
        assert((8673005int / 4096int) % 4int == 1int);
        assert((8673005int / 16384int) % 4int == 1int);
        assert((8673005int / 65536int) % 4int == 0int);
        assert((8673005int / 262144int) % 4int == 1int);
        assert((8673005int / 1048576int) % 4int == 0int);
        assert((8673005int / 4194304int) % 4int == 2int);
        assert(year_days(2000) == 365);
    } else if y == 2001 {
        assert(month_lengths_encoded(31) == 5315258u32);
        assert((5315258int / 1int) % 4int == 2int);
        assert((5315258int / 4int) % 4int == 2int);
        assert((5315258int / 16int) % 4int == 3int);
        assert((5315258int / 64int) % 4int == 2int);
        assert((5315258int / 256int) % 4int == 2int);
        assert((5315258int / 1024int) % 4int == 2int);
        assert((5315258int / 4096int) % 4int == 1int);
        assert((5315258int / 16384int) % 4int == 0int);
        assert((5315258int / 65536int) % 4int == 1int);
        assert((5315258int / 262144int) % 4int == 0int);
        assert((5315258int / 1048576int) % 4int == 1int);
        assert((5315258int / 4194304int) % 4int == 1int);
        assert(year_days(2001) == 365);
    } else if y == 2002 {
        assert(month_lengths_encoded(32) == 5314298u32);
        assert((5314298int / 1int) % 4int == 2int);
        assert((5314298int / 4int) % 4int == 2int);
        assert((5314298int / 16int) % 4int == 3int);
        assert((5314298int / 64int) % 4int == 3int);
        assert((5314298int / 256int) % 4int == 2int);
        assert((5314298int / 1024int) % 4int == 1int);
        assert((5314298int / 4096int) % 4int == 1int);
        assert((5314298int / 16384int) % 4int == 0int);
        assert((5314298int / 65536int) % 4int == 1int);
        assert((5314298int / 262144int) % 4int == 0int);
        assert((5314298int / 1048576int) % 4int == 1int);
        assert((5314298int / 4194304int) % 4int == 1int);
        assert(year_days(2002) == 365);
    } else if y == 2003 {
        assert(month_lengths_encoded(33) == 9459438u32);
        assert((9459438int / 1int) % 4int == 2int);
        assert((9459438int / 4int) % 4int == 3int);
        assert((9459438int / 16int) % 4int == 2int);
        assert((9459438int / 64int) % 4int == 3int);
        assert((9459438int / 256int) % 4int == 2int);
        assert((9459438int / 1024int) % 4int == 1int);
        assert((9459438int / 4096int) % 4int == 1int);
        assert((9459438int / 16384int) % 4int == 1int);
        assert((9459438int / 65536int) % 4int == 0int);
        assert((9459438int / 262144int) % 4int == 0int);
        assert((9459438int / 1048576int) % 4int == 1int);
        assert((9459438int / 4194304int) % 4int == 2int);
        assert(year_days(2003) == 366);
    } else if y == 2004 {
        assert(month_lengths_encoded(34) == 8673005u32);
        assert((8673005int / 1int) % 4int == 1int);
        assert((8673005int / 4int) % 4int == 3int);
        assert((8673005int / 16int) % 4int == 2int);
        assert((8673005int / 64int) % 4int == 3int);
        assert((8673005int / 256int) % 4int == 2int);
        assert((8673005int / 1024int) % 4int == 1int);
        assert((8673005int / 4096int) % 4int == 1int);
        assert((8673005int / 16384int) % 4int == 1int);
        assert((8673005int / 65536int) % 4int == 0int);
        assert((8673005int / 262144int) % 4int == 1int);
        assert((8673005int / 1048576int) % 4int == 0int);
        assert((8673005int / 4194304int) % 4int == 2int);
        assert(year_days(2004) == 365);
    } else if y == 2005 {
        assert(month_lengths_encoded(35) == 5315258u32);
        assert((5315258int / 1int) % 4int == 2int);
        assert((5315258int / 4int) % 4int == 2int);
        assert((5315258int / 16int) % 4int == 3int);
        assert((5315258int / 64int) % 4int == 2int);
        assert((5315258int / 256int) % 4int == 2int);
        assert((5315258int / 1024int) % 4int == 2int);
        assert((5315258int / 4096int) % 4int == 1int);
        assert((5315258int / 16384int) % 4int == 0int);
        assert((5315258int / 65536int) % 4int == 1int);
        assert((5315258int / 262144int) % 4int == 0int);
        assert((5315258int / 1048576int) % 4int == 1int);
        assert((5315258int / 4194304int) % 4int == 1int);
        assert(year_days(2005) == 365);
    } else if y == 2006 {
        assert(month_lengths_encoded(36) == 5314298u32);
        assert((5314298int / 1int) % 4int == 2int);
        assert((5314298int / 4int) % 4int == 2int);
        assert((5314298int / 16int) % 4int == 3int);
        assert((5314298int / 64int) % 4int == 3int);
        assert((5314298int / 256int) % 4int == 2int);
        assert((5314298int / 1024int) % 4int == 1int);
        assert((5314298int / 4096int) % 4int == 1int);
        assert((5314298int / 16384int) % 4int == 0int);
        assert((5314298int / 65536int) % 4int == 1int);
        assert((5314298int / 262144int) % 4int == 0int);
        assert((5314298int / 1048576int) % 4int == 1int);
        assert((5314298int / 4194304int) % 4int == 1int);
        assert(year_days(2006) == 365);
    } else if y == 2007 {
        assert(month_lengths_encoded(37) == 9459438u32);
        assert((9459438int / 1int) % 4int == 2int);
        assert((9459438int / 4int) % 4int == 3int);
        assert((9459438int / 16int) % 4int == 2int);
        assert((9459438int / 64int) % 4int == 3int);
        assert((9459438int / 256int) % 4int == 2int);
        assert((9459438int / 1024int) % 4int == 1int);
        assert((9459438int / 4096int) % 4int == 1int);
        assert((9459438int / 16384int) % 4int == 1int);
        assert((9459438int / 65536int) % 4int == 0int);
        assert((9459438int / 262144int) % 4int == 0int);
        assert((9459438int / 1048576int) % 4int == 1int);
        assert((9459438int / 4194304int) % 4int == 2int);
        assert(year_days(2007) == 366);
    } else if y == 2008 {
        assert(month_lengths_encoded(38) == 8473322u32);
        assert((8473322int / 1int) % 4int == 2int);
        assert((8473322int / 4int) % 4int == 2int);
        assert((8473322int / 16int) % 4int == 2int);
        assert((8473322int / 64int) % 4int == 3int);
        assert((8473322int / 256int) % 4int == 2int);
        assert((8473322int / 1024int) % 4int == 2int);
        assert((8473322int / 4096int) % 4int == 0int);
        assert((8473322int / 16384int) % 4int == 1int);
        assert((8473322int / 65536int) % 4int == 1int);
        assert((8473322int / 262144int) % 4int == 0int);
        assert((8473322int / 1048576int) % 4int == 0int);
        assert((8473322int / 4194304int) % 4int == 2int);
        assert(year_days(2008) == 365);
    } else if y == 2009 {
        assert(month_lengths_encoded(39) == 5315258u32);
        assert((5315258int / 1int) % 4int == 2int);
        assert((5315258int / 4int) % 4int == 2int);
        assert((5315258int / 16int) % 4int == 3int);
        assert((5315258int / 64int) % 4int == 2int);
        assert((5315258int / 256int) % 4int == 2int);
        assert((5315258int / 1024int) % 4int == 2int);
        assert((5315258int / 4096int) % 4int == 1int);
        assert((5315258int / 16384int) % 4int == 0int);
        assert((5315258int / 65536int) % 4int == 1int);
        assert((5315258int / 262144int) % 4int == 0int);
        assert((5315258int / 1048576int) % 4int == 1int);
        assert((5315258int / 4194304int) % 4int == 1int);
        assert(year_days(2009) == 365);
    }
}

#[verifier::rlimit(100)]
proof fn lemma_year_days_chunk4(y: int)
    requires
        2010 <= y < 2020,
    ensures
        353 <= year_days(y) <= 366,
{
    lemma_year_days_sum(y);
    if y == 2010 {
        assert(month_lengths_encoded(40) == 5314298u32);
        assert((5314298int / 1int) % 4int == 2int);
        assert((5314298int / 4int) % 4int == 2int);
        assert((5314298int / 16int) % 4int == 3int);
        assert((5314298int / 64int) % 4int == 3int);
        assert((5314298int / 256int) % 4int == 2int);
        assert((5314298int / 1024int) % 4int == 1int);
        assert((5314298int / 4096int) % 4int == 1int);
        assert((5314298int / 16384int) % 4int == 0int);
        assert((5314298int / 65536int) % 4int == 1int);
        assert((5314298int / 262144int) % 4int == 0int);
        assert((5314298int / 1048576int) % 4int == 1int);
        assert((5314298int / 4194304int) % 4int == 1int);
        assert(year_days(2010) == 365);
    } else if y == 2011 {
        assert(month_lengths_encoded(41) == 9459438u32);
        assert((9459438int / 1int) % 4int == 2int);
        assert((9459438int / 4int) % 4int == 3int);
        assert((9459438int / 16int) % 4int == 2int);
        assert((9459438int / 64int) % 4int == 3int);
        assert((9459438int / 256int) % 4int == 2int);
        assert((9459438int / 1024int) % 4int == 1int);
        assert((9459438int / 4096int) % 4int == 1int);
        assert((9459438int / 16384int) % 4int == 1int);
        assert((9459438int / 65536int) % 4int == 0int);
        assert((9459438int / 262144int) % 4int == 0int);
        assert((9459438int / 1048576int) % 4int == 1int);
        assert((9459438int / 4194304int) % 4int == 2int);
        assert(year_days(2011) == 366);
    } else if y == 2012 {
        assert(month_lengths_encoded(42) == 5327594u32);
        assert((5327594int / 1int) % 4int == 2int);
        assert((5327594int / 4int) % 4int == 2int);
        assert((5327594int / 16int) % 4int == 2int);
        assert((5327594int / 64int) % 4int == 3int);
        assert((5327594int / 256int) % 4int == 2int);
        assert((5327594int / 1024int) % 4int == 2int);
        assert((5327594int / 4096int) % 4int == 0int);
        assert((5327594int / 16384int) % 4int == 1int);
        assert((5327594int / 65536int) % 4int == 1int);
        assert((5327594int / 262144int) % 4int == 0int);
        assert((5327594int / 1048576int) % 4int == 1int);
        assert((5327594int / 4194304int) % 4int == 1int);
        assert(year_days(2012) == 365);
    } else if y == 2013 {
        assert(month_lengths_encoded(43) == 5315258u32);
        assert((5315258int / 1int) % 4int == 2int);
        assert((5315258int / 4int) % 4int == 2int);
        assert((5315258int / 16int) % 4int == 3int);
        assert((5315258int / 64int) % 4int == 2int);
        assert((5315258int / 256int) % 4int == 2int);
        assert((5315258int / 1024int) % 4int == 2int);
        assert((5315258int / 4096int) % 4int == 1int);
        assert((5315258int / 16384int) % 4int == 0int);
        assert((5315258int / 65536int) % 4int == 1int);
        assert((5315258int / 262144int) % 4int == 0int);
        assert((5315258int / 1048576int) % 4int == 1int);
        assert((5315258int / 4194304int) % 4int == 1int);
        assert(year_days(2013) == 365);
    } else if y == 2014 {
        assert(month_lengths_encoded(44) == 5314298u32);
        assert((5314298int / 1int) % 4int == 2int);
        assert((5314298int / 4int) % 4int == 2int);
        assert((5314298int / 16int) % 4int == 3int);
        assert((5314298int / 64int) % 4int == 3int);
        assert((5314298int / 256int) % 4int == 2int);
        assert((5314298int / 1024int) % 4int == 1int);
        assert((5314298int / 4096int) % 4int == 1int);
        assert((5314298int / 16384int) % 4int == 0int);
        assert((5314298int / 65536int) % 4int == 1int);
        assert((5314298int / 262144int) % 4int == 0int);
        assert((5314298int / 1048576int) % 4int == 1int);
        assert((5314298int / 4194304int) % 4int == 1int);
        assert(year_days(2014) == 365);
    } else if y == 2015 {
        assert(month_lengths_encoded(45) == 9459438u32);
        assert((9459438int / 1int) % 4int == 2int);
        assert((9459438int / 4int) % 4int == 3int);
        assert((9459438int / 16int) % 4int == 2int);
        assert((9459438int / 64int) % 4int == 3int);
        assert((9459438int / 256int) % 4int == 2int);
        assert((9459438int / 1024int) % 4int == 1int);
        assert((9459438int / 4096int) % 4int == 1int);
        assert((9459438int / 16384int) % 4int == 1int);
        assert((9459438int / 65536int) % 4int == 0int);
        assert((9459438int / 262144int) % 4int == 0int);
        assert((9459438int / 1048576int) % 4int == 1int);
        assert((9459438int / 4194304int) % 4int == 2int);
        assert(year_days(2015) == 366);
    } else if y == 2016 {
        assert(month_lengths_encoded(46) == 5327594u32);
        assert((5327594int / 1int) % 4int == 2int);
        assert((5327594int / 4int) % 4int == 2int);
        assert((5327594int / 16int) % 4int == 2int);
        assert((5327594int / 64int) % 4int == 3int);
        assert((5327594int / 256int) % 4int == 2int);
        assert((5327594int / 1024int) % 4int == 2int);
        assert((5327594int / 4096int) % 4int == 0int);
        assert((5327594int / 16384int) % 4int == 1int);
        assert((5327594int / 65536int) % 4int == 1int);
        assert((5327594int / 262144int) % 4int == 0int);
        assert((5327594int / 1048576int) % 4int == 1int);
        assert((5327594int / 4194304int) % 4int == 1int);
        assert(year_days(2016) == 365);
    } else if y == 2017 {
        assert(month_lengths_encoded(47) == 5315258u32);
        assert((5315258int / 1int) % 4int == 2int);
        assert((5315258int / 4int) % 4int == 2int);
        assert((5315258int / 16int) % 4int == 3int);
        assert((5315258int / 64int) % 4int == 2int);
        assert((5315258int / 256int) % 4int == 2int);
        assert((5315258int / 1024int) % 4int == 2int);
        assert((5315258int / 4096int) % 4int == 1int);
        assert((5315258int / 16384int) % 4int == 0int);
        assert((5315258int / 65536int) % 4int == 1int);
        assert((5315258int / 262144int) % 4int == 0int);
        assert((5315258int / 1048576int) % 4int == 1int);
        assert((5315258int / 4194304int) % 4int == 1int);
        assert(year_days(2017) == 365);
    } else if y == 2018 {
        assert(month_lengths_encoded(48) == 5314286u32);
        assert((5314286int / 1int) % 4int == 2int);
        assert((5314286int / 4int) % 4int == 3int);
        assert((5314286int / 16int) % 4int == 2int);
        assert((5314286int / 64int) % 4int == 3int);
        assert((5314286int / 256int) % 4int == 2int);
        assert((5314286int / 1024int) % 4int == 1int);
        assert((5314286int / 4096int) % 4int == 1int);
        assert((5314286int / 16384int) % 4int == 0int);
        assert((5314286int / 65536int) % 4int == 1int);
        assert((5314286int / 262144int) % 4int == 0int);
        assert((5314286int / 1048576int) % 4int == 1int);
        assert((5314286int / 4194304int) % 4int == 1int);
        assert(year_days(2018) == 365);
    } else if y == 2019 {
        assert(month_lengths_encoded(49) == 8673006u32);
        assert((8673006int / 1int) % 4int == 2int);
        assert((8673006int / 4int) % 4int == 3int);
        assert((8673006int / 16int) % 4int == 2int);
        assert((8673006int / 64int) % 4int == 3int);
        assert((8673006int / 256int) % 4int == 2int);
        assert((8673006int / 1024int) % 4int == 1int);
        assert((8673006int / 4096int) % 4int == 1int);
        assert((8673006int / 16384int) % 4int == 1int);
        assert((8673006int / 65536int) % 4int == 0int);
        assert((8673006int / 262144int) % 4int == 1int);
        assert((8673006int / 1048576int) % 4int == 0int);
        assert((8673006int / 4194304int) % 4int == 2int);
        assert(year_days(2019) == 366);
    }
}

#[verifier::rlimit(100)]
proof fn lemma_year_days_chunk5(y: int)
    requires
        2020 <= y < 2030,
    ensures
        353 <= year_days(y) <= 366,
{
    lemma_year_days_sum(y);
    if y == 2020 {
        assert(month_lengths_encoded(50) == 5315306u32);
        assert((5315306int / 1int) % 4int == 2int);
        assert((5315306int / 4int) % 4int == 2int);
        assert((5315306int / 16int) % 4int == 2int);
        assert((5315306int / 64int) % 4int == 3int);
        assert((5315306int / 256int) % 4int == 2int);
        assert((5315306int / 1024int) % 4int == 2int);
        assert((5315306int / 4096int) % 4int == 1int);
        assert((5315306int / 16384int) % 4int == 0int);
        assert((5315306int / 65536int) % 4int == 1int);
        assert((5315306int / 262144int) % 4int == 0int);
        assert((5315306int / 1048576int) % 4int == 1int);
        assert((5315306int / 4194304int) % 4int == 1int);
        assert(year_days(2020) == 365);
    } else if y == 2021 {
        assert(month_lengths_encoded(51) == 5315258u32);
        assert((5315258int / 1int) % 4int == 2int);
        assert((5315258int / 4int) % 4int == 2int);
        assert((5315258int / 16int) % 4int == 3int);
        assert((5315258int / 64int) % 4int == 2int);
        assert((5315258int / 256int) % 4int == 2int);
        assert((5315258int / 1024int) % 4int == 2int);
        assert((5315258int / 4096int) % 4int == 1int);
        assert((5315258int / 16384int) % 4int == 0int);
        assert((5315258int / 65536int) % 4int == 1int);
        assert((5315258int / 262144int) % 4int == 0int);
        assert((5315258int / 1048576int) % 4int == 1int);
        assert((5315258int / 4194304int) % 4int == 1int);
        assert(year_days(2021) == 365);
    } else if y == 2022 {
        assert(month_lengths_encoded(52) == 5265134u32);
        assert((5265134int / 1int) % 4int == 2int);
        assert((5265134int / 4int) % 4int == 3int);
        assert((5265134int / 16int) % 4int == 2int);
        assert((5265134int / 64int) % 4int == 3int);
        assert((5265134int / 256int) % 4int == 2int);
        assert((5265134int / 1024int) % 4int == 1int);
        assert((5265134int / 4096int) % 4int == 1int);
        assert((5265134int / 16384int) % 4int == 1int);
        assert((5265134int / 65536int) % 4int == 0int);
        assert((5265134int / 262144int) % 4int == 0int);
        assert((5265134int / 1048576int) % 4int == 1int);
        assert((5265134int / 4194304int) % 4int == 1int);
        assert(year_days(2022) == 365);
    } else if y == 2023 {
        assert(month_lengths_encoded(53) == 8673006u32);
        assert((8673006int / 1int) % 4int == 2int);
        assert((8673006int / 4int) % 4int == 3int);
        assert((8673006int / 16int) % 4int == 2int);
        assert((8673006int / 64int) % 4int == 3int);
        assert((8673006int / 256int) % 4int == 2int);
        assert((8673006int / 1024int) % 4int == 1int);
        assert((8673006int / 4096int) % 4int == 1int);
        assert((8673006int / 16384int) % 4int == 1int);
        assert((8673006int / 65536int) % 4int == 0int);
        assert((8673006int / 262144int) % 4int == 1int);
        assert((8673006int / 1048576int) % 4int == 0int);
        assert((8673006int / 4194304int) % 4int == 2int);
        assert(year_days(2023) == 366);
    } else if y == 2024 {
        assert(month_lengths_encoded(54) == 5315306u32);
        assert((5315306int / 1int) % 4int == 2int);
        assert((5315306int / 4int) % 4int == 2int);
        assert((5315306int / 16int) % 4int == 2int);
        assert((5315306int / 64int) % 4int == 3int);
        assert((5315306int / 256int) % 4int == 2int);
        assert((5315306int / 1024int) % 4int == 2int);
        assert((5315306int / 4096int) % 4int == 1int);
        assert((5315306int / 16384int) % 4int == 0int);
        assert((5315306int / 65536int) % 4int == 1int);
        assert((5315306int / 262144int) % 4int == 0int);
        assert((5315306int / 1048576int) % 4int == 1int);
        assert((5315306int / 4194304int) % 4int == 1int);
        assert(year_days(2024) == 365);
    } else if y == 2025 {
        assert(month_lengths_encoded(55) == 5315258u32);
        assert((5315258int / 1int) % 4int == 2int);
        assert((5315258int / 4int) % 4int == 2int);
        assert((5315258int / 16int) % 4int == 3int);
        assert((5315258int / 64int) % 4int == 2int);
        assert((5315258int / 256int) % 4int == 2int);
        assert((5315258int / 1024int) % 4int == 2int);
        assert((5315258int / 4096int) % 4int == 1int);
        assert((5315258int / 16384int) % 4int == 0int);
        assert((5315258int / 65536int) % 4int == 1int);
        assert((5315258int / 262144int) % 4int == 0int);
        assert((5315258int / 1048576int) % 4int == 1int);
        assert((5315258int / 4194304int) % 4int == 1int);
        assert(year_days(2025) == 365);
    } else if y == 2026 {
        assert(month_lengths_encoded(56) == 9459438u32);
        assert((9459438int / 1int) % 4int == 2int);
        assert((9459438int / 4int) % 4int == 3int);
        assert((9459438int / 16int) % 4int == 2int);
        assert((9459438int / 64int) % 4int == 3int);
        assert((9459438int / 256int) % 4int == 2int);
        assert((9459438int / 1024int) % 4int == 1int);
        assert((9459438int / 4096int) % 4int == 1int);
        assert((9459438int / 16384int) % 4int == 1int);
        assert((9459438int / 65536int) % 4int == 0int);
        assert((9459438int / 262144int) % 4int == 0int);
        assert((9459438int / 1048576int) % 4int == 1int);
        assert((9459438int / 4194304int) % 4int == 2int);
        assert(year_days(2026) == 366);
    } else if y == 2027 {
        assert(month_lengths_encoded(57) == 8673005u32);
        assert((8673005int / 1int) % 4int == 1int);
        assert((8673005int / 4int) % 4int == 3int);
        assert((8673005int / 16int) % 4int == 2int);
        assert((8673005int / 64int) % 4int == 3int);
        assert((8673005int / 256int) % 4int == 2int);
        assert((8673005int / 1024int) % 4int == 1int);
        assert((8673005int / 4096int) % 4int == 1int);
        assert((8673005int / 16384int) % 4int == 1int);
        assert((8673005int / 65536int) % 4int == 0int);
        assert((8673005int / 262144int) % 4int == 1int);
        assert((8673005int / 1048576int) % 4int == 0int);
        assert((8673005int / 4194304int) % 4int == 2int);
        assert(year_days(2027) == 365);
    } else if y == 2028 {
        assert(month_lengths_encoded(58) == 5315258u32);
        assert((5315258int / 1int) % 4int == 2int);
        assert((5315258int / 4int) % 4int == 2int);
        assert((5315258int / 16int) % 4int == 3int);
        assert((5315258int / 64int) % 4int == 2int);
        assert((5315258int / 256int) % 4int == 2int);
        assert((5315258int / 1024int) % 4int == 2int);
        assert((5315258int / 4096int) % 4int == 1int);
        assert((5315258int / 16384int) % 4int == 0int);
        assert((5315258int / 65536int) % 4int == 1int);
        assert((5315258int / 262144int) % 4int == 0int);
        assert((5315258int / 1048576int) % 4int == 1int);
        assert((5315258int / 4194304int) % 4int == 1int);
        assert(year_days(2028) == 365);
    } else if y == 2029 {
        assert(month_lengths_encoded(59) == 5314490u32);
        assert((5314490int / 1int) % 4int == 2int);
        assert((5314490int / 4int) % 4int == 2int);
        assert((5314490int / 16int) % 4int == 3int);
        assert((5314490int / 64int) % 4int == 2int);
        assert((5314490int / 256int) % 4int == 3int);
        assert((5314490int / 1024int) % 4int == 1int);
        assert((5314490int / 4096int) % 4int == 1int);
        assert((5314490int / 16384int) % 4int == 0int);
        assert((5314490int / 65536int) % 4int == 1int);
        assert((5314490int / 262144int) % 4int == 0int);
        assert((5314490int / 1048576int) % 4int == 1int);
        assert((5314490int / 4194304int) % 4int == 1int);
        assert(year_days(2029) == 365);
    }
}

#[verifier::rlimit(100)]
proof fn lemma_year_days_chunk6(y: int)
    requires
        2030 <= y < 2040,
    ensures
        353 <= year_days(y) <= 366,
{
    lemma_year_days_sum(y);
    if y == 2030 {
        assert(month_lengths_encoded(60) == 8673006u32);
        assert((8673006int / 1int) % 4int == 2int);
        assert((8673006int / 4int) % 4int == 3int);
        assert((8673006int / 16int) % 4int == 2int);
        assert((8673006int / 64int) % 4int == 3int);
        assert((8673006int / 256int) % 4int == 2int);
        assert((8673006int / 1024int) % 4int == 1int);
        assert((8673006int / 4096int) % 4int == 1int);
        assert((8673006int / 16384int) % 4int == 1int);
        assert((8673006int / 65536int) % 4int == 0int);
        assert((8673006int / 262144int) % 4int == 1int);
        assert((8673006int / 1048576int) % 4int == 0int);
        assert((8673006int / 4194304int) % 4int == 2int);
        assert(year_days(2030) == 366);
    } else if y == 2031 {
        assert(month_lengths_encoded(61) == 8673005u32);
        assert((8673005int / 1int) % 4int == 1int);
        assert((8673005int / 4int) % 4int == 3int);
        assert((8673005int / 16int) % 4int == 2int);
        assert((8673005int / 64int) % 4int == 3int);
        assert((8673005int / 256int) % 4int == 2int);
        assert((8673005int / 1024int) % 4int == 1int);
        assert((8673005int / 4096int) % 4int == 1int);
        assert((8673005int / 16384int) % 4int == 1int);
        assert((8673005int / 65536int) % 4int == 0int);
        assert((8673005int / 262144int) % 4int == 1int);
        assert((8673005int / 1048576int) % 4int == 0int);
        assert((8673005int / 4194304int) % 4int == 2int);
        assert(year_days(2031) == 365);
    } else if y == 2032 {
        assert(month_lengths_encoded(62) == 5315258u32);
        assert((5315258int / 1int) % 4int == 2int);
        assert((5315258int / 4int) % 4int == 2int);
        assert((5315258int / 16int) % 4int == 3int);
        assert((5315258int / 64int) % 4int == 2int);
        assert((5315258int / 256int) % 4int == 2int);
        assert((5315258int / 1024int) % 4int == 2int);
        assert((5315258int / 4096int) % 4int == 1int);
        assert((5315258int / 16384int) % 4int == 0int);
        assert((5315258int / 65536int) % 4int == 1int);
        assert((5315258int / 262144int) % 4int == 0int);
        assert((5315258int / 1048576int) % 4int == 1int);
        assert((5315258int / 4194304int) % 4int == 1int);
        assert(year_days(2032) == 365);
    } else if y == 2033 {
        assert(month_lengths_encoded(63) == 5314298u32);
        assert((5314298int / 1int) % 4int == 2int);
        assert((5314298int / 4int) % 4int == 2int);
        assert((5314298int / 16int) % 4int == 3int);
        assert((5314298int / 64int) % 4int == 3int);
        assert((5314298int / 256int) % 4int == 2int);
        assert((5314298int / 1024int) % 4int == 1int);
        assert((5314298int / 4096int) % 4int == 1int);
        assert((5314298int / 16384int) % 4int == 0int);
        assert((5314298int / 65536int) % 4int == 1int);
        assert((5314298int / 262144int) % 4int == 0int);
        assert((5314298int / 1048576int) % 4int == 1int);
        assert((5314298int / 4194304int) % 4int == 1int);
        assert(year_days(2033) == 365);
    } else if y == 2034 {
        assert(month_lengths_encoded(64) == 9459438u32);
        assert((9459438int / 1int) % 4int == 2int);
        assert((9459438int / 4int) % 4int == 3int);
        assert((9459438int / 16int) % 4int == 2int);
        assert((9459438int / 64int) % 4int == 3int);
        assert((9459438int / 256int) % 4int == 2int);
        assert((9459438int / 1024int) % 4int == 1int);
        assert((9459438int / 4096int) % 4int == 1int);
        assert((9459438int / 16384int) % 4int == 1int);
        assert((9459438int / 65536int) % 4int == 0int);
        assert((9459438int / 262144int) % 4int == 0int);
        assert((9459438int / 1048576int) % 4int == 1int);
        assert((9459438int / 4194304int) % 4int == 2int);
        assert(year_days(2034) == 366);
    } else if y == 2035 {
        assert(month_lengths_encoded(65) == 8473325u32);
        assert((8473325int / 1int) % 4int == 1int);
        assert((8473325int / 4int) % 4int == 3int);
        assert((8473325int / 16int) % 4int == 2int);
        assert((8473325int / 64int) % 4int == 3int);
        assert((8473325int / 256int) % 4int == 2int);
        assert((8473325int / 1024int) % 4int == 2int);
        assert((8473325int / 4096int) % 4int == 0int);
        assert((8473325int / 16384int) % 4int == 1int);
        assert((8473325int / 65536int) % 4int == 1int);
        assert((8473325int / 262144int) % 4int == 0int);
        assert((8473325int / 1048576int) % 4int == 0int);
        assert((8473325int / 4194304int) % 4int == 2int);
        assert(year_days(2035) == 365);
    } else if y == 2036 {
        assert(month_lengths_encoded(66) == 5315258u32);
        assert((5315258int / 1int) % 4int == 2int);
        assert((5315258int / 4int) % 4int == 2int);
        assert((5315258int / 16int) % 4int == 3int);
        assert((5315258int / 64int) % 4int == 2int);
        assert((5315258int / 256int) % 4int == 2int);
        assert((5315258int / 1024int) % 4int == 2int);
        assert((5315258int / 4096int) % 4int == 1int);
        assert((5315258int / 16384int) % 4int == 0int);
        assert((5315258int / 65536int) % 4int == 1int);
        assert((5315258int / 262144int) % 4int == 0int);
        assert((5315258int / 1048576int) % 4int == 1int);
        assert((5315258int / 4194304int) % 4int == 1int);
        assert(year_days(2036) == 365);
    } else if y == 2037 {
        assert(month_lengths_encoded(67) == 5314298u32);
        assert((5314298int / 1int) % 4int == 2int);
        assert((5314298int / 4int) % 4int == 2int);
        assert((5314298int / 16int) % 4int == 3int);
        assert((5314298int / 64int) % 4int == 3int);
        assert((5314298int / 256int) % 4int == 2int);
        assert((5314298int / 1024int) % 4int == 1int);
        assert((5314298int / 4096int) % 4int == 1int);
        assert((5314298int / 16384int) % 4int == 0int);
        assert((5314298int / 65536int) % 4int == 1int);
        assert((5314298int / 262144int) % 4int == 0int);
        assert((5314298int / 1048576int) % 4int == 1int);
        assert((5314298int / 4194304int) % 4int == 1int);
        assert(year_days(2037) == 365);
    } else if y == 2038 {
        assert(month_lengths_encoded(68) == 9459438u32);
        assert((9459438int / 1int) % 4int == 2int);
        assert((9459438int / 4int) % 4int == 3int);
        assert((9459438int / 16int) % 4int == 2int);
        assert((9459438int / 64int) % 4int == 3int);
        assert((9459438int / 256int) % 4int == 2int);
        assert((9459438int / 1024int) % 4int == 1int);
        assert((9459438int / 4096int) % 4int == 1int);
        assert((9459438int / 16384int) % 4int == 1int);
        assert((9459438int / 65536int) % 4int == 0int);
        assert((9459438int / 262144int) % 4int == 0int);
        assert((9459438int / 1048576int) % 4int == 1int);
        assert((9459438int / 4194304int) % 4int == 2int);
        assert(year_days(2038) == 366);
    } else if y == 2039 {
        assert(month_lengths_encoded(69) == 5327594u32);
        assert((5327594int / 1int) % 4int == 2int);
        assert((5327594int / 4int) % 4int == 2int);
        assert((5327594int / 16int) % 4int == 2int);
        assert((5327594int / 64int) % 4int == 3int);
        assert((5327594int / 256int) % 4int == 2int);
        assert((5327594int / 1024int) % 4int == 2int);
        assert((5327594int / 4096int) % 4int == 0int);
        assert((5327594int / 16384int) % 4int == 1int);
        assert((5327594int / 65536int) % 4int == 1int);
        assert((5327594int / 262144int) % 4int == 0int);
        assert((5327594int / 1048576int) % 4int == 1int);
        assert((5327594int / 4194304int) % 4int == 1int);
        assert(year_days(2039) == 365);
    }
}

#[verifier::rlimit(100)]
proof fn lemma_year_days_chunk7(y: int)
    requires
        2040 <= y < 2050,
    ensures
        353 <= year_days(y) <= 366,
{
    lemma_year_days_sum(y);
    if y == 2040 {
        assert(month_lengths_encoded(70) == 5315258u32);
        assert((5315258int / 1int) % 4int == 2int);
        assert((5315258int / 4int) % 4int == 2int);
        assert((5315258int / 16int) % 4int == 3int);
        assert((5315258int / 64int) % 4int == 2int);
        assert((5315258int / 256int) % 4int == 2int);
        assert((5315258int / 1024int) % 4int == 2int);
        assert((5315258int / 4096int) % 4int == 1int);
        assert((5315258int / 16384int) % 4int == 0int);
        assert((5315258int / 65536int) % 4int == 1int);
        assert((5315258int / 262144int) % 4int == 0int);
        assert((5315258int / 1048576int) % 4int == 1int);
        assert((5315258int / 4194304int) % 4int == 1int);
        assert(year_days(2040) == 365);
    } else if y == 2041 {
        assert(month_lengths_encoded(71) == 5314298u32);
        assert((5314298int / 1int) % 4int == 2int);
        assert((5314298int / 4int) % 4int == 2int);
        assert((5314298int / 16int) % 4int == 3int);
        assert((5314298int / 64int) % 4int == 3int);
        assert((5314298int / 256int) % 4int == 2int);
        assert((5314298int / 1024int) % 4int == 1int);
        assert((5314298int / 4096int) % 4int == 1int);
        assert((5314298int / 16384int) % 4int == 0int);
        assert((5314298int / 65536int) % 4int == 1int);
        assert((5314298int / 262144int) % 4int == 0int);
        assert((5314298int / 1048576int) % 4int == 1int);
        assert((5314298int / 4194304int) % 4int == 1int);
        assert(year_days(2041) == 365);
    } else if y == 2042 {
        assert(month_lengths_encoded(72) == 9459438u32);
        assert((9459438int / 1int) % 4int == 2int);
        assert((9459438int / 4int) % 4int == 3int);
        assert((9459438int / 16int) % 4int == 2int);
        assert((9459438int / 64int) % 4int == 3int);
        assert((9459438int / 256int) % 4int == 2int);
        assert((9459438int / 1024int) % 4int == 1int);
        assert((9459438int / 4096int) % 4int == 1int);
        assert((9459438int / 16384int) % 4int == 1int);
        assert((9459438int / 65536int) % 4int == 0int);
        assert((9459438int / 262144int) % 4int == 0int);
        assert((9459438int / 1048576int) % 4int == 1int);
        assert((9459438int / 4194304int) % 4int == 2int);
        assert(year_days(2042) == 366);
    } else if y == 2043 {
        assert(month_lengths_encoded(73) == 5327594u32);
        assert((5327594int / 1int) % 4int == 2int);
        assert((5327594int / 4int) % 4int == 2int);
        assert((5327594int / 16int) % 4int == 2int);
        assert((5327594int / 64int) % 4int == 3int);
        assert((5327594int / 256int) % 4int == 2int);
        assert((5327594int / 1024int) % 4int == 2int);
        assert((5327594int / 4096int) % 4int == 0int);
        assert((5327594int / 16384int) % 4int == 1int);
        assert((5327594int / 65536int) % 4int == 1int);
        assert((5327594int / 262144int) % 4int == 0int);
        assert((5327594int / 1048576int) % 4int == 1int);
        assert((5327594int / 4194304int) % 4int == 1int);
        assert(year_days(2043) == 365);
    } else if y == 2044 {
        assert(month_lengths_encoded(74) == 5315258u32);
        assert((5315258int / 1int) % 4int == 2int);
        assert((5315258int / 4int) % 4int == 2int);
        assert((5315258int / 16int) % 4int == 3int);
        assert((5315258int / 64int) % 4int == 2int);
        assert((5315258int / 256int) % 4int == 2int);
        assert((5315258int / 1024int) % 4int == 2int);
        assert((5315258int / 4096int) % 4int == 1int);
        assert((5315258int / 16384int) % 4int == 0int);
        assert((5315258int / 65536int) % 4int == 1int);
        assert((5315258int / 262144int) % 4int == 0int);
        assert((5315258int / 1048576int) % 4int == 1int);
        assert((5315258int / 4194304int) % 4int == 1int);
        assert(year_days(2044) == 365);
    } else if y == 2045 {
        assert(month_lengths_encoded(75) == 5314286u32);
        assert((5314286int / 1int) % 4int == 2int);
        assert((5314286int / 4int) % 4int == 3int);
        assert((5314286int / 16int) % 4int == 2int);
        assert((5314286int / 64int) % 4int == 3int);
        assert((5314286int / 256int) % 4int == 2int);
        assert((5314286int / 1024int) % 4int == 1int);
        assert((5314286int / 4096int) % 4int == 1int);
        assert((5314286int / 16384int) % 4int == 0int);
        assert((5314286int / 65536int) % 4int == 1int);
        assert((5314286int / 262144int) % 4int == 0int);
        assert((5314286int / 1048576int) % 4int == 1int);
        assert((5314286int / 4194304int) % 4int == 1int);
        assert(year_days(2045) == 365);
    } else if y == 2046 {
        assert(month_lengths_encoded(76) == 9459438u32);
        assert((9459438int / 1int) % 4int == 2int);
        assert((9459438int / 4int) % 4int == 3int);
        assert((9459438int / 16int) % 4int == 2int);
        assert((9459438int / 64int) % 4int == 3int);
        assert((9459438int / 256int) % 4int == 2int);
        assert((9459438int / 1024int) % 4int == 1int);
        assert((9459438int / 4096int) % 4int == 1int);
        assert((9459438int / 16384int) % 4int == 1int);
        assert((9459438int / 65536int) % 4int == 0int);
        assert((9459438int / 262144int) % 4int == 0int);
        assert((9459438int / 1048576int) % 4int == 1int);
        assert((9459438int / 4194304int) % 4int == 2int);
        assert(year_days(2046) == 366);
    } else if y == 2047 {
        assert(month_lengths_encoded(77) == 5315306u32);
        assert((5315306int / 1int) % 4int == 2int);
        assert((5315306int / 4int) % 4int == 2int);
        assert((5315306int / 16int) % 4int == 2int);
        assert((5315306int / 64int) % 4int == 3int);
        assert((5315306int / 256int) % 4int == 2int);
        assert((5315306int / 1024int) % 4int == 2int);
        assert((5315306int / 4096int) % 4int == 1int);
        assert((5315306int / 16384int) % 4int == 0int);
        assert((5315306int / 65536int) % 4int == 1int);
        assert((5315306int / 262144int) % 4int == 0int);
        assert((5315306int / 1048576int) % 4int == 1int);
        assert((5315306int / 4194304int) % 4int == 1int);
        assert(year_days(2047) == 365);
    } else if y == 2048 {
        assert(month_lengths_encoded(78) == 5315258u32);
        assert((5315258int / 1int) % 4int == 2int);
        assert((5315258int / 4int) % 4int == 2int);
        assert((5315258int / 16int) % 4int == 3int);
        assert((5315258int / 64int) % 4int == 2int);
        assert((5315258int / 256int) % 4int == 2int);
        assert((5315258int / 1024int) % 4int == 2int);
        assert((5315258int / 4096int) % 4int == 1int);
        assert((5315258int / 16384int) % 4int == 0int);
        assert((5315258int / 65536int) % 4int == 1int);
        assert((5315258int / 262144int) % 4int == 0int);
        assert((5315258int / 1048576int) % 4int == 1int);
        assert((5315258int / 4194304int) % 4int == 1int);
        assert(year_days(2048) == 365);
    } else if y == 2049 {
        assert(month_lengths_encoded(79) == 5265134u32);
        assert((5265134int / 1int) % 4int == 2int);
        assert((5265134int / 4int) % 4int == 3int);
        assert((5265134int / 16int) % 4int == 2int);
        assert((5265134int / 64int) % 4int == 3int);
        assert((5265134int / 256int) % 4int == 2int);
        assert((5265134int / 1024int) % 4int == 1int);
        assert((5265134int / 4096int) % 4int == 1int);
        assert((5265134int / 16384int) % 4int == 1int);
        assert((5265134int / 65536int) % 4int == 0int);
        assert((5265134int / 262144int) % 4int == 0int);
        assert((5265134int / 1048576int) % 4int == 1int);
        assert((5265134int / 4194304int) % 4int == 1int);
        assert(year_days(2049) == 365);
    }
}

#[verifier::rlimit(100)]
proof fn lemma_year_days_chunk8(y: int)
    requires
        2050 <= y < 2060,
    ensures
        353 <= year_days(y) <= 366,
{
    lemma_year_days_sum(y);
    if y == 2050 {
        assert(month_lengths_encoded(80) == 8673006u32);
        assert((8673006int / 1int) % 4int == 2int);
        assert((8673006int / 4int) % 4int == 3int);
        assert((8673006int / 16int) % 4int == 2int);
        assert((8673006int / 64int) % 4int == 3int);
        assert((8673006int / 256int) % 4int == 2int);
        assert((8673006int / 1024int) % 4int == 1int);
        assert((8673006int / 4096int) % 4int == 1int);
        assert((8673006int / 16384int) % 4int == 1int);
        assert((8673006int / 65536int) % 4int == 0int);
        assert((8673006int / 262144int) % 4int == 1int);
        assert((8673006int / 1048576int) % 4int == 0int);
        assert((8673006int / 4194304int) % 4int == 2int);
        assert(year_days(2050) == 366);
    } else if y == 2051 {
        assert(month_lengths_encoded(81) == 5315306u32);
        assert((5315306int / 1int) % 4int == 2int);
        assert((5315306int / 4int) % 4int == 2int);
        assert((5315306int / 16int) % 4int == 2int);
        assert((5315306int / 64int) % 4int == 3int);
        assert((5315306int / 256int) % 4int == 2int);
        assert((5315306int / 1024int) % 4int == 2int);
        assert((5315306int / 4096int) % 4int == 1int);
        assert((5315306int / 16384int) % 4int == 0int);
        assert((5315306int / 65536int) % 4int == 1int);
        assert((5315306int / 262144int) % 4int == 0int);
        assert((5315306int / 1048576int) % 4int == 1int);
        assert((5315306int / 4194304int) % 4int == 1int);
        assert(year_days(2051) == 365);
    } else if y == 2052 {
        assert(month_lengths_encoded(82) == 5315258u32);
        assert((5315258int / 1int) % 4int == 2int);
        assert((5315258int / 4int) % 4int == 2int);
        assert((5315258int / 16int) % 4int == 3int);
        assert((5315258int / 64int) % 4int == 2int);
        assert((5315258int / 256int) % 4int == 2int);
        assert((5315258int / 1024int) % 4int == 2int);
        assert((5315258int / 4096int) % 4int == 1int);
        assert((5315258int / 16384int) % 4int == 0int);
        assert((5315258int / 65536int) % 4int == 1int);
        assert((5315258int / 262144int) % 4int == 0int);
        assert((5315258int / 1048576int) % 4int == 1int);
        assert((5315258int / 4194304int) % 4int == 1int);
        assert(year_days(2052) == 365);
    } else if y == 2053 {
        assert(month_lengths_encoded(83) == 5265134u32);
        assert((5265134int / 1int) % 4int == 2int);
        assert((5265134int / 4int) % 4int == 3int);
        assert((5265134int / 16int) % 4int == 2int);
        assert((5265134int / 64int) % 4int == 3int);
        assert((5265134int / 256int) % 4int == 2int);
        assert((5265134int / 1024int) % 4int == 1int);
        assert((5265134int / 4096int) % 4int == 1int);
        assert((5265134int / 16384int) % 4int == 1int);
        assert((5265134int / 65536int) % 4int == 0int);
        assert((5265134int / 262144int) % 4int == 0int);
        assert((5265134int / 1048576int) % 4int == 1int);
        assert((5265134int / 4194304int) % 4int == 1int);
        assert(year_days(2053) == 365);
    } else if y == 2054 {
        assert(month_lengths_encoded(84) == 8673006u32);
        assert((8673006int / 1int) % 4int == 2int);
        assert((8673006int / 4int) % 4int == 3int);
        assert((8673006int / 16int) % 4int == 2int);
        assert((8673006int / 64int) % 4int == 3int);
        assert((8673006int / 256int) % 4int == 2int);
        assert((8673006int / 1024int) % 4int == 1int);
        assert((8673006int / 4096int) % 4int == 1int);
        assert((8673006int / 16384int) % 4int == 1int);
        assert((8673006int / 65536int) % 4int == 0int);
        assert((8673006int / 262144int) % 4int == 1int);
        assert((8673006int / 1048576int) % 4int == 0int);
        assert((8673006int / 4194304int) % 4int == 2int);
        assert(year_days(2054) == 366);
    } else if y == 2055 {
        assert(month_lengths_encoded(85) == 5315258u32);
        assert((5315258int / 1int) % 4int == 2int);
        assert((5315258int / 4int) % 4int == 2int);
        assert((5315258int / 16int) % 4int == 3int);
        assert((5315258int / 64int) % 4int == 2int);
        assert((5315258int / 256int) % 4int == 2int);
        assert((5315258int / 1024int) % 4int == 2int);
        assert((5315258int / 4096int) % 4int == 1int);
        assert((5315258int / 16384int) % 4int == 0int);
        assert((5315258int / 65536int) % 4int == 1int);
        assert((5315258int / 262144int) % 4int == 0int);
        assert((5315258int / 1048576int) % 4int == 1int);
        assert((5315258int / 4194304int) % 4int == 1int);
        assert(year_days(2055) == 365);
    } else if y == 2056 {
        assert(month_lengths_encoded(86) == 5314490u32);
        assert((5314490int / 1int) % 4int == 2int);
        assert((5314490int / 4int) % 4int == 2int);
        assert((5314490int / 16int) % 4int == 3int);
        assert((5314490int / 64int) % 4int == 2int);
        assert((5314490int / 256int) % 4int == 3int);
        assert((5314490int / 1024int) % 4int == 1int);
        assert((5314490int / 4096int) % 4int == 1int);
        assert((5314490int / 16384int) % 4int == 0int);
        assert((5314490int / 65536int) % 4int == 1int);
        assert((5314490int / 262144int) % 4int == 0int);
        assert((5314490int / 1048576int) % 4int == 1int);
        assert((5314490int / 4194304int) % 4int == 1int);
        assert(year_days(2056) == 365);
    } else if y == 2057 {
        assert(month_lengths_encoded(87) == 8673006u32);
        assert((8673006int / 1int) % 4int == 2int);
        assert((8673006int / 4int) % 4int == 3int);
        assert((8673006int / 16int) % 4int == 2int);
        assert((8673006int / 64int) % 4int == 3int);
        assert((8673006int / 256int) % 4int == 2int);
        assert((8673006int / 1024int) % 4int == 1int);
        assert((8673006int / 4096int) % 4int == 1int);
        assert((8673006int / 16384int) % 4int == 1int);
        assert((8673006int / 65536int) % 4int == 0int);
        assert((8673006int / 262144int) % 4int == 1int);
        assert((8673006int / 1048576int) % 4int == 0int);
        assert((8673006int / 4194304int) % 4int == 2int);
        assert(year_days(2057) == 366);
    } else if y == 2058 {
        assert(month_lengths_encoded(88) == 8673005u32);
        assert((8673005int / 1int) % 4int == 1int);
        assert((8673005int / 4int) % 4int == 3int);
        assert((8673005int / 16int) % 4int == 2int);
        assert((8673005int / 64int) % 4int == 3int);
        assert((8673005int / 256int) % 4int == 2int);
        assert((8673005int / 1024int) % 4int == 1int);
        assert((8673005int / 4096int) % 4int == 1int);
        assert((8673005int / 16384int) % 4int == 1int);
        assert((8673005int / 65536int) % 4int == 0int);
        assert((8673005int / 262144int) % 4int == 1int);
        assert((8673005int / 1048576int) % 4int == 0int);
        assert((8673005int / 4194304int) % 4int == 2int);
        assert(year_days(2058) == 365);
    } else if y == 2059 {
        assert(month_lengths_encoded(89) == 5315258u32);
        assert((5315258int / 1int) % 4int == 2int);
        assert((5315258int / 4int) % 4int == 2int);
        assert((5315258int / 16int) % 4int == 3int);
        assert((5315258int / 64int) % 4int == 2int);
        assert((5315258int / 256int) % 4int == 2int);
        assert((5315258int / 1024int) % 4int == 2int);
        assert((5315258int / 4096int) % 4int == 1int);
        assert((5315258int / 16384int) % 4int == 0int);
        assert((5315258int / 65536int) % 4int == 1int);
        assert((5315258int / 262144int) % 4int == 0int);
        assert((5315258int / 1048576int) % 4int == 1int);
        assert((5315258int / 4194304int) % 4int == 1int);
        assert(year_days(2059) == 365);
    }
}

#[verifier::rlimit(100)]
proof fn lemma_year_days_chunk9(y: int)
    requires
        2060 <= y < 2070,
    ensures
        353 <= year_days(y) <= 366,
{
    lemma_year_days_sum(y);
    if y == 2060 {
        assert(month_lengths_encoded(90) == 5314298u32);
        assert((5314298int / 1int) % 4int == 2int);
        assert((5314298int / 4int) % 4int == 2int);
        assert((5314298int / 16int) % 4int == 3int);
        assert((5314298int / 64int) % 4int == 3int);
        assert((5314298int / 256int) % 4int == 2int);
        assert((5314298int / 1024int) % 4int == 1int);
        assert((5314298int / 4096int) % 4int == 1int);
        assert((5314298int / 16384int) % 4int == 0int);
        assert((5314298int / 65536int) % 4int == 1int);
        assert((5314298int / 262144int) % 4int == 0int);
        assert((5314298int / 1048576int) % 4int == 1int);
        assert((5314298int / 4194304int) % 4int == 1int);
        assert(year_days(2060) == 365);
    } else if y == 2061 {
        assert(month_lengths_encoded(91) == 9459438u32);
        assert((9459438int / 1int) % 4int == 2int);
        assert((9459438int / 4int) % 4int == 3int);
        assert((9459438int / 16int) % 4int == 2int);
        assert((9459438int / 64int) % 4int == 3int);
        assert((9459438int / 256int) % 4int == 2int);
        assert((9459438int / 1024int) % 4int == 1int);
        assert((9459438int / 4096int) % 4int == 1int);
        assert((9459438int / 16384int) % 4int == 1int);
        assert((9459438int / 65536int) % 4int == 0int);
        assert((9459438int / 262144int) % 4int == 0int);
        assert((9459438int / 1048576int) % 4int == 1int);
        assert((9459438int / 4194304int) % 4int == 2int);
        assert(year_days(2061) == 366);
    } else if y == 2062 {
        assert(month_lengths_encoded(92) == 8669933u32);
        assert((8669933int / 1int) % 4int == 1int);
        assert((8669933int / 4int) % 4int == 3int);
        assert((8669933int / 16int) % 4int == 2int);
        assert((8669933int / 64int) % 4int == 3int);
        assert((8669933int / 256int) % 4int == 2int);
        assert((8669933int / 1024int) % 4int == 2int);
        assert((8669933int / 4096int) % 4int == 0int);
        assert((8669933int / 16384int) % 4int == 1int);
        assert((8669933int / 65536int) % 4int == 0int);
        assert((8669933int / 262144int) % 4int == 1int);
        assert((8669933int / 1048576int) % 4int == 0int);
        assert((8669933int / 4194304int) % 4int == 2int);
        assert(year_days(2062) == 365);
    } else if y == 2063 {
        assert(month_lengths_encoded(93) == 5315258u32);
        assert((5315258int / 1int) % 4int == 2int);
        assert((5315258int / 4int) % 4int == 2int);
        assert((5315258int / 16int) % 4int == 3int);
        assert((5315258int / 64int) % 4int == 2int);
        assert((5315258int / 256int) % 4int == 2int);
        assert((5315258int / 1024int) % 4int == 2int);
        assert((5315258int / 4096int) % 4int == 1int);
        assert((5315258int / 16384int) % 4int == 0int);
        assert((5315258int / 65536int) % 4int == 1int);
        assert((5315258int / 262144int) % 4int == 0int);
        assert((5315258int / 1048576int) % 4int == 1int);
        assert((5315258int / 4194304int) % 4int == 1int);
        assert(year_days(2063) == 365);
    } else if y == 2064 {
        assert(month_lengths_encoded(94) == 5314298u32);
        assert((5314298int / 1int) % 4int == 2int);
        assert((5314298int / 4int) % 4int == 2int);
        assert((5314298int / 16int) % 4int == 3int);
        assert((5314298int / 64int) % 4int == 3int);
        assert((5314298int / 256int) % 4int == 2int);
        assert((5314298int / 1024int) % 4int == 1int);
        assert((5314298int / 4096int) % 4int == 1int);
        assert((5314298int / 16384int) % 4int == 0int);
        assert((5314298int / 65536int) % 4int == 1int);
        assert((5314298int / 262144int) % 4int == 0int);
        assert((5314298int / 1048576int) % 4int == 1int);
        assert((5314298int / 4194304int) % 4int == 1int);
        assert(year_days(2064) == 365);
    } else if y == 2065 {
        assert(month_lengths_encoded(95) == 9459438u32);
        assert((9459438int / 1int) % 4int == 2int);
        assert((9459438int / 4int) % 4int == 3int);
        assert((9459438int / 16int) % 4int == 2int);
        assert((9459438int / 64int) % 4int == 3int);
        assert((9459438int / 256int) % 4int == 2int);
        assert((9459438int / 1024int) % 4int == 1int);
        assert((9459438int / 4096int) % 4int == 1int);
        assert((9459438int / 16384int) % 4int == 1int);
        assert((9459438int / 65536int) % 4int == 0int);
        assert((9459438int / 262144int) % 4int == 0int);
        assert((9459438int / 1048576int) % 4int == 1int);
        assert((9459438int / 4194304int) % 4int == 2int);
        assert(year_days(2065) == 366);
    } else if y == 2066 {
        assert(month_lengths_encoded(96) == 8473322u32);
        assert((8473322int / 1int) % 4int == 2int);
        assert((8473322int / 4int) % 4int == 2int);
        assert((8473322int / 16int) % 4int == 2int);
        assert((8473322int / 64int) % 4int == 3int);
        assert((8473322int / 256int) % 4int == 2int);
        assert((8473322int / 1024int) % 4int == 2int);
        assert((8473322int / 4096int) % 4int == 0int);
        assert((8473322int / 16384int) % 4int == 1int);
        assert((8473322int / 65536int) % 4int == 1int);
        assert((8473322int / 262144int) % 4int == 0int);
        assert((8473322int / 1048576int) % 4int == 0int);
        assert((8473322int / 4194304int) % 4int == 2int);
        assert(year_days(2066) == 365);
    } else if y == 2067 {
        assert(month_lengths_encoded(97) == 5315258u32);
        assert((5315258int / 1int) % 4int == 2int);
        assert((5315258int / 4int) % 4int == 2int);
        assert((5315258int / 16int) % 4int == 3int);
        assert((5315258int / 64int) % 4int == 2int);
        assert((5315258int / 256int) % 4int == 2int);
        assert((5315258int / 1024int) % 4int == 2int);
        assert((5315258int / 4096int) % 4int == 1int);
        assert((5315258int / 16384int) % 4int == 0int);
        assert((5315258int / 65536int) % 4int == 1int);
        assert((5315258int / 262144int) % 4int == 0int);
        assert((5315258int / 1048576int) % 4int == 1int);
        assert((5315258int / 4194304int) % 4int == 1int);
        assert(year_days(2067) == 365);
    } else if y == 2068 {
        assert(month_lengths_encoded(98) == 5314298u32);
        assert((5314298int / 1int) % 4int == 2int);
        assert((5314298int / 4int) % 4int == 2int);
        assert((5314298int / 16int) % 4int == 3int);
        assert((5314298int / 64int) % 4int == 3int);
        assert((5314298int / 256int) % 4int == 2int);
        assert((5314298int / 1024int) % 4int == 1int);
        assert((5314298int / 4096int) % 4int == 1int);
        assert((5314298int / 16384int) % 4int == 0int);
        assert((5314298int / 65536int) % 4int == 1int);
        assert((5314298int / 262144int) % 4int == 0int);
        assert((5314298int / 1048576int) % 4int == 1int);
        assert((5314298int / 4194304int) % 4int == 1int);
        assert(year_days(2068) == 365);
    } else if y == 2069 {
        assert(month_lengths_encoded(99) == 9459438u32);
        assert((9459438int / 1int) % 4int == 2int);
        assert((9459438int / 4int) % 4int == 3int);
        assert((9459438int / 16int) % 4int == 2int);
        assert((9459438int / 64int) % 4int == 3int);
        assert((9459438int / 256int) % 4int == 2int);
        assert((9459438int / 1024int) % 4int == 1int);
        assert((9459438int / 4096int) % 4int == 1int);
        assert((9459438int / 16384int) % 4int == 1int);
        assert((9459438int / 65536int) % 4int == 0int);
        assert((9459438int / 262144int) % 4int == 0int);
        assert((9459438int / 1048576int) % 4int == 1int);
        assert((9459438int / 4194304int) % 4int == 2int);
        assert(year_days(2069) == 366);
    }
}

#[verifier::rlimit(100)]
proof fn lemma_year_days_chunk10(y: int)
    requires
        2070 <= y < 2080,
    ensures
        353 <= year_days(y) <= 366,
{
    lemma_year_days_sum(y);
    if y == 2070 {
        assert(month_lengths_encoded(100) == 5327594u32);
        assert((5327594int / 1int) % 4int == 2int);
        assert((5327594int / 4int) % 4int == 2int);
        assert((5327594int / 16int) % 4int == 2int);
        assert((5327594int / 64int) % 4int == 3int);
        assert((5327594int / 256int) % 4int == 2int);
        assert((5327594int / 1024int) % 4int == 2int);
        assert((5327594int / 4096int) % 4int == 0int);
        assert((5327594int / 16384int) % 4int == 1int);
        assert((5327594int / 65536int) % 4int == 1int);
        assert((5327594int / 262144int) % 4int == 0int);
        assert((5327594int / 1048576int) % 4int == 1int);
        assert((5327594int / 4194304int) % 4int == 1int);
        assert(year_days(2070) == 365);
    } else if y == 2071 {
        assert(month_lengths_encoded(101) == 5315258u32);
        assert((5315258int / 1int) % 4int == 2int);
        assert((5315258int / 4int) % 4int == 2int);
        assert((5315258int / 16int) % 4int == 3int);
        assert((5315258int / 64int) % 4int == 2int);
        assert((5315258int / 256int) % 4int == 2int);
        assert((5315258int / 1024int) % 4int == 2int);
        assert((5315258int / 4096int) % 4int == 1int);
        assert((5315258int / 16384int) % 4int == 0int);
        assert((5315258int / 65536int) % 4int == 1int);
        assert((5315258int / 262144int) % 4int == 0int);
        assert((5315258int / 1048576int) % 4int == 1int);
        assert((5315258int / 4194304int) % 4int == 1int);
        assert(year_days(2071) == 365);
    } else if y == 2072 {
        assert(month_lengths_encoded(102) == 5314286u32);
        assert((5314286int / 1int) % 4int == 2int);
        assert((5314286int / 4int) % 4int == 3int);
        assert((5314286int / 16int) % 4int == 2int);
        assert((5314286int / 64int) % 4int == 3int);
        assert((5314286int / 256int) % 4int == 2int);
        assert((5314286int / 1024int) % 4int == 1int);
        assert((5314286int / 4096int) % 4int == 1int);
        assert((5314286int / 16384int) % 4int == 0int);
        assert((5314286int / 65536int) % 4int == 1int);
        assert((5314286int / 262144int) % 4int == 0int);
        assert((5314286int / 1048576int) % 4int == 1int);
        assert((5314286int / 4194304int) % 4int == 1int);
        assert(year_days(2072) == 365);
    } else if y == 2073 {
        assert(month_lengths_encoded(103) == 9459438u32);
        assert((9459438int / 1int) % 4int == 2int);
        assert((9459438int / 4int) % 4int == 3int);
        assert((9459438int / 16int) % 4int == 2int);
        assert((9459438int / 64int) % 4int == 3int);
        assert((9459438int / 256int) % 4int == 2int);
        assert((9459438int / 1024int) % 4int == 1int);
        assert((9459438int / 4096int) % 4int == 1int);
        assert((9459438int / 16384int) % 4int == 1int);
        assert((9459438int / 65536int) % 4int == 0int);
        assert((9459438int / 262144int) % 4int == 0int);
        assert((9459438int / 1048576int) % 4int == 1int);
        assert((9459438int / 4194304int) % 4int == 2int);
        assert(year_days(2073) == 366);
    } else if y == 2074 {
        assert(month_lengths_encoded(104) == 5315306u32);
        assert((5315306int / 1int) % 4int == 2int);
        assert((5315306int / 4int) % 4int == 2int);
        assert((5315306int / 16int) % 4int == 2int);
        assert((5315306int / 64int) % 4int == 3int);
        assert((5315306int / 256int) % 4int == 2int);
        assert((5315306int / 1024int) % 4int == 2int);
        assert((5315306int / 4096int) % 4int == 1int);
        assert((5315306int / 16384int) % 4int == 0int);
        assert((5315306int / 65536int) % 4int == 1int);
        assert((5315306int / 262144int) % 4int == 0int);
        assert((5315306int / 1048576int) % 4int == 1int);
        assert((5315306int / 4194304int) % 4int == 1int);
        assert(year_days(2074) == 365);
    } else if y == 2075 {
        assert(month_lengths_encoded(105) == 5315258u32);
        assert((5315258int / 1int) % 4int == 2int);
        assert((5315258int / 4int) % 4int == 2int);
        assert((5315258int / 16int) % 4int == 3int);
        assert((5315258int / 64int) % 4int == 2int);
        assert((5315258int / 256int) % 4int == 2int);
        assert((5315258int / 1024int) % 4int == 2int);
        assert((5315258int / 4096int) % 4int == 1int);
        assert((5315258int / 16384int) % 4int == 0int);
        assert((5315258int / 65536int) % 4int == 1int);
        assert((5315258int / 262144int) % 4int == 0int);
        assert((5315258int / 1048576int) % 4int == 1int);
        assert((5315258int / 4194304int) % 4int == 1int);
        assert(year_days(2075) == 365);
    } else if y == 2076 {
        assert(month_lengths_encoded(106) == 5265134u32);
        assert((5265134int / 1int) % 4int == 2int);
        assert((5265134int / 4int) % 4int == 3int);
        assert((5265134int / 16int) % 4int == 2int);
        assert((5265134int / 64int) % 4int == 3int);
        assert((5265134int / 256int) % 4int == 2int);
        assert((5265134int / 1024int) % 4int == 1int);
        assert((5265134int / 4096int) % 4int == 1int);
        assert((5265134int / 16384int) % 4int == 1int);
        assert((5265134int / 65536int) % 4int == 0int);
        assert((5265134int / 262144int) % 4int == 0int);
        assert((5265134int / 1048576int) % 4int == 1int);
        assert((5265134int / 4194304int) % 4int == 1int);
        assert(year_days(2076) == 365);
    } else if y == 2077 {
        assert(month_lengths_encoded(107) == 8673006u32);
        assert((8673006int / 1int) % 4int == 2int);
        assert((8673006int / 4int) % 4int == 3int);
        assert((8673006int / 16int) % 4int == 2int);
        assert((8673006int / 64int) % 4int == 3int);
        assert((8673006int / 256int) % 4int == 2int);
        assert((8673006int / 1024int) % 4int == 1int);
        assert((8673006int / 4096int) % 4int == 1int);
        assert((8673006int / 16384int) % 4int == 1int);
        assert((8673006int / 65536int) % 4int == 0int);
        assert((8673006int / 262144int) % 4int == 1int);
        assert((8673006int / 1048576int) % 4int == 0int);
        assert((8673006int / 4194304int) % 4int == 2int);
        assert(year_days(2077) == 366);
    } else if y == 2078 {
        assert(month_lengths_encoded(108) == 5315306u32);
        assert((5315306int / 1int) % 4int == 2int);
        assert((5315306int / 4int) % 4int == 2int);
        assert((5315306int / 16int) % 4int == 2int);
        assert((5315306int / 64int) % 4int == 3int);
        assert((5315306int / 256int) % 4int == 2int);
        assert((5315306int / 1024int) % 4int == 2int);
        assert((5315306int / 4096int) % 4int == 1int);
        assert((5315306int / 16384int) % 4int == 0int);
        assert((5315306int / 65536int) % 4int == 1int);
        assert((5315306int / 262144int) % 4int == 0int);
        assert((5315306int / 1048576int) % 4int == 1int);
        assert((5315306int / 4194304int) % 4int == 1int);
        assert(year_days(2078) == 365);
    } else if y == 2079 {
        assert(month_lengths_encoded(109) == 5315258u32);
        assert((5315258int / 1int) % 4int == 2int);
        assert((5315258int / 4int) % 4int == 2int);
        assert((5315258int / 16int) % 4int == 3int);
        assert((5315258int / 64int) % 4int == 2int);
        assert((5315258int / 256int) % 4int == 2int);
        assert((5315258int / 1024int) % 4int == 2int);
        assert((5315258int / 4096int) % 4int == 1int);
        assert((5315258int / 16384int) % 4int == 0int);
        assert((5315258int / 65536int) % 4int == 1int);
        assert((5315258int / 262144int) % 4int == 0int);
        assert((5315258int / 1048576int) % 4int == 1int);
        assert((5315258int / 4194304int) % 4int == 1int);
        assert(year_days(2079) == 365);
    }
}

#[verifier::rlimit(100)]
proof fn lemma_year_days_chunk11(y: int)
    requires
        2080 <= y < 2090,
    ensures
        353 <= year_days(y) <= 366,
{
    lemma_year_days_sum(y);
    if y == 2080 {
        assert(month_lengths_encoded(110) == 5265134u32);
        assert((5265134int / 1int) % 4int == 2int);
        assert((5265134int / 4int) % 4int == 3int);
        assert((5265134int / 16int) % 4int == 2int);
        assert((5265134int / 64int) % 4int == 3int);
        assert((5265134int / 256int) % 4int == 2int);
        assert((5265134int / 1024int) % 4int == 1int);
        assert((5265134int / 4096int) % 4int == 1int);
        assert((5265134int / 16384int) % 4int == 1int);
        assert((5265134int / 65536int) % 4int == 0int);
        assert((5265134int / 262144int) % 4int == 0int);
        assert((5265134int / 1048576int) % 4int == 1int);
        assert((5265134int / 4194304int) % 4int == 1int);
        assert(year_days(2080) == 365);
    } else if y == 2081 {
        assert(month_lengths_encoded(111) == 5527290u32);
        assert((5527290int / 1int) % 4int == 2int);
        assert((5527290int / 4int) % 4int == 2int);
        assert((5527290int / 16int) % 4int == 3int);
        assert((5527290int / 64int) % 4int == 3int);
        assert((5527290int / 256int) % 4int == 2int);
        assert((5527290int / 1024int) % 4int == 1int);
        assert((5527290int / 4096int) % 4int == 1int);
        assert((5527290int / 16384int) % 4int == 1int);
        assert((5527290int / 65536int) % 4int == 0int);
        assert((5527290int / 262144int) % 4int == 1int);
        assert((5527290int / 1048576int) % 4int == 1int);
        assert((5527290int / 4194304int) % 4int == 1int);
        assert(year_days(2081) == 366);
    } else if y == 2082 {
        assert(month_lengths_encoded(112) == 5527277u32);
        assert((5527277int / 1int) % 4int == 1int);
        assert((5527277int / 4int) % 4int == 3int);
        assert((5527277int / 16int) % 4int == 2int);
        assert((5527277int / 64int) % 4int == 3int);
        assert((5527277int / 256int) % 4int == 2int);
        assert((5527277int / 1024int) % 4int == 1int);
        assert((5527277int / 4096int) % 4int == 1int);
        assert((5527277int / 16384int) % 4int == 1int);
        assert((5527277int / 65536int) % 4int == 0int);
        assert((5527277int / 262144int) % 4int == 1int);
        assert((5527277int / 1048576int) % 4int == 1int);
        assert((5527277int / 4194304int) % 4int == 1int);
        assert(year_days(2082) == 365);
    } else if y == 2083 {
        assert(month_lengths_encoded(113) == 5527226u32);
        assert((5527226int / 1int) % 4int == 2int);
        assert((5527226int / 4int) % 4int == 2int);
        assert((5527226int / 16int) % 4int == 3int);
        assert((5527226int / 64int) % 4int == 2int);
        assert((5527226int / 256int) % 4int == 2int);
        assert((5527226int / 1024int) % 4int == 1int);
        assert((5527226int / 4096int) % 4int == 1int);
        assert((5527226int / 16384int) % 4int == 1int);
        assert((5527226int / 65536int) % 4int == 0int);
        assert((5527226int / 262144int) % 4int == 1int);
        assert((5527226int / 1048576int) % 4int == 1int);
        assert((5527226int / 4194304int) % 4int == 1int);
        assert(year_days(2083) == 365);
    } else if y == 2084 {
        assert(month_lengths_encoded(114) == 5527226u32);
        assert((5527226int / 1int) % 4int == 2int);
        assert((5527226int / 4int) % 4int == 2int);
        assert((5527226int / 16int) % 4int == 3int);
        assert((5527226int / 64int) % 4int == 2int);
        assert((5527226int / 256int) % 4int == 2int);
        assert((5527226int / 1024int) % 4int == 1int);
        assert((5527226int / 4096int) % 4int == 1int);
        assert((5527226int / 16384int) % 4int == 1int);
        assert((5527226int / 65536int) % 4int == 0int);
        assert((5527226int / 262144int) % 4int == 1int);
        assert((5527226int / 1048576int) % 4int == 1int);
        assert((5527226int / 4194304int) % 4int == 1int);
        assert(year_days(2084) == 365);
    } else if y == 2085 {
        assert(month_lengths_encoded(115) == 5528046u32);
        assert((5528046int / 1int) % 4int == 2int);
        assert((5528046int / 4int) % 4int == 3int);
        assert((5528046int / 16int) % 4int == 2int);
        assert((5528046int / 64int) % 4int == 3int);
        assert((5528046int / 256int) % 4int == 1int);
        assert((5528046int / 1024int) % 4int == 2int);
        assert((5528046int / 4096int) % 4int == 1int);
        assert((5528046int / 16384int) % 4int == 1int);
        assert((5528046int / 65536int) % 4int == 0int);
        assert((5528046int / 262144int) % 4int == 1int);
        assert((5528046int / 1048576int) % 4int == 1int);
        assert((5528046int / 4194304int) % 4int == 1int);
        assert(year_days(2085) == 366);
    } else if y == 2086 {
        assert(month_lengths_encoded(116) == 5527277u32);
        assert((5527277int / 1int) % 4int == 1int);
        assert((5527277int / 4int) % 4int == 3int);
        assert((5527277int / 16int) % 4int == 2int);
        assert((5527277int / 64int) % 4int == 3int);
        assert((5527277int / 256int) % 4int == 2int);
        assert((5527277int / 1024int) % 4int == 1int);
        assert((5527277int / 4096int) % 4int == 1int);
        assert((5527277int / 16384int) % 4int == 1int);
        assert((5527277int / 65536int) % 4int == 0int);
        assert((5527277int / 262144int) % 4int == 1int);
        assert((5527277int / 1048576int) % 4int == 1int);
        assert((5527277int / 4194304int) % 4int == 1int);
        assert(year_days(2086) == 365);
    } else if y == 2087 {
        assert(month_lengths_encoded(117) == 5528250u32);
        assert((5528250int / 1int) % 4int == 2int);
        assert((5528250int / 4int) % 4int == 2int);
        assert((5528250int / 16int) % 4int == 3int);
        assert((5528250int / 64int) % 4int == 2int);
        assert((5528250int / 256int) % 4int == 2int);
        assert((5528250int / 1024int) % 4int == 2int);
        assert((5528250int / 4096int) % 4int == 1int);
        assert((5528250int / 16384int) % 4int == 1int);
        assert((5528250int / 65536int) % 4int == 0int);
        assert((5528250int / 262144int) % 4int == 1int);
        assert((5528250int / 1048576int) % 4int == 1int);
        assert((5528250int / 4194304int) % 4int == 1int);
        assert(year_days(2087) == 366);
    } else if y == 2088 {
        assert(month_lengths_encoded(118) == 5528057u32);
        assert((5528057int / 1int) % 4int == 1int);
        assert((5528057int / 4int) % 4int == 2int);
        assert((5528057int / 16int) % 4int == 3int);
        assert((5528057int / 64int) % 4int == 3int);
        assert((5528057int / 256int) % 4int == 1int);
        assert((5528057int / 1024int) % 4int == 2int);
        assert((5528057int / 4096int) % 4int == 1int);
        assert((5528057int / 16384int) % 4int == 1int);
        assert((5528057int / 65536int) % 4int == 0int);
        assert((5528057int / 262144int) % 4int == 1int);
        assert((5528057int / 1048576int) % 4int == 1int);
        assert((5528057int / 4194304int) % 4int == 1int);
        assert(year_days(2088) == 365);
    } else if y == 2089 {
        assert(month_lengths_encoded(119) == 5527277u32);
        assert((5527277int / 1int) % 4int == 1int);
        assert((5527277int / 4int) % 4int == 3int);
        assert((5527277int / 16int) % 4int == 2int);
        assert((5527277int / 64int) % 4int == 3int);
        assert((5527277int / 256int) % 4int == 2int);
        assert((5527277int / 1024int) % 4int == 1int);
        assert((5527277int / 4096int) % 4int == 1int);
        assert((5527277int / 16384int) % 4int == 1int);
        assert((5527277int / 65536int) % 4int == 0int);
        assert((5527277int / 262144int) % 4int == 1int);
        assert((5527277int / 1048576int) % 4int == 1int);
        assert((5527277int / 4194304int) % 4int == 1int);
        assert(year_days(2089) == 365);
    }
}

#[verifier::rlimit(100)]
proof fn lemma_year_days_chunk12(y: int)
    requires
        2090 <= y < 2100,
    ensures
        353 <= year_days(y) <= 366,
{
    lemma_year_days_sum(y);
    if y == 2090 {
        assert(month_lengths_encoded(120) == 5527277u32);
        assert((5527277int / 1int) % 4int == 1int);
        assert((5527277int / 4int) % 4int == 3int);
        assert((5527277int / 16int) % 4int == 2int);
        assert((5527277int / 64int) % 4int == 3int);
        assert((5527277int / 256int) % 4int == 2int);
        assert((5527277int / 1024int) % 4int == 1int);
        assert((5527277int / 4096int) % 4int == 1int);
        assert((5527277int / 16384int) % 4int == 1int);
        assert((5527277int / 65536int) % 4int == 0int);
        assert((5527277int / 262144int) % 4int == 1int);
        assert((5527277int / 1048576int) % 4int == 1int);
        assert((5527277int / 4194304int) % 4int == 1int);
        assert(year_days(2090) == 365);
    } else if y == 2091 {
        assert(month_lengths_encoded(121) == 5528250u32);
        assert((5528250int / 1int) % 4int == 2int);
        assert((5528250int / 4int) % 4int == 2int);
        assert((5528250int / 16int) % 4int == 3int);
        assert((5528250int / 64int) % 4int == 2int);
        assert((5528250int / 256int) % 4int == 2int);
        assert((5528250int / 1024int) % 4int == 2int);
        assert((5528250int / 4096int) % 4int == 1int);
        assert((5528250int / 16384int) % 4int == 1int);
        assert((5528250int / 65536int) % 4int == 0int);
        assert((5528250int / 262144int) % 4int == 1int);
        assert((5528250int / 1048576int) % 4int == 1int);
        assert((5528250int / 4194304int) % 4int == 1int);
        assert(year_days(2091) == 366);
    } else if y == 2092 {
        assert(month_lengths_encoded(122) == 5528057u32);
        assert((5528057int / 1int) % 4int == 1int);
        assert((5528057int / 4int) % 4int == 2int);
        assert((5528057int / 16int) % 4int == 3int);
        assert((5528057int / 64int) % 4int == 3int);
        assert((5528057int / 256int) % 4int == 1int);
        assert((5528057int / 1024int) % 4int == 2int);
        assert((5528057int / 4096int) % 4int == 1int);
        assert((5528057int / 16384int) % 4int == 1int);
        assert((5528057int / 65536int) % 4int == 0int);
        assert((5528057int / 262144int) % 4int == 1int);
        assert((5528057int / 1048576int) % 4int == 1int);
        assert((5528057int / 4194304int) % 4int == 1int);
        assert(year_days(2092) == 365);
    } else if y == 2093 {
        assert(month_lengths_encoded(123) == 5527277u32);
        assert((5527277int / 1int) % 4int == 1int);
        assert((5527277int / 4int) % 4int == 3int);
        assert((5527277int / 16int) % 4int == 2int);
        assert((5527277int / 64int) % 4int == 3int);
        assert((5527277int / 256int) % 4int == 2int);
        assert((5527277int / 1024int) % 4int == 1int);
        assert((5527277int / 4096int) % 4int == 1int);
        assert((5527277int / 16384int) % 4int == 1int);
        assert((5527277int / 65536int) % 4int == 0int);
        assert((5527277int / 262144int) % 4int == 1int);
        assert((5527277int / 1048576int) % 4int == 1int);
        assert((5527277int / 4194304int) % 4int == 1int);
        assert(year_days(2093) == 365);
    } else if y == 2094 {
        assert(month_lengths_encoded(124) == 5527226u32);
        assert((5527226int / 1int) % 4int == 2int);
        assert((5527226int / 4int) % 4int == 2int);
        assert((5527226int / 16int) % 4int == 3int);
        assert((5527226int / 64int) % 4int == 2int);
        assert((5527226int / 256int) % 4int == 2int);
        assert((5527226int / 1024int) % 4int == 1int);
        assert((5527226int / 4096int) % 4int == 1int);
        assert((5527226int / 16384int) % 4int == 1int);
        assert((5527226int / 65536int) % 4int == 0int);
        assert((5527226int / 262144int) % 4int == 1int);
        assert((5527226int / 1048576int) % 4int == 1int);
        assert((5527226int / 4194304int) % 4int == 1int);
        assert(year_days(2094) == 365);
    } else if y == 2095 {
        assert(month_lengths_encoded(125) == 5528250u32);
        assert((5528250int / 1int) % 4int == 2int);
        assert((5528250int / 4int) % 4int == 2int);
        assert((5528250int / 16int) % 4int == 3int);
        assert((5528250int / 64int) % 4int == 2int);
        assert((5528250int / 256int) % 4int == 2int);
        assert((5528250int / 1024int) % 4int == 2int);
        assert((5528250int / 4096int) % 4int == 1int);
        assert((5528250int / 16384int) % 4int == 1int);
        assert((5528250int / 65536int) % 4int == 0int);
        assert((5528250int / 262144int) % 4int == 1int);
        assert((5528250int / 1048576int) % 4int == 1int);
        assert((5528250int / 4194304int) % 4int == 1int);
        assert(year_days(2095) == 366);
    } else if y == 2096 {
        assert(month_lengths_encoded(126) == 5527289u32);
        assert((5527289int / 1int) % 4int == 1int);
        assert((5527289int / 4int) % 4int == 2int);
        assert((5527289int / 16int) % 4int == 3int);
        assert((5527289int / 64int) % 4int == 3int);
        assert((5527289int / 256int) % 4int == 2int);
        assert((5527289int / 1024int) % 4int == 1int);
        assert((5527289int / 4096int) % 4int == 1int);
        assert((5527289int / 16384int) % 4int == 1int);
        assert((5527289int / 65536int) % 4int == 0int);
        assert((5527289int / 262144int) % 4int == 1int);
        assert((5527289int / 1048576int) % 4int == 1int);
        assert((5527289int / 4194304int) % 4int == 1int);
        assert(year_days(2096) == 365);
    } else if y == 2097 {
        assert(month_lengths_encoded(127) == 5527278u32);
        assert((5527278int / 1int) % 4int == 2int);
        assert((5527278int / 4int) % 4int == 3int);
        assert((5527278int / 16int) % 4int == 2int);
        assert((5527278int / 64int) % 4int == 3int);
        assert((5527278int / 256int) % 4int == 2int);
        assert((5527278int / 1024int) % 4int == 1int);
        assert((5527278int / 4096int) % 4int == 1int);
        assert((5527278int / 16384int) % 4int == 1int);
        assert((5527278int / 65536int) % 4int == 0int);
        assert((5527278int / 262144int) % 4int == 1int);
        assert((5527278int / 1048576int) % 4int == 1int);
        assert((5527278int / 4194304int) % 4int == 1int);
        assert(year_days(2097) == 366);
    } else if y == 2098 {
        assert(month_lengths_encoded(128) == 5524154u32);
        assert((5524154int / 1int) % 4int == 2int);
        assert((5524154int / 4int) % 4int == 2int);
        assert((5524154int / 16int) % 4int == 3int);
        assert((5524154int / 64int) % 4int == 2int);
        assert((5524154int / 256int) % 4int == 2int);
        assert((5524154int / 1024int) % 4int == 2int);
        assert((5524154int / 4096int) % 4int == 0int);
        assert((5524154int / 16384int) % 4int == 1int);
        assert((5524154int / 65536int) % 4int == 0int);
        assert((5524154int / 262144int) % 4int == 1int);
        assert((5524154int / 1048576int) % 4int == 1int);
        assert((5524154int / 4194304int) % 4int == 1int);
        assert(year_days(2098) == 365);
    } else if y == 2099 {
        assert(month_lengths_encoded(129) == 5528250u32);
        assert((5528250int / 1int) % 4int == 2int);
        assert((5528250int / 4int) % 4int == 2int);
        assert((5528250int / 16int) % 4int == 3int);
        assert((5528250int / 64int) % 4int == 2int);
        assert((5528250int / 256int) % 4int == 2int);
        assert((5528250int / 1024int) % 4int == 2int);
        assert((5528250int / 4096int) % 4int == 1int);
        assert((5528250int / 16384int) % 4int == 1int);
        assert((5528250int / 65536int) % 4int == 0int);
        assert((5528250int / 262144int) % 4int == 1int);
        assert((5528250int / 1048576int) % 4int == 1int);
        assert((5528250int / 4194304int) % 4int == 1int);
        assert(year_days(2099) == 366);
    }
}

#[verifier::rlimit(100)]
proof fn lemma_year_days_chunk13(y: int)
    requires
        2100 <= y < 2101,
    ensures
        353 <= year_days(y) <= 366,
{
    lemma_year_days_sum(y);
    if y == 2100 {
        assert(month_lengths_encoded(130) == 5528046u32);
        assert((5528046int / 1int) % 4int == 2int);
        assert((5528046int / 4int) % 4int == 3int);
        assert((5528046int / 16int) % 4int == 2int);
        assert((5528046int / 64int) % 4int == 3int);
        assert((5528046int / 256int) % 4int == 1int);
        assert((5528046int / 1024int) % 4int == 2int);
        assert((5528046int / 4096int) % 4int == 1int);
        assert((5528046int / 16384int) % 4int == 1int);
        assert((5528046int / 65536int) % 4int == 0int);
        assert((5528046int / 262144int) % 4int == 1int);
        assert((5528046int / 1048576int) % 4int == 1int);
        assert((5528046int / 4194304int) % 4int == 1int);
        assert(year_days(2100) == 366);
    }
}

/// Month-length consistency: the twelve month lengths of every supported BS
/// year sum to that year's total day count, which lies between 353 and 366.
pub proof fn lemma_year_days_range(y: int)
    requires
        BS_YEAR_ZERO <= y <= BS_YEAR_LAST,
    ensures
        353 <= year_days(y) <= 366,
{
    if y < 1980 {
        lemma_year_days_chunk0(y);
    } else if y < 1990 {
        lemma_year_days_chunk1(y);
    } else if y < 2000 {
        lemma_year_days_chunk2(y);
    } else if y < 2010 {
        lemma_year_days_chunk3(y);
    } else if y < 2020 {
        lemma_year_days_chunk4(y);
    } else if y < 2030 {
        lemma_year_days_chunk5(y);
    } else if y < 2040 {
        lemma_year_days_chunk6(y);
    } else if y < 2050 {
        lemma_year_days_chunk7(y);
    } else if y < 2060 {
        lemma_year_days_chunk8(y);
    } else if y < 2070 {
        lemma_year_days_chunk9(y);
    } else if y < 2080 {
        lemma_year_days_chunk10(y);
    } else if y < 2090 {
        lemma_year_days_chunk11(y);
    } else if y < 2100 {
        lemma_year_days_chunk12(y);
    } else if y < 2101 {
        lemma_year_days_chunk13(y);
    }
}

pub(crate) proof fn lemma_dby_upper(y: int)
    requires
        BS_YEAR_ZERO <= y <= BS_YEAR_LAST + 1,
    ensures
        days_before_year(y) <= 366 * (y - BS_YEAR_ZERO),
    decreases y - BS_YEAR_ZERO,
{
    if y > BS_YEAR_ZERO {
        lemma_dby_upper(y - 1);
        lemma_year_days_range(y - 1);
    }
}

} // verus!
