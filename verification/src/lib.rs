//! Conversion between Gregorian (AD) calendar dates and Bikram Sambat (BS)
//! calendar dates. The converter pivots on a fixed epoch correspondence (BS
//! 1970-01-01 covers AD 1913-04-13) and a per-year table of the twelve BS
//! month lengths; each direction counts days relative to the epoch and
//! translates the count through the table. The Gregorian side of the day
//! arithmetic is delegated to the chrono crate behind trusted wrappers.

#![allow(unused_imports)]
use vstd::prelude::*;

pub mod convert;
pub mod table;
pub mod utils;

pub use convert::ad_to_bs;
pub use convert::bs_to_ad;
pub use convert::convert;
pub use table::calculate_days_in_month;
pub use utils::parse_date_to_epoch;

verus! {

/// A calendar date as plain year/month/day fields. Whether it denotes a
/// Gregorian (AD) date or a Bikram Sambat (BS) date is decided by context:
/// by which conversion function receives or returns it.
#[derive(Clone, Copy, Debug, PartialEq, Eq, Structural)]
pub struct CalendarDate {
    pub year: i32,
    pub month: u32,
    pub day: u32,
}

/// A typed conversion failure.
#[derive(Clone, Copy, Debug, PartialEq, Eq, Structural)]
pub enum ConvertError {
    /// The input year, or the year the conversion lands on, lies outside the
    /// span of BS years covered by the month-length table.
    OutOfRange,
    /// An internal invariant of the day-walking algorithm failed. The
    /// conversion routines prove that they never return this; it is kept so
    /// that callers see the full error model of the converter.
    Internal,
}

} // verus!
