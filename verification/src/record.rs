//! One day's statistics for a country.

use vstd::prelude::*;

verus! {

/// One day's cumulative pandemic statistics for a single country.
///
/// `date` is the calendar date as text in the source's `YYYY-M-D` form.
/// The counts are cumulative and, in well-formed source data, do not
/// decrease from one day to the next (this library does not rely on that).
#[derive(Debug, PartialEq, Eq)]
pub struct DailyRecord {
    pub date: String,
    pub confirmed: u64,
    pub deaths: u64,
    pub recovered: u64,
}

/// A record is kept by the filtering stage exactly when its confirmed
/// count is not zero.
pub open spec fn nonzero_confirmed(r: DailyRecord) -> bool {
    r.confirmed != 0
}

impl Clone for DailyRecord {
    fn clone(&self) -> (r: Self)
        ensures
            r == *self,
    {
        DailyRecord {
            date: self.date.clone(),
            confirmed: self.confirmed,
            deaths: self.deaths,
            recovered: self.recovered,
        }
    }
}

} // verus!
