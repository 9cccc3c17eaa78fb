//! Record dates. A date here is a plain year-and-month pair; the day is
//! fixed to the first of the month throughout the corpus, so it is not
//! stored. Ordering is lexicographic on (year, month), which is the only
//! date computation the citation resolver needs.

use vstd::prelude::*;

verus! {

/// A calendar date at month precision, day fixed to 1.
#[derive(Clone, Copy, PartialEq, Eq, Structural, Debug)]
pub struct Date {
    pub year: i64,
    pub month: u32,
}

/// A well-formed date has a month between 1 and 12.
pub open spec fn date_wf(d: Date) -> bool {
    1 <= d.month <= 12
}

/// Ordering on dates: earlier year, or same year and no-later month.
pub open spec fn date_le(a: Date, b: Date) -> bool {
    a.year < b.year || (a.year == b.year && a.month <= b.month)
}

/// Compares two dates under the `date_le` ordering.
pub fn date_le_check(a: &Date, b: &Date) -> (r: bool)
    ensures
        r == date_le(*a, *b),
{
    a.year < b.year || (a.year == b.year && a.month <= b.month)
}

/// The date a (year, month) pair yields: a missing month defaults to
/// January, a missing year yields no date, and an out-of-range month
/// yields no date rather than stopping the run.
pub open spec fn spec_date_util(date: (Option<i64>, Option<i64>)) -> Option<Date> {
    match date {
        (Some(y), Some(m)) => if 1 <= m <= 12 {
            Some(Date { year: y, month: m as u32 })
        } else {
            None
        },
        (Some(y), None) => Some(Date { year: y, month: 1 }),
        _ => None,
    }
}

/// Builds a record date from optional year and month numbers.
pub fn date_util(date: (Option<i64>, Option<i64>)) -> (r: Option<Date>)
    ensures
        r == spec_date_util(date),
        r matches Some(d) ==> date_wf(d),
{
    match date {
        (Some(y), Some(m)) => {
            if 1 <= m && m <= 12 {
                Some(Date { year: y, month: m as u32 })
            } else {
                None
            }
        },
        (Some(y), None) => Some(Date { year: y, month: 1 }),
        _ => None,
    }
}

} // verus!
