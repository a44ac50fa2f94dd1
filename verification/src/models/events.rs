//! Events: the periods that their statistics are grouped by.
use vstd::prelude::*;

verus! {

/// The granularity of visit statistics.
#[derive(Clone, Copy, Debug, PartialEq, Eq, Structural)]
pub enum PeriodKind {
    Day,
    Month,
    Year,
}

/// How many leading characters of a timestamp's text name its period: the
/// date for days, year and month for months, the year for years.
pub fn period_prefix_len(kind: PeriodKind) -> (r: i64)
    ensures
        r == match kind {
            PeriodKind::Day => 10i64,
            PeriodKind::Month => 7i64,
            PeriodKind::Year => 4i64,
        },
{
    match kind {
        PeriodKind::Day => 10,
        PeriodKind::Month => 7,
        PeriodKind::Year => 4,
    }
}

} // verus!
