//! Visit counts per period.
use vstd::prelude::*;

verus! {

/// Visit counts of one period.
pub struct PeriodStats {
    pub period: String,
    pub all_visits: i64,
    pub visitor_count: i64,
    pub unique_visitors: i64,
}

} // verus!
