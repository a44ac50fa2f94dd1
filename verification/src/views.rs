pub mod period_stats;
pub mod status;
