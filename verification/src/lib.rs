//! A personal time-clock library: one record per calendar date holds the
//! day's start, lunch and end timestamps and the worked total in whole
//! minutes; a store keeps the records in order, at most one per date; and
//! reports sum the totals over a week or a calendar month.

pub mod clock;
pub mod display;
pub mod record;
pub mod reports;
pub mod store;
pub mod times;
