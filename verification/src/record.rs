//! The daily record: one entry per calendar date, with the day's start,
//! lunch and end timestamps and the derived total in whole minutes.
//!
//! The four shift operations fill the fields in forward order. Each one
//! first checks its precondition and, when it fails, reports the failure
//! and leaves the record exactly as it was.

use vstd::prelude::*;

use crate::times::computed_total_minutes;
use crate::times::total_minutes_of;

verus! {

/// Why a shift operation was refused.
#[derive(Clone, Copy, Debug, PartialEq, Eq, Structural)]
pub enum ClockError {
    /// The day's start time has not been recorded yet.
    ShiftNotStarted,
    /// The lunch start has not been recorded yet.
    LunchNotStarted,
}

/// The record of one calendar date. Timestamps are times of day written
/// `HH:MM:SS`; the date is written `YYYY-MM-DD`; the total is the worked
/// span in whole minutes, kept only once the day has been ended.
#[derive(Clone, Debug)]
pub struct DailyRecord {
    pub date: Option<String>,
    pub start_time: Option<String>,
    pub end_time: Option<String>,
    pub lunch_start: Option<String>,
    pub lunch_end: Option<String>,
    pub total_minutes: Option<i64>,
}

/// What a record says: each timestamp as text, the total as an integer.
pub struct RecordView {
    pub date: Option<Seq<char>>,
    pub start_time: Option<Seq<char>>,
    pub end_time: Option<Seq<char>>,
    pub lunch_start: Option<Seq<char>>,
    pub lunch_end: Option<Seq<char>>,
    pub total_minutes: Option<int>,
}

/// The text an optional timestamp holds.
pub open spec fn stored_text(o: Option<String>) -> Option<Seq<char>> {
    match o {
        Some(s) => Some(s@),
        None => None,
    }
}

impl View for DailyRecord {
    type V = RecordView;

    open spec fn view(&self) -> RecordView {
        RecordView {
            date: stored_text(self.date),
            start_time: stored_text(self.start_time),
            end_time: stored_text(self.end_time),
            lunch_start: stored_text(self.lunch_start),
            lunch_end: stored_text(self.lunch_end),
            total_minutes: match self.total_minutes {
                Some(m) => Some(m as int),
                None => None,
            },
        }
    }
}

/// The view of a record with nothing recorded yet.
pub open spec fn empty_record_view() -> RecordView {
    RecordView {
        date: None,
        start_time: None,
        end_time: None,
        lunch_start: None,
        lunch_end: None,
        total_minutes: None,
    }
}

/// The total a finished day gets: the computed whole minutes when the
/// timestamps allow the computation, and the previous total otherwise.
pub open spec fn ended_total(r: RecordView, end: Seq<char>) -> Option<int> {
    match computed_total_minutes(r.start_time, Some(end), r.lunch_start, r.lunch_end) {
        Some(m) => Some(m),
        None => r.total_minutes,
    }
}

impl DailyRecord {
    /// A record with nothing recorded yet.
    pub fn new() -> (r: DailyRecord)
        ensures
            r@ == empty_record_view(),
    {
        DailyRecord {
            date: None,
            start_time: None,
            end_time: None,
            lunch_start: None,
            lunch_end: None,
            total_minutes: None,
        }
    }

    /// Starts the day: stamps the date and the start time. Always allowed;
    /// every other field keeps its value.
    pub fn start_shift(&mut self, date: String, time: String)
        ensures
            final(self)@ == (RecordView {
                date: Some(date@),
                start_time: Some(time@),
                ..old(self)@
            }),
    {
        self.date = Some(date);
        self.start_time = Some(time);
    }

    /// Starts the lunch break. Refused, with the record unchanged, unless
    /// the day has been started.
    pub fn start_lunch(&mut self, time: String) -> (r: Result<(), ClockError>)
        ensures
            old(self)@.start_time is Some ==> r is Ok && final(self)@ == (RecordView {
                lunch_start: Some(time@),
                ..old(self)@
            }),
            old(self)@.start_time is None ==> r == Err::<(), ClockError>(
                ClockError::ShiftNotStarted,
            ) && final(self)@ == old(self)@,
    {
        if self.start_time.is_none() {
            return Err(ClockError::ShiftNotStarted);
        }
        self.lunch_start = Some(time);
        Ok(())
    }

    /// Ends the lunch break. Refused, with the record unchanged, unless
    /// the lunch has been started.
    pub fn end_lunch(&mut self, time: String) -> (r: Result<(), ClockError>)
        ensures
            old(self)@.lunch_start is Some ==> r is Ok && final(self)@ == (RecordView {
                lunch_end: Some(time@),
                ..old(self)@
            }),
            old(self)@.lunch_start is None ==> r == Err::<(), ClockError>(
                ClockError::LunchNotStarted,
            ) && final(self)@ == old(self)@,
    {
        if self.lunch_start.is_none() {
            return Err(ClockError::LunchNotStarted);
        }
        self.lunch_end = Some(time);
        Ok(())
    }

    /// Ends the day: stamps the end time and recomputes the total. Refused,
    /// with the record unchanged, unless the day has been started.
    pub fn end_shift(&mut self, time: String) -> (r: Result<(), ClockError>)
        ensures
            old(self)@.start_time is Some ==> r is Ok && final(self)@ == (RecordView {
                end_time: Some(time@),
                total_minutes: ended_total(old(self)@, time@),
                ..old(self)@
            }),
            old(self)@.start_time is None ==> r == Err::<(), ClockError>(
                ClockError::ShiftNotStarted,
            ) && final(self)@ == old(self)@,
    {
        if self.start_time.is_none() {
            return Err(ClockError::ShiftNotStarted);
        }
        self.end_time = Some(time);
        self.recompute_total();
        Ok(())
    }

    /// Recomputes the total from the four timestamps as they stand: when
    /// they allow the computation the total is replaced, otherwise it is
    /// left as it was.
    pub fn recompute_total(&mut self)
        ensures
            final(self)@ == (RecordView {
                total_minutes: match computed_total_minutes(
                    old(self)@.start_time,
                    old(self)@.end_time,
                    old(self)@.lunch_start,
                    old(self)@.lunch_end,
                ) {
                    Some(m) => Some(m),
                    None => old(self)@.total_minutes,
                },
                ..old(self)@
            }),
    {
        let computed = total_minutes_of(
            self.start_time.as_ref(),
            self.end_time.as_ref(),
            self.lunch_start.as_ref(),
            self.lunch_end.as_ref(),
        );
        if let Some(m) = computed {
            self.total_minutes = Some(m);
        }
    }
}

} // verus!
