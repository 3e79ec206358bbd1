//! The tie to the real clock and calendar, through chrono: reading this
//! moment's date and time, and walking the current week's dates. Every
//! chrono call sits behind a trusted wrapper; everything proved about the
//! operations here holds whatever the clock answered.

use vstd::prelude::*;

use chrono::Datelike;
use chrono::Local;
use chrono::NaiveDate;

use crate::record::ClockError;
use crate::record::DailyRecord;
use crate::record::RecordView;
use crate::record::ended_total;
use crate::reports::PeriodSummary;
use crate::reports::month_day_count;
use crate::reports::month_total;
use crate::reports::monthly_summary;
use crate::reports::texts_view;
use crate::reports::week_day_count;
use crate::reports::week_total;
use crate::reports::weekly_summary;
use crate::store::find_by_date;
use crate::store::find_index;
use crate::store::store_view;
use crate::store::upsert;

verus! {

#[verifier::external_type_specification]
#[verifier::external_body]
pub struct ExNaiveDate(NaiveDate);

/// Relies on chrono::Local::now and chrono::DateTime::date_naive for the
/// local calendar date of this moment.
#[verifier::external_body]
fn local_today() -> NaiveDate {
    Local::now().date_naive()
}

/// Relies on chrono::Local::now and chrono's `%Y-%m-%d` and `%H:%M:%S`
/// formatting for this moment's date and time of day as text.
#[verifier::external_body]
fn now_strings() -> (String, String) {
    let now = Local::now();
    (now.format("%Y-%m-%d").to_string(), now.format("%H:%M:%S").to_string())
}

/// Relies on chrono::Local::now and chrono's `%Y-%m` formatting for this
/// moment's year and month as text.
#[verifier::external_body]
fn current_month_text() -> String {
    Local::now().format("%Y-%m").to_string()
}

/// How many days a date lies after its week's Monday.
pub uninterp spec fn monday_offset_of(d: NaiveDate) -> u32;

/// The day before a date in chrono's calendar, if it has one.
pub uninterp spec fn prev_day_of(d: NaiveDate) -> Option<NaiveDate>;

/// The day after a date in chrono's calendar, if it has one.
pub uninterp spec fn next_day_of(d: NaiveDate) -> Option<NaiveDate>;

/// The text chrono's `%Y-%m-%d` formatting gives a date.
pub uninterp spec fn date_text_of(d: NaiveDate) -> Seq<char>;

/// Relies on chrono::Datelike::weekday and
/// chrono::Weekday::num_days_from_monday, a function of the date alone
/// that counts from zero on Monday to six on Sunday.
#[verifier::external_body]
fn days_from_monday(date: &NaiveDate) -> (r: u32)
    ensures
        r == monday_offset_of(*date),
        r < 7,
{
    date.weekday().num_days_from_monday()
}

/// Relies on chrono::NaiveDate::pred_opt, a function of the date alone:
/// the previous calendar day, or `None` at the calendar's lower bound.
#[verifier::external_body]
fn previous_day(date: &NaiveDate) -> (r: Option<NaiveDate>)
    ensures
        r == prev_day_of(*date),
{
    date.pred_opt()
}

/// Relies on chrono::NaiveDate::succ_opt, a function of the date alone:
/// the next calendar day, or `None` at the calendar's upper bound.
#[verifier::external_body]
fn next_day(date: &NaiveDate) -> (r: Option<NaiveDate>)
    ensures
        r == next_day_of(*date),
{
    date.succ_opt()
}

/// Relies on chrono's `%Y-%m-%d` formatting of a date, a function of the
/// date alone.
#[verifier::external_body]
fn date_text(date: &NaiveDate) -> (r: String)
    ensures
        r@ == date_text_of(*date),
{
    date.format("%Y-%m-%d").to_string()
}

/// The date reached by walking back `k` days, or `None` when the
/// calendar ends first.
pub open spec fn back_walk(d: NaiveDate, k: nat) -> Option<NaiveDate>
    decreases k,
{
    if k == 0 {
        Some(d)
    } else {
        match prev_day_of(d) {
            Some(p) => back_walk(p, (k - 1) as nat),
            None => None,
        }
    }
}

/// The texts of up to `n` consecutive days from `d` on, each the named
/// successor of the one before, cut short where the calendar ends.
pub open spec fn week_walk(d: NaiveDate, n: nat) -> Seq<Seq<char>>
    decreases n,
{
    if n == 0 {
        Seq::empty()
    } else {
        match next_day_of(d) {
            Some(nd) => seq![date_text_of(d)] + week_walk(nd, (n - 1) as nat),
            None => seq![date_text_of(d)],
        }
    }
}

/// What the current week's dates are for a given today: the texts of the
/// seven consecutive days (fewer only at a calendar bound) from the
/// Monday reached by walking back today's Monday offset; nothing when
/// even that walk leaves the calendar.
pub open spec fn current_week_texts(today: NaiveDate, texts: Seq<Seq<char>>) -> bool {
    match back_walk(today, monday_offset_of(today) as nat) {
        Some(monday) => texts == week_walk(monday, 7),
        None => texts.len() == 0,
    }
}

/// The dates of the current week, Monday through Sunday, as `YYYY-MM-DD`
/// text: the current date is walked back to the week's Monday and the
/// seven days are collected from there. At the calendar's bounds, where
/// chrono has no neighbouring day, the shorter list that could be formed
/// is handed back; otherwise there are seven dates.
pub fn current_week_dates() -> (r: Vec<String>)
    ensures
        r@.len() <= 7,
        exists|today: NaiveDate| current_week_texts(today, texts_view(r@)),
{
    let today = local_today();
    let ghost t0 = today;
    let offset = days_from_monday(&today);
    let mut cur = today;
    let mut back: u32 = 0;
    while back < offset
        invariant
            back <= offset,
            offset < 7,
            offset == monday_offset_of(t0),
            back_walk(t0, offset as nat) == back_walk(cur, (offset - back) as nat),
        decreases offset - back,
    {
        match previous_day(&cur) {
            Some(d) => {
                cur = d;
            },
            None => {
                proof {
                    assert(back_walk(t0, monday_offset_of(t0) as nat) is None);
                    assert(texts_view(Seq::<String>::empty()).len() == 0);
                    assert(current_week_texts(t0, texts_view(Seq::<String>::empty())));
                }
                return Vec::new();
            },
        }
        back += 1;
    }
    let ghost monday = cur;
    proof {
        assert(back_walk(t0, monday_offset_of(t0) as nat) == Some(monday));
    }
    let mut dates: Vec<String> = Vec::new();
    let mut i: u32 = 0;
    proof {
        assert(texts_view(dates@) + week_walk(cur, 7nat) =~= week_walk(monday, 7));
    }
    while i < 7
        invariant
            dates@.len() == i,
            i <= 7,
            back_walk(t0, monday_offset_of(t0) as nat) == Some(monday),
            texts_view(dates@) + week_walk(cur, (7 - i) as nat) == week_walk(monday, 7),
        decreases 7 - i,
    {
        let ghost pre = dates@;
        let text = date_text(&cur);
        dates.push(text);
        proof {
            assert(texts_view(dates@) =~= texts_view(pre) + seq![date_text_of(cur)]);
        }
        if i < 6 {
            match next_day(&cur) {
                Some(d) => {
                    proof {
                        assert(week_walk(cur, (7 - i) as nat) == seq![date_text_of(cur)]
                            + week_walk(d, (7 - (i + 1)) as nat));
                        assert(texts_view(dates@) + week_walk(d, (7 - (i + 1)) as nat)
                            =~= week_walk(monday, 7));
                    }
                    cur = d;
                },
                None => {
                    proof {
                        assert(week_walk(cur, (7 - i) as nat) == seq![date_text_of(cur)]);
                        assert(texts_view(dates@) =~= week_walk(monday, 7));
                        assert(current_week_texts(t0, texts_view(dates@)));
                    }
                    return dates;
                },
            }
        } else {
            proof {
                assert(week_walk(cur, 1nat) =~= seq![date_text_of(cur)]) by {
                    if next_day_of(cur) is Some {
                        assert(seq![date_text_of(cur)] + week_walk(next_day_of(cur)->0, 0nat)
                            =~= seq![date_text_of(cur)]);
                    }
                }
                assert(texts_view(dates@) + week_walk(cur, 0nat) =~= week_walk(monday, 7));
            }
        }
        i += 1;
    }
    proof {
        assert(texts_view(dates@) =~= week_walk(monday, 7));
        assert(current_week_texts(t0, texts_view(dates@)));
    }
    dates
}

impl DailyRecord {
    /// Starts the day at this moment; hands back the stamped date and
    /// time, which the record now carries.
    pub fn start_shift_now(&mut self) -> (r: (String, String))
        ensures
            final(self)@ == (RecordView {
                date: Some(r.0@),
                start_time: Some(r.1@),
                ..old(self)@
            }),
    {
        let (date, time) = now_strings();
        let date_out = date.clone();
        let time_out = time.clone();
        self.start_shift(date, time);
        (date_out, time_out)
    }

    /// Starts the lunch break at this moment; hands back the stamped
    /// time, or the refusal that left the record unchanged.
    pub fn start_lunch_now(&mut self) -> (r: Result<String, ClockError>)
        ensures
            old(self)@.start_time is Some ==> r is Ok && final(self)@ == (RecordView {
                lunch_start: Some(r->Ok_0@),
                ..old(self)@
            }),
            old(self)@.start_time is None ==> r == Err::<String, ClockError>(
                ClockError::ShiftNotStarted,
            ) && final(self)@ == old(self)@,
    {
        let (_, time) = now_strings();
        let time_out = time.clone();
        match self.start_lunch(time) {
            Ok(_) => Ok(time_out),
            Err(e) => Err(e),
        }
    }

    /// Ends the lunch break at this moment; hands back the stamped time,
    /// or the refusal that left the record unchanged.
    pub fn end_lunch_now(&mut self) -> (r: Result<String, ClockError>)
        ensures
            old(self)@.lunch_start is Some ==> r is Ok && final(self)@ == (RecordView {
                lunch_end: Some(r->Ok_0@),
                ..old(self)@
            }),
            old(self)@.lunch_start is None ==> r == Err::<String, ClockError>(
                ClockError::LunchNotStarted,
            ) && final(self)@ == old(self)@,
    {
        let (_, time) = now_strings();
        let time_out = time.clone();
        match self.end_lunch(time) {
            Ok(_) => Ok(time_out),
            Err(e) => Err(e),
        }
    }

    /// Ends the day at this moment and recomputes the total; hands back
    /// the stamped time, or the refusal that left the record unchanged.
    pub fn end_shift_now(&mut self) -> (r: Result<String, ClockError>)
        ensures
            old(self)@.start_time is Some ==> r is Ok && final(self)@ == (RecordView {
                end_time: Some(r->Ok_0@),
                total_minutes: ended_total(old(self)@, r->Ok_0@),
                ..old(self)@
            }),
            old(self)@.start_time is None ==> r == Err::<String, ClockError>(
                ClockError::ShiftNotStarted,
            ) && final(self)@ == old(self)@,
    {
        let (_, time) = now_strings();
        let time_out = time.clone();
        match self.end_shift(time) {
            Ok(_) => Ok(time_out),
            Err(e) => Err(e),
        }
    }
}

/// Inserts or replaces today's record: the first record stored for this
/// moment's date is replaced, and the record is appended when there is
/// none. Hands back the date that keyed the upsert.
pub fn upsert_today(records: &mut Vec<DailyRecord>, rec: DailyRecord) -> (today: String)
    ensures
        ({
            let olds = store_view(old(records)@);
            let news = store_view(final(records)@);
            match find_index(olds, today@) {
                Some(i) => news == olds.update(i, rec@) && final(records)@.len() == old(
                    records,
                )@.len(),
                None => news == olds.push(rec@) && final(records)@.len() == old(records)@.len()
                    + 1,
            }
        }),
{
    let (date, _) = now_strings();
    let date_out = date.clone();
    upsert(records, rec, &date);
    date_out
}

/// Today's record: this moment's date, and the position of the first
/// record carrying it when the store has one.
pub fn find_todays_record(records: &Vec<DailyRecord>) -> (r: (String, Option<usize>))
    ensures
        ({
            let found = find_index(store_view(records@), r.0@);
            match r.1 {
                Some(i) => found == Some(i as int),
                None => found is None,
            }
        }),
{
    let (date, _) = now_strings();
    let pos = find_by_date(records, &date);
    (date, pos)
}

/// The current month's report: the month's `YYYY-MM` prefix, and the
/// summary over exactly the records whose date starts with it.
pub fn current_month_summary(records: &Vec<DailyRecord>) -> (r: (String, PeriodSummary))
    ensures
        r.1.total_minutes == month_total(store_view(records@), r.0@),
        r.1.days_worked == month_day_count(store_view(records@), r.0@),
{
    let prefix = current_month_text();
    let summary = monthly_summary(records, &prefix);
    (prefix, summary)
}

/// The current week's report: the week's dates — the walk from the
/// current week's Monday — and the summary that adds one contribution
/// per date.
pub fn current_week_summary(records: &Vec<DailyRecord>) -> (r: (Vec<String>, PeriodSummary))
    ensures
        exists|today: NaiveDate| current_week_texts(today, texts_view(r.0@)),
        r.1.total_minutes == week_total(store_view(records@), texts_view(r.0@)),
        r.1.days_worked == week_day_count(store_view(records@), texts_view(r.0@)),
{
    let dates = current_week_dates();
    let summary = weekly_summary(records, &dates);
    let ghost dv = dates@;
    proof {
        assert(exists|today: NaiveDate| current_week_texts(today, texts_view(dv)));
    }
    let r = (dates, summary);
    proof {
        assert(r.0@ == dv);
        assert(exists|today: NaiveDate| current_week_texts(today, texts_view(r.0@)));
    }
    r
}

} // verus!
