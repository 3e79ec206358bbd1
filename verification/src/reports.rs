//! Read-only reports over the store: the weekly report sums one
//! contribution per date of the week, the monthly report sums the records
//! whose date starts with the month's `YYYY-MM` prefix.

use vstd::prelude::*;
use vstd::string::*;

use crate::record::DailyRecord;
use crate::record::RecordView;
use crate::store::dates_unique;
use crate::store::find_by_date;
use crate::store::find_index;
use crate::store::has_date;
use crate::store::lemma_find_index_characterization;
use crate::store::lemma_find_index_push;
use crate::store::store_view;

verus! {

/// The minutes a record contributes to a report: its total, or zero when
/// the day is still in progress.
pub open spec fn total_of(r: RecordView) -> int {
    match r.total_minutes {
        Some(m) => m,
        None => 0,
    }
}

/// Whether a record counts as a worked day: it carries a total.
pub open spec fn counts_day(r: RecordView) -> bool {
    r.total_minutes is Some
}

/// The text of each date in a list, in order.
pub open spec fn texts_view(dates: Seq<String>) -> Seq<Seq<char>> {
    dates.map_values(|s: String| s@)
}

/// One date's contribution: the total of the first record with that date,
/// or zero when the store has none.
pub open spec fn date_total(records: Seq<RecordView>, date: Seq<char>) -> int {
    match find_index(records, date) {
        Some(i) => total_of(records[i]),
        None => 0,
    }
}

/// One date's worked-day count: one when the store's record for it has a
/// total, zero otherwise.
pub open spec fn date_day_count(records: Seq<RecordView>, date: Seq<char>) -> int {
    match find_index(records, date) {
        Some(i) => if counts_day(records[i]) {
            1int
        } else {
            0int
        },
        None => 0,
    }
}

/// The weekly total: one contribution per date of the week, in order.
pub open spec fn week_total(records: Seq<RecordView>, dates: Seq<Seq<char>>) -> int
    decreases dates.len(),
{
    if dates.len() == 0 {
        0
    } else {
        week_total(records, dates.drop_last()) + date_total(records, dates.last())
    }
}

/// The weekly worked-day count: one contribution per date of the week.
pub open spec fn week_day_count(records: Seq<RecordView>, dates: Seq<Seq<char>>) -> int
    decreases dates.len(),
{
    if dates.len() == 0 {
        0
    } else {
        week_day_count(records, dates.drop_last()) + date_day_count(records, dates.last())
    }
}

/// Whether a record belongs to the month: its date starts with the
/// month's `YYYY-MM` prefix.
pub open spec fn in_month(r: RecordView, prefix: Seq<char>) -> bool {
    &&& r.date is Some
    &&& prefix.len() <= r.date->0.len()
    &&& r.date->0.subrange(0, prefix.len() as int) == prefix
}

/// The monthly total: the sum of the totals of exactly the records that
/// belong to the month.
pub open spec fn month_total(records: Seq<RecordView>, prefix: Seq<char>) -> int
    decreases records.len(),
{
    if records.len() == 0 {
        0
    } else {
        month_total(records.drop_last(), prefix) + if in_month(records.last(), prefix) {
            total_of(records.last())
        } else {
            0int
        }
    }
}

/// The monthly worked-day count: the records that belong to the month and
/// carry a total.
pub open spec fn month_day_count(records: Seq<RecordView>, prefix: Seq<char>) -> int
    decreases records.len(),
{
    if records.len() == 0 {
        0
    } else {
        month_day_count(records.drop_last(), prefix) + if in_month(records.last(), prefix)
            && counts_day(records.last()) {
            1int
        } else {
            0int
        }
    }
}

/// What a report hands back: the period's total in whole minutes and how
/// many worked days contributed to it.
#[derive(Clone, Copy, Debug, PartialEq, Eq, Structural)]
pub struct PeriodSummary {
    pub total_minutes: i128,
    pub days_worked: usize,
}

/// Whether `s` starts with `prefix`, character for character.
pub fn has_prefix(s: &String, prefix: &String) -> (r: bool)
    ensures
        r <==> (prefix@.len() <= s@.len() && s@.subrange(0, prefix@.len() as int) == prefix@),
{
    let n = prefix.as_str().unicode_len();
    let m = s.as_str().unicode_len();
    if n > m {
        return false;
    }
    let mut i: usize = 0;
    while i < n
        invariant
            i <= n,
            n == prefix@.len(),
            n <= s@.len(),
            forall|j: int| 0 <= j < i ==> s@[j] == prefix@[j],
        decreases n - i,
    {
        if s.as_str().get_char(i) != prefix.as_str().get_char(i) {
            proof {
                assert(s@.subrange(0, n as int)[i as int] != prefix@[i as int]);
            }
            return false;
        }
        i += 1;
    }
    proof {
        assert(s@.subrange(0, n as int) =~= prefix@);
    }
    true
}

/// The weekly report's numbers: for each date, in order, the first record
/// with that date contributes its total and, when it has one, a worked day.
pub fn weekly_summary(records: &Vec<DailyRecord>, dates: &Vec<String>) -> (r: PeriodSummary)
    ensures
        r.total_minutes == week_total(store_view(records@), texts_view(dates@)),
        r.days_worked == week_day_count(store_view(records@), texts_view(dates@)),
{
    let ghost sv = store_view(records@);
    let ghost dv = texts_view(dates@);
    let mut total: i128 = 0;
    let mut days: usize = 0;
    let mut i: usize = 0;
    while i < dates.len()
        invariant
            i <= dates@.len(),
            sv == store_view(records@),
            dv == texts_view(dates@),
            total == week_total(sv, dv.take(i as int)),
            days == week_day_count(sv, dv.take(i as int)),
            days <= i,
            -(i as int) * 0x8000_0000_0000_0000 <= total <= (i as int) * 0x8000_0000_0000_0000,
        decreases dates@.len() - i,
    {
        proof {
            assert(dv[i as int] == dates@[i as int]@);
            assert(dv.take(i + 1).drop_last() =~= dv.take(i as int));
            assert(dv.take(i + 1).last() == dv[i as int]);
        }
        let found = find_by_date(records, &dates[i]);
        match found {
            Some(idx) => {
                proof {
                    lemma_find_index_characterization(sv, dv[i as int]);
                    assert(sv[idx as int] == records@[idx as int]@);
                }
                match records[idx].total_minutes {
                    Some(m) => {
                        total = total + m as i128;
                        days = days + 1;
                    },
                    None => {},
                }
            },
            None => {},
        }
        i += 1;
    }
    proof {
        assert(dv.take(dates@.len() as int) =~= dv);
    }
    PeriodSummary { total_minutes: total, days_worked: days }
}

/// The monthly report's numbers: every record whose date starts with the
/// month's prefix contributes its total and, when it has one, a worked day.
pub fn monthly_summary(records: &Vec<DailyRecord>, prefix: &String) -> (r: PeriodSummary)
    ensures
        r.total_minutes == month_total(store_view(records@), prefix@),
        r.days_worked == month_day_count(store_view(records@), prefix@),
{
    let ghost sv = store_view(records@);
    let mut total: i128 = 0;
    let mut days: usize = 0;
    let mut i: usize = 0;
    while i < records.len()
        invariant
            i <= records@.len(),
            sv == store_view(records@),
            total == month_total(sv.take(i as int), prefix@),
            days == month_day_count(sv.take(i as int), prefix@),
            days <= i,
            -(i as int) * 0x8000_0000_0000_0000 <= total <= (i as int) * 0x8000_0000_0000_0000,
        decreases records@.len() - i,
    {
        proof {
            assert(sv[i as int] == records@[i as int]@);
            assert(sv.take(i + 1).drop_last() =~= sv.take(i as int));
            assert(sv.take(i + 1).last() == sv[i as int]);
        }
        let matched = match &records[i].date {
            Some(d) => has_prefix(d, prefix),
            None => false,
        };
        if matched {
            match records[i].total_minutes {
                Some(m) => {
                    total = total + m as i128;
                    days = days + 1;
                },
                None => {},
            }
        }
        i += 1;
    }
    proof {
        assert(sv.take(records@.len() as int) =~= sv);
    }
    PeriodSummary { total_minutes: total, days_worked: days }
}

/// Whether the record's date lies among the given dates.
pub open spec fn date_among(r: RecordView, dates: Seq<Seq<char>>) -> bool {
    r.date is Some && dates.contains(r.date->0)
}

/// The sum of the totals of exactly the records whose date lies among the
/// given dates.
pub open spec fn dates_member_total(records: Seq<RecordView>, dates: Seq<Seq<char>>) -> int
    decreases records.len(),
{
    if records.len() == 0 {
        0
    } else {
        dates_member_total(records.drop_last(), dates) + if date_among(records.last(), dates) {
            total_of(records.last())
        } else {
            0int
        }
    }
}

/// Pairwise distinct dates, as the seven dates of a week are.
pub open spec fn all_distinct(dates: Seq<Seq<char>>) -> bool {
    forall|i: int, j: int| 0 <= i < j < dates.len() ==> dates[i] != dates[j]
}

/// Membership in a list grown by one: the old members, and the new one.
proof fn lemma_contains_push(s: Seq<Seq<char>>, d: Seq<char>, x: Seq<char>)
    ensures
        s.push(d).contains(x) <==> (s.contains(x) || x == d),
{
    if s.contains(x) {
        let i = choose|i: int| 0 <= i < s.len() && s[i] == x;
        assert(s.push(d)[i] == x);
    }
    if x == d {
        assert(s.push(d)[s.len() as int] == x);
    }
    if s.push(d).contains(x) {
        let i = choose|i: int| 0 <= i < s.push(d).len() && s.push(d)[i] == x;
        if i < s.len() {
            assert(s[i] == x);
        }
    }
}

/// A date no record carries contributes nothing.
proof fn lemma_date_total_absent(records: Seq<RecordView>, date: Seq<char>)
    requires
        forall|j: int| 0 <= j < records.len() ==> !has_date(records[j], date),
    ensures
        date_total(records, date) == 0,
{
    lemma_find_index_characterization(records, date);
}

/// One date's contribution to a store grown by one record at the end.
proof fn lemma_date_total_push(records: Seq<RecordView>, r: RecordView, date: Seq<char>)
    ensures
        date_total(records.push(r), date) == (match find_index(records, date) {
            Some(i) => total_of(records[i]),
            None => if has_date(r, date) {
                total_of(r)
            } else {
                0
            },
        }),
{
    lemma_find_index_push(records, r, date);
    lemma_find_index_characterization(records, date);
    match find_index(records, date) {
        Some(i) => {
            assert(records.push(r)[i] == records[i]);
        },
        None => {
            if has_date(r, date) {
                assert(records.push(r)[records.len() as int] == r);
            }
        },
    }
}

/// With no dates, no record contributes.
proof fn lemma_member_total_no_dates(records: Seq<RecordView>, dates: Seq<Seq<char>>)
    requires
        dates.len() == 0,
    ensures
        dates_member_total(records, dates) == 0,
    decreases records.len(),
{
    if records.len() > 0 {
        lemma_member_total_no_dates(records.drop_last(), dates);
    }
}

/// Growing the date list by one date that was not in it adds exactly that
/// date's contribution, when the store has at most one record per date.
proof fn lemma_member_total_split(records: Seq<RecordView>, dates: Seq<Seq<char>>, d: Seq<char>)
    requires
        dates_unique(records),
        !dates.contains(d),
    ensures
        dates_member_total(records, dates.push(d)) == dates_member_total(records, dates)
            + date_total(records, d),
    decreases records.len(),
{
    if records.len() == 0 {
        lemma_find_index_characterization(records, d);
    } else {
        let prefix = records.drop_last();
        let r = records.last();
        assert(prefix.push(r) =~= records);
        assert forall|i: int, j: int|
            0 <= i < j < prefix.len() && prefix[i].date is Some && prefix[j].date is Some implies
            prefix[i].date != prefix[j].date by {
            assert(prefix[i] == records[i] && prefix[j] == records[j]);
        }
        lemma_member_total_split(prefix, dates, d);
        lemma_date_total_push(prefix, r, d);
        lemma_contains_push(dates, d, r.date->0);
        if r.date == Some(d) {
            assert forall|j: int| 0 <= j < prefix.len() implies !has_date(prefix[j], d) by {
                assert(prefix[j] == records[j]);
                assert(records[records.len() - 1].date == Some(d));
            }
            lemma_date_total_absent(prefix, d);
            lemma_find_index_characterization(prefix, d);
            assert(date_among(r, dates.push(d)));
            assert(!date_among(r, dates));
            assert(date_total(records, d) == total_of(r));
        } else {
            assert(date_among(r, dates.push(d)) == date_among(r, dates));
            assert(date_total(records, d) == date_total(prefix, d));
        }
    }
}

/// The weekly report counts every record exactly once: when the store has
/// at most one record per date and the week's dates are pairwise distinct,
/// the per-date weekly total equals the sum of the totals of exactly the
/// records whose date lies among the week's dates.
pub proof fn lemma_week_total_counts_each_record_once(
    records: Seq<RecordView>,
    dates: Seq<Seq<char>>,
)
    requires
        dates_unique(records),
        all_distinct(dates),
    ensures
        week_total(records, dates) == dates_member_total(records, dates),
    decreases dates.len(),
{
    if dates.len() == 0 {
        lemma_member_total_no_dates(records, dates);
    } else {
        let rest = dates.drop_last();
        let d = dates.last();
        assert forall|i: int, j: int| 0 <= i < j < rest.len() implies rest[i] != rest[j] by {
            assert(rest[i] == dates[i] && rest[j] == dates[j]);
        }
        lemma_week_total_counts_each_record_once(records, rest);
        if rest.contains(d) {
            let i = choose|i: int| 0 <= i < rest.len() && rest[i] == d;
            assert(dates[i] == dates[dates.len() - 1]);
            assert(false);
        }
        lemma_member_total_split(records, rest, d);
        assert(rest.push(d) =~= dates);
    }
}

} // verus!
