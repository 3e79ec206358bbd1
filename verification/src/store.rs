//! The record store: an ordered collection of daily records, at most one
//! per date, looked up by date, replaced or appended by `upsert`, and
//! thinned by a validated deletion.

use vstd::prelude::*;
use vstd::seq_lib::*;

use crate::record::DailyRecord;
use crate::record::RecordView;

verus! {

/// What each record of a store says, in order.
pub open spec fn store_view(records: Seq<DailyRecord>) -> Seq<RecordView> {
    records.map_values(|r: DailyRecord| r@)
}

/// Whether a record carries the given date.
pub open spec fn has_date(r: RecordView, date: Seq<char>) -> bool {
    r.date == Some(date)
}

/// The position of the first record with the given date, if any.
pub open spec fn find_index(records: Seq<RecordView>, date: Seq<char>) -> Option<int>
    decreases records.len(),
{
    if records.len() == 0 {
        None
    } else if has_date(records[0], date) {
        Some(0int)
    } else {
        match find_index(records.drop_first(), date) {
            Some(i) => Some(i + 1),
            None => None,
        }
    }
}

/// `find_index` gives the first matching position: the record there has
/// the date, no earlier record does, and a `None` means no record has it.
pub proof fn lemma_find_index_characterization(records: Seq<RecordView>, date: Seq<char>)
    ensures
        match find_index(records, date) {
            Some(i) => 0 <= i < records.len() && has_date(records[i], date) && forall|j: int|
                0 <= j < i ==> !has_date(records[j], date),
            None => forall|j: int| 0 <= j < records.len() ==> !has_date(records[j], date),
        },
    decreases records.len(),
{
    if records.len() > 0 && !has_date(records[0], date) {
        let rest = records.drop_first();
        lemma_find_index_characterization(rest, date);
        match find_index(rest, date) {
            Some(i) => {
                assert(records[i + 1] == rest[i]);
                assert forall|j: int| 0 <= j < i + 1 implies !has_date(records[j], date) by {
                    if j > 0 {
                        assert(records[j] == rest[j - 1]);
                    }
                }
            },
            None => {
                assert forall|j: int| 0 <= j < records.len() implies !has_date(
                    records[j],
                    date,
                ) by {
                    if j > 0 {
                        assert(records[j] == rest[j - 1]);
                    }
                }
            },
        }
    }
}

/// A record appended at the end changes the first match only when there
/// was none before and the new record has the date.
pub proof fn lemma_find_index_push(records: Seq<RecordView>, r: RecordView, date: Seq<char>)
    ensures
        find_index(records.push(r), date) == (match find_index(records, date) {
            Some(i) => Some(i),
            None => if has_date(r, date) {
                Some(records.len() as int)
            } else {
                None
            },
        }),
    decreases records.len(),
{
    let pushed = records.push(r);
    if records.len() == 0 {
        assert(pushed[0] == r);
        assert(pushed.len() == 1);
        if has_date(r, date) {
            assert(find_index(pushed, date) == Some(0int));
        } else {
            assert(pushed.drop_first().len() == 0);
            assert(find_index(pushed, date) is None);
        }
    } else {
        let rest = records.drop_first();
        assert(pushed[0] == records[0]);
        assert(pushed.drop_first() =~= rest.push(r));
        lemma_find_index_push(rest, r, date);
        if has_date(records[0], date) {
            assert(find_index(pushed, date) == Some(0int));
            assert(find_index(records, date) == Some(0int));
        } else {
            assert(find_index(pushed, date) == (match find_index(rest.push(r), date) {
                Some(i) => Some(i + 1),
                None => None,
            }));
            assert(find_index(records, date) == (match find_index(rest, date) {
                Some(i) => Some(i + 1),
                None => None,
            }));
            assert(rest.len() + 1 == records.len());
        }
    }
}

/// The position of the first record carrying the given date.
pub fn find_by_date(records: &Vec<DailyRecord>, date: &String) -> (r: Option<usize>)
    ensures
        ({
            let found = find_index(store_view(records@), date@);
            match r {
                Some(i) => found == Some(i as int),
                None => found is None,
            }
        }),
{
    proof {
        lemma_find_index_characterization(store_view(records@), date@);
    }
    let mut i: usize = 0;
    while i < records.len()
        invariant
            i <= records@.len(),
            forall|j: int| 0 <= j < i ==> !has_date(store_view(records@)[j], date@),
        decreases records@.len() - i,
    {
        let matched = match &records[i].date {
            Some(d) => d.eq(date),
            None => false,
        };
        proof {
            assert(store_view(records@)[i as int] == records@[i as int]@);
        }
        if matched {
            proof {
                lemma_find_index_characterization(store_view(records@), date@);
            }
            return Some(i);
        }
        i += 1;
    }
    None
}

/// Replaces the first record with the given date, or appends the record
/// when no record has it. The length stays the same exactly when the date
/// was already present, and grows by one otherwise.
pub fn upsert(records: &mut Vec<DailyRecord>, rec: DailyRecord, date: &String)
    ensures
        ({
            let olds = store_view(old(records)@);
            let news = store_view(final(records)@);
            match find_index(olds, date@) {
                Some(i) => news == olds.update(i, rec@) && final(records)@.len() == old(
                    records,
                )@.len(),
                None => news == olds.push(rec@) && final(records)@.len() == old(records)@.len()
                    + 1,
            }
        }),
{
    let found = find_by_date(records, date);
    match found {
        Some(i) => {
            proof {
                lemma_find_index_characterization(store_view(records@), date@);
            }
            records[i] = rec;
            proof {
                assert(store_view(records@) =~= store_view(old(records)@).update(
                    i as int,
                    records@[i as int]@,
                ));
            }
        },
        None => {
            records.push(rec);
            proof {
                assert(store_view(records@) =~= store_view(old(records)@).push(
                    records@[records@.len() - 1]@,
                ));
            }
        },
    }
}

/// Removes the record at the given position; every other record keeps its
/// place relative to the rest.
pub fn delete_at(records: &mut Vec<DailyRecord>, index: usize)
    requires
        index < old(records)@.len(),
    ensures
        final(records)@ == old(records)@.remove(index as int),
        final(records)@.len() == old(records)@.len() - 1,
        forall|j: int| 0 <= j < index ==> final(records)@[j] == old(records)@[j],
        forall|j: int|
            index <= j < final(records)@.len() ==> final(records)@[j] == old(records)@[j + 1],
{
    records.remove(index);
    proof {
        old(records)@.remove_ensures(index as int);
    }
}

/// At most one record per date, as the store keeps it.
pub open spec fn dates_unique(records: Seq<RecordView>) -> bool {
    forall|i: int, j: int|
        0 <= i < j < records.len() && records[i].date is Some && records[j].date is Some
            ==> records[i].date != records[j].date
}

/// An upsert keyed by the upserted record's own date keeps the store's
/// one-record-per-date invariant: replacing the record that had the date
/// introduces no second copy, and a record is appended only when no
/// record had the date.
pub proof fn lemma_upsert_keeps_one_record_per_date(
    records: Seq<RecordView>,
    r: RecordView,
    date: Seq<char>,
)
    requires
        dates_unique(records),
        r.date == Some(date),
    ensures
        dates_unique(
            match find_index(records, date) {
                Some(i) => records.update(i, r),
                None => records.push(r),
            },
        ),
{
    lemma_find_index_characterization(records, date);
    match find_index(records, date) {
        Some(i) => {
            let news = records.update(i, r);
            assert forall|a: int, b: int|
                0 <= a < b < news.len() && news[a].date is Some && news[b].date is Some implies
                news[a].date != news[b].date by {
                if a != i && b != i {
                    assert(news[a] == records[a] && news[b] == records[b]);
                } else if a == i {
                    assert(news[b] == records[b]);
                    assert(records[i].date == Some(date));
                } else {
                    assert(news[a] == records[a]);
                    assert(records[i].date == Some(date));
                }
            }
        },
        None => {
            let news = records.push(r);
            assert forall|a: int, b: int|
                0 <= a < b < news.len() && news[a].date is Some && news[b].date is Some implies
                news[a].date != news[b].date by {
                if b == records.len() {
                    assert(news[a] == records[a]);
                    assert(news[b] == r);
                    assert(!has_date(records[a], date));
                } else {
                    assert(news[a] == records[a] && news[b] == records[b]);
                }
            }
        },
    }
}

/// What a one-based deletion request asks for.
#[derive(Clone, Copy, Debug, PartialEq, Eq, Structural)]
pub enum DeleteChoice {
    /// Zero: the user declined to delete anything.
    Cancel,
    /// Beyond the last record: nothing to delete there.
    OutOfRange,
    /// A valid selection, as the position to remove.
    Target(usize),
}

/// Reads a one-based selection against a store of `len` records: zero
/// cancels, anything past the end is out of range, and a valid choice
/// names the position of the chosen record.
pub fn resolve_delete_choice(len: usize, choice: usize) -> (r: DeleteChoice)
    ensures
        choice == 0 ==> r == DeleteChoice::Cancel,
        choice > len ==> r == DeleteChoice::OutOfRange,
        0 < choice <= len ==> r == DeleteChoice::Target((choice - 1) as usize),
        r matches DeleteChoice::Target(i) ==> i < len,
{
    if choice == 0 {
        DeleteChoice::Cancel
    } else if choice > len {
        DeleteChoice::OutOfRange
    } else {
        DeleteChoice::Target(choice - 1)
    }
}

} // verus!
