//! Times of day written as `HH:MM:SS`, and the worked-hours arithmetic.
//!
//! A record stores its timestamps as text. This module says exactly which
//! strings are well-formed times, what instant of the day such a string
//! denotes, and how a day's total is computed from the four timestamps:
//! the end-to-start span minus the lunch span, truncated to whole minutes.

use vstd::prelude::*;

verus! {

/// A decimal digit, as a character.
pub open spec fn is_time_digit(c: char) -> bool {
    48 <= c as u32 && c as u32 <= 57
}

/// The numeric value of a decimal digit character.
pub open spec fn digit_value(c: char) -> int {
    c as u32 - 48
}

/// The hour denoted by the first two characters of a time string.
pub open spec fn time_hour(s: Seq<char>) -> int {
    10 * digit_value(s[0]) + digit_value(s[1])
}

/// The minute denoted by characters 3 and 4 of a time string.
pub open spec fn time_minute(s: Seq<char>) -> int {
    10 * digit_value(s[3]) + digit_value(s[4])
}

/// The second denoted by the last two characters of a time string.
pub open spec fn time_second(s: Seq<char>) -> int {
    10 * digit_value(s[6]) + digit_value(s[7])
}

/// A well-formed time of day: exactly `HH:MM:SS`, two digits each,
/// with the hour below 24 and minute and second below 60.
pub open spec fn valid_time_text(s: Seq<char>) -> bool {
    &&& s.len() == 8
    &&& s[2] == ':'
    &&& s[5] == ':'
    &&& is_time_digit(s[0])
    &&& is_time_digit(s[1])
    &&& is_time_digit(s[3])
    &&& is_time_digit(s[4])
    &&& is_time_digit(s[6])
    &&& is_time_digit(s[7])
    &&& time_hour(s) < 24
    &&& time_minute(s) < 60
    &&& time_second(s) < 60
}

/// The instant a valid time string denotes, in seconds since midnight.
pub open spec fn time_seconds_of_day(s: Seq<char>) -> int {
    3600 * time_hour(s) + 60 * time_minute(s) + time_second(s)
}

/// Whole minutes in a span of seconds, truncated toward zero.
pub open spec fn whole_minutes(secs: int) -> int {
    if secs >= 0 {
        secs / 60
    } else {
        -((-secs) / 60)
    }
}

/// The lunch span in seconds: zero unless both lunch bounds are present
/// and well-formed.
pub open spec fn lunch_span_seconds(lunch_start: Option<Seq<char>>, lunch_end: Option<Seq<char>>) -> int {
    if lunch_start is Some && lunch_end is Some && valid_time_text(lunch_start->0)
        && valid_time_text(lunch_end->0) {
        time_seconds_of_day(lunch_end->0) - time_seconds_of_day(lunch_start->0)
    } else {
        0
    }
}

/// The day's total in whole minutes: defined only when both the start and
/// the end time are present and well-formed; the lunch span is subtracted
/// when both of its bounds are present and well-formed, and ignored otherwise.
pub open spec fn computed_total_minutes(
    start: Option<Seq<char>>,
    end: Option<Seq<char>>,
    lunch_start: Option<Seq<char>>,
    lunch_end: Option<Seq<char>>,
) -> Option<int> {
    if start is Some && end is Some && valid_time_text(start->0) && valid_time_text(end->0) {
        Some(
            whole_minutes(
                time_seconds_of_day(end->0) - time_seconds_of_day(start->0) - lunch_span_seconds(
                    lunch_start,
                    lunch_end,
                ),
            ),
        )
    } else {
        None
    }
}

/// For a day whose four timestamps are in forward order — start, then
/// lunch start, then lunch end, then end, all well-formed — the computed
/// total is the work span minus the lunch span, in whole minutes.
pub proof fn lemma_total_is_span_minus_lunch(
    start: Seq<char>,
    lunch_start: Seq<char>,
    lunch_end: Seq<char>,
    end: Seq<char>,
)
    requires
        valid_time_text(start),
        valid_time_text(lunch_start),
        valid_time_text(lunch_end),
        valid_time_text(end),
        time_seconds_of_day(start) <= time_seconds_of_day(lunch_start),
        time_seconds_of_day(lunch_start) <= time_seconds_of_day(lunch_end),
        time_seconds_of_day(lunch_end) <= time_seconds_of_day(end),
    ensures
        computed_total_minutes(Some(start), Some(end), Some(lunch_start), Some(lunch_end))
            == Some(
            ((time_seconds_of_day(end) - time_seconds_of_day(start)) - (time_seconds_of_day(
                lunch_end,
            ) - time_seconds_of_day(lunch_start))) / 60,
        ),
{
    let span = time_seconds_of_day(end) - time_seconds_of_day(start) - (time_seconds_of_day(
        lunch_end,
    ) - time_seconds_of_day(lunch_start));
    assert(span >= 0);
}

/// The text a borrowed optional timestamp holds.
pub open spec fn text_view(o: Option<&String>) -> Option<Seq<char>> {
    match o {
        Some(s) => Some(s@),
        None => None,
    }
}

/// The numeric value of a digit character, or `None` for any other character.
fn digit_of(c: char) -> (r: Option<u32>)
    ensures
        r is Some <==> is_time_digit(c),
        r is Some ==> r->0 == digit_value(c),
{
    let u = c as u32;
    if 48 <= u && u <= 57 {
        Some(u - 48)
    } else {
        None
    }
}

/// The two-digit number at positions `i` and `i + 1` of `s`, or `None`
/// if either character is not a digit.
fn two_digits_at(s: &str, i: usize) -> (r: Option<u32>)
    requires
        i + 1 < s@.len(),
        i <= 6,
    ensures
        r is Some <==> is_time_digit(s@[i as int]) && is_time_digit(s@[i + 1]),
        r is Some ==> r->0 == 10 * digit_value(s@[i as int]) + digit_value(s@[i + 1]),
{
    let hi = digit_of(s.get_char(i));
    let lo = digit_of(s.get_char(i + 1));
    match (hi, lo) {
        (Some(h), Some(l)) => Some(10 * h + l),
        _ => None,
    }
}

/// Parses a time of day written as `HH:MM:SS` into seconds since midnight.
/// Returns `None` exactly on strings that are not well-formed times.
pub fn parse_time_of_day(s: &str) -> (r: Option<u32>)
    ensures
        r is Some <==> valid_time_text(s@),
        r is Some ==> r->0 == time_seconds_of_day(s@),
{
    if s.unicode_len() != 8 {
        return None;
    }
    if s.get_char(2) != ':' || s.get_char(5) != ':' {
        return None;
    }
    let hour = match two_digits_at(s, 0) {
        Some(h) => h,
        None => {
            return None;
        },
    };
    let minute = match two_digits_at(s, 3) {
        Some(m) => m,
        None => {
            return None;
        },
    };
    let second = match two_digits_at(s, 6) {
        Some(x) => x,
        None => {
            return None;
        },
    };
    if hour < 24 && minute < 60 && second < 60 {
        Some(3600 * hour + 60 * minute + second)
    } else {
        None
    }
}

/// The worked total in whole minutes for the four timestamps of a record,
/// exactly as `computed_total_minutes` defines it.
pub fn total_minutes_of(
    start: Option<&String>,
    end: Option<&String>,
    lunch_start: Option<&String>,
    lunch_end: Option<&String>,
) -> (r: Option<i64>)
    ensures
        ({
            let total = computed_total_minutes(
                text_view(start),
                text_view(end),
                text_view(lunch_start),
                text_view(lunch_end),
            );
            &&& r is Some <==> total is Some
            &&& r is Some ==> r->0 == total->0
        }),
{
    let start_secs = match start {
        Some(s) => match parse_time_of_day(s.as_str()) {
            Some(v) => v,
            None => {
                return None;
            },
        },
        None => {
            return None;
        },
    };
    let end_secs = match end {
        Some(s) => match parse_time_of_day(s.as_str()) {
            Some(v) => v,
            None => {
                return None;
            },
        },
        None => {
            return None;
        },
    };
    let lunch_secs: i64 = match (lunch_start, lunch_end) {
        (Some(ls), Some(le)) => match (parse_time_of_day(ls.as_str()), parse_time_of_day(
            le.as_str(),
        )) {
            (Some(a), Some(b)) => b as i64 - a as i64,
            _ => 0,
        },
        _ => 0,
    };
    let span: i64 = end_secs as i64 - start_secs as i64 - lunch_secs;
    if span >= 0 {
        Some(span / 60)
    } else {
        Some(-((-span) / 60))
    }
}

} // verus!
