use ponto::display::format_duration;
use ponto::display::total_label;
use ponto::record::ClockError;
use ponto::record::DailyRecord;
use ponto::times::parse_time_of_day;
use ponto::times::total_minutes_of;

fn owned(s: &str) -> String {
    s.to_string()
}

fn total_of(start: Option<&str>, end: Option<&str>, ls: Option<&str>, le: Option<&str>) -> Option<i64> {
    let start = start.map(owned);
    let end = end.map(owned);
    let ls = ls.map(owned);
    let le = le.map(owned);
    total_minutes_of(start.as_ref(), end.as_ref(), ls.as_ref(), le.as_ref())
}

#[test]
fn parse_accepts_well_formed_times() {
    assert_eq!(parse_time_of_day("00:00:00"), Some(0));
    assert_eq!(parse_time_of_day("09:00:00"), Some(9 * 3600));
    assert_eq!(parse_time_of_day("12:34:56"), Some(12 * 3600 + 34 * 60 + 56));
    assert_eq!(parse_time_of_day("23:59:59"), Some(86399));
}

#[test]
fn parse_rejects_out_of_range_fields() {
    assert_eq!(parse_time_of_day("24:00:00"), None);
    assert_eq!(parse_time_of_day("12:60:00"), None);
    assert_eq!(parse_time_of_day("12:00:60"), None);
}

#[test]
fn parse_rejects_malformed_text() {
    assert_eq!(parse_time_of_day(""), None);
    assert_eq!(parse_time_of_day("9:00:00"), None);
    assert_eq!(parse_time_of_day("12:00"), None);
    assert_eq!(parse_time_of_day("12-00-00"), None);
    assert_eq!(parse_time_of_day("ab:cd:ef"), None);
    assert_eq!(parse_time_of_day("12:00:00 "), None);
}

#[test]
fn nine_to_six_with_an_hour_of_lunch_is_eight_hours() {
    let total = total_of(
        Some("09:00:00"),
        Some("18:00:00"),
        Some("12:00:00"),
        Some("13:00:00"),
    );
    assert_eq!(total, Some(480));
    assert_eq!(format_duration(480), "8h0m");
}

#[test]
fn total_is_work_span_minus_lunch_span() {
    let total = total_of(
        Some("08:30:00"),
        Some("17:15:00"),
        Some("12:00:00"),
        Some("12:45:00"),
    );
    assert_eq!(total, Some(480));
}

#[test]
fn total_truncates_to_whole_minutes() {
    assert_eq!(total_of(Some("09:00:30"), Some("10:00:00"), None, None), Some(59));
}

#[test]
fn total_is_negative_when_the_day_ends_before_it_starts() {
    assert_eq!(total_of(Some("09:00:00"), Some("08:00:00"), None, None), Some(-60));
}

#[test]
fn partial_lunch_is_ignored() {
    assert_eq!(
        total_of(Some("09:00:00"), Some("18:00:00"), Some("12:00:00"), None),
        Some(540)
    );
    assert_eq!(
        total_of(Some("09:00:00"), Some("18:00:00"), None, Some("13:00:00")),
        Some(540)
    );
}

#[test]
fn unparseable_lunch_is_ignored() {
    assert_eq!(
        total_of(Some("09:00:00"), Some("18:00:00"), Some("12:00"), Some("13:00:00")),
        Some(540)
    );
}

#[test]
fn unparseable_shift_time_yields_no_total() {
    assert_eq!(total_of(Some("9am"), Some("18:00:00"), None, None), None);
    assert_eq!(total_of(Some("09:00:00"), Some("late"), None, None), None);
    assert_eq!(total_of(None, Some("18:00:00"), None, None), None);
    assert_eq!(total_of(Some("09:00:00"), None, None, None), None);
}

#[test]
fn a_full_day_through_the_shift_operations() {
    let mut rec = DailyRecord::new();
    rec.start_shift("2024-03-04".to_string(), "09:00:00".to_string());
    assert_eq!(rec.date, Some("2024-03-04".to_string()));
    assert_eq!(rec.start_time, Some("09:00:00".to_string()));
    assert_eq!(rec.start_lunch("12:00:00".to_string()), Ok(()));
    assert_eq!(rec.end_lunch("13:00:00".to_string()), Ok(()));
    assert_eq!(rec.end_shift("18:00:00".to_string()), Ok(()));
    assert_eq!(rec.end_time, Some("18:00:00".to_string()));
    assert_eq!(rec.total_minutes, Some(480));
}

#[test]
fn ending_a_shift_that_never_started_changes_nothing() {
    let mut rec = DailyRecord::new();
    let r = rec.end_shift("18:00:00".to_string());
    assert_eq!(r, Err(ClockError::ShiftNotStarted));
    assert_eq!(rec.date, None);
    assert_eq!(rec.start_time, None);
    assert_eq!(rec.end_time, None);
    assert_eq!(rec.lunch_start, None);
    assert_eq!(rec.lunch_end, None);
    assert_eq!(rec.total_minutes, None);
}

#[test]
fn lunch_operations_check_their_preconditions() {
    let mut rec = DailyRecord::new();
    assert_eq!(
        rec.start_lunch("12:00:00".to_string()),
        Err(ClockError::ShiftNotStarted)
    );
    rec.start_shift("2024-03-04".to_string(), "09:00:00".to_string());
    assert_eq!(
        rec.end_lunch("13:00:00".to_string()),
        Err(ClockError::LunchNotStarted)
    );
    assert_eq!(rec.lunch_start, None);
    assert_eq!(rec.lunch_end, None);
}

#[test]
fn ending_with_an_unparseable_start_keeps_the_old_total() {
    let mut rec = DailyRecord::new();
    rec.start_shift("2024-03-04".to_string(), "morning".to_string());
    assert_eq!(rec.end_shift("18:00:00".to_string()), Ok(()));
    assert_eq!(rec.end_time, Some("18:00:00".to_string()));
    assert_eq!(rec.total_minutes, None);
}

#[test]
fn durations_render_as_hours_and_minutes() {
    assert_eq!(format_duration(0), "0h0m");
    assert_eq!(format_duration(59), "0h59m");
    assert_eq!(format_duration(61), "1h1m");
    assert_eq!(format_duration(600), "10h0m");
    assert_eq!(format_duration(1439), "23h59m");
    assert_eq!(format_duration(60000), "1000h0m");
}

#[test]
fn a_missing_total_is_labelled_in_progress() {
    assert_eq!(total_label(Some(480)), "8h0m");
    assert_eq!(total_label(Some(0)), "0h0m");
    assert_eq!(total_label(None), "em andamento");
}

#[test]
fn negative_durations_render_as_zero() {
    assert_eq!(format_duration(-30), "0h0m");
    assert_eq!(format_duration(-1), "0h0m");
}
