use ponto::clock::current_week_dates;
use ponto::clock::find_todays_record;
use ponto::clock::upsert_today;
use ponto::record::DailyRecord;
use ponto::reports::has_prefix;
use ponto::reports::monthly_summary;
use ponto::reports::weekly_summary;
use ponto::store::delete_at;
use ponto::store::find_by_date;
use ponto::store::resolve_delete_choice;
use ponto::store::upsert;
use ponto::store::DeleteChoice;
use ponto::times::parse_time_of_day;

fn rec(date: &str, total: Option<i64>) -> DailyRecord {
    DailyRecord {
        date: Some(date.to_string()),
        start_time: None,
        end_time: None,
        lunch_start: None,
        lunch_end: None,
        total_minutes: total,
    }
}

fn dates(list: &[&str]) -> Vec<String> {
    list.iter().map(|d| d.to_string()).collect()
}

#[test]
fn find_by_date_gives_the_first_match() {
    let store = vec![rec("2024-01-01", None), rec("2024-01-02", Some(60)), rec("2024-01-02", Some(90))];
    assert_eq!(find_by_date(&store, &"2024-01-02".to_string()), Some(1));
    assert_eq!(find_by_date(&store, &"2024-01-03".to_string()), None);
    assert_eq!(find_by_date(&Vec::new(), &"2024-01-01".to_string()), None);
}

#[test]
fn upsert_replaces_an_existing_date_in_place() {
    let mut store = vec![rec("2024-01-01", Some(100)), rec("2024-01-02", Some(200))];
    upsert(&mut store, rec("2024-01-02", Some(480)), &"2024-01-02".to_string());
    assert_eq!(store.len(), 2);
    assert_eq!(store[0].total_minutes, Some(100));
    assert_eq!(store[1].total_minutes, Some(480));
    assert_eq!(store[1].date, Some("2024-01-02".to_string()));
}

#[test]
fn upsert_appends_a_new_date() {
    let mut store = vec![rec("2024-01-01", Some(100))];
    upsert(&mut store, rec("2024-01-03", Some(300)), &"2024-01-03".to_string());
    assert_eq!(store.len(), 2);
    assert_eq!(store[0].date, Some("2024-01-01".to_string()));
    assert_eq!(store[1].date, Some("2024-01-03".to_string()));
    assert_eq!(store[1].total_minutes, Some(300));
}

#[test]
fn upsert_with_duplicate_dates_replaces_only_the_first() {
    let mut store = vec![rec("2024-01-01", Some(1)), rec("2024-01-01", Some(2))];
    upsert(&mut store, rec("2024-01-01", Some(3)), &"2024-01-01".to_string());
    assert_eq!(store.len(), 2);
    assert_eq!(store[0].total_minutes, Some(3));
    assert_eq!(store[1].total_minutes, Some(2));
}

#[test]
fn delete_at_removes_exactly_one_and_keeps_the_order() {
    let mut store = vec![rec("2024-01-01", Some(1)), rec("2024-01-02", Some(2)), rec("2024-01-03", Some(3))];
    delete_at(&mut store, 1);
    assert_eq!(store.len(), 2);
    assert_eq!(store[0].date, Some("2024-01-01".to_string()));
    assert_eq!(store[1].date, Some("2024-01-03".to_string()));
}

#[test]
fn delete_choices_are_validated_against_the_length() {
    assert_eq!(resolve_delete_choice(3, 0), DeleteChoice::Cancel);
    assert_eq!(resolve_delete_choice(3, 4), DeleteChoice::OutOfRange);
    assert_eq!(resolve_delete_choice(0, 1), DeleteChoice::OutOfRange);
    assert_eq!(resolve_delete_choice(3, 1), DeleteChoice::Target(0));
    assert_eq!(resolve_delete_choice(3, 3), DeleteChoice::Target(2));
}

#[test]
fn weekly_summary_sums_exactly_the_week() {
    let store = vec![
        rec("2023-12-31", Some(1000)),
        rec("2024-01-01", Some(480)),
        rec("2024-01-03", Some(300)),
        rec("2024-01-06", None),
        rec("2024-01-08", Some(2000)),
    ];
    let week = dates(&[
        "2024-01-01",
        "2024-01-02",
        "2024-01-03",
        "2024-01-04",
        "2024-01-05",
        "2024-01-06",
        "2024-01-07",
    ]);
    let summary = weekly_summary(&store, &week);
    assert_eq!(summary.total_minutes, 780);
    assert_eq!(summary.days_worked, 2);
}

#[test]
fn weekly_summary_takes_the_first_record_per_date() {
    let store = vec![rec("2024-01-01", Some(60)), rec("2024-01-01", Some(600))];
    let week = dates(&["2024-01-01"]);
    let summary = weekly_summary(&store, &week);
    assert_eq!(summary.total_minutes, 60);
    assert_eq!(summary.days_worked, 1);
}

#[test]
fn weekly_summary_of_an_empty_store_is_zero() {
    let week = dates(&["2024-01-01", "2024-01-02"]);
    let summary = weekly_summary(&Vec::new(), &week);
    assert_eq!(summary.total_minutes, 0);
    assert_eq!(summary.days_worked, 0);
}

#[test]
fn monthly_summary_sums_exactly_the_month() {
    let store = vec![
        rec("2024-01-02", Some(480)),
        rec("2024-02-01", Some(999)),
        rec("2024-01-31", Some(120)),
        rec("2023-01-15", Some(7)),
        rec("2024-01-10", None),
    ];
    let summary = monthly_summary(&store, &"2024-01".to_string());
    assert_eq!(summary.total_minutes, 600);
    assert_eq!(summary.days_worked, 2);
}

#[test]
fn records_without_a_date_do_not_belong_to_any_month() {
    let mut no_date = rec("x", Some(50));
    no_date.date = None;
    let store = vec![no_date, rec("2024-01-02", Some(60))];
    let summary = monthly_summary(&store, &"2024-01".to_string());
    assert_eq!(summary.total_minutes, 60);
    assert_eq!(summary.days_worked, 1);
}

#[test]
fn prefix_matching_is_exact() {
    assert!(has_prefix(&"2024-01-15".to_string(), &"2024-01".to_string()));
    assert!(!has_prefix(&"2023-12-31".to_string(), &"2024-01".to_string()));
    assert!(!has_prefix(&"2024".to_string(), &"2024-01".to_string()));
    assert!(has_prefix(&"2024-01".to_string(), &"2024-01".to_string()));
}

#[test]
fn the_current_week_has_seven_distinct_dates() {
    let week = current_week_dates();
    assert_eq!(week.len(), 7);
    for i in 0..week.len() {
        assert!(week[i].len() >= 10);
        for j in 0..i {
            assert_ne!(week[i], week[j]);
        }
    }
}

#[test]
fn todays_record_is_found_after_an_upsert_for_today() {
    let mut store = vec![rec("1999-12-31", Some(1))];
    let mut today_rec = DailyRecord::new();
    let (stamp_date, stamp_time) = today_rec.start_shift_now();
    assert_eq!(today_rec.date, Some(stamp_date.clone()));
    assert_eq!(today_rec.start_time, Some(stamp_time.clone()));
    assert!(parse_time_of_day(&stamp_time).is_some());
    let keyed = upsert_today(&mut store, today_rec);
    assert_eq!(keyed, stamp_date);
    assert_eq!(store.len(), 2);
    let (today, pos) = find_todays_record(&store);
    assert_eq!(today, stamp_date);
    assert_eq!(pos, Some(1));
}
