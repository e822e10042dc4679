use chrono::{Datelike, Timelike};
use tracktorial::time::{
    fits_plan, get_break_duration, get_free_days, half_day_of, parse_date, parse_duration,
    parse_time_of_day, weekdays_of, working_days_between, FreeDay, HalfDay, WorkDay,
};

fn secs(d: chrono::Duration) -> i64 {
    d.num_seconds()
}

#[test]
fn time_parse_as_hms() {
    let parsed_time = parse_time_of_day("18:30:45").unwrap();
    let naive_time = chrono::NaiveTime::from_hms_opt(18, 30, 45).unwrap();
    assert_eq!(naive_time.num_seconds_from_midnight(), parsed_time);
}

#[test]
fn time_parse_as_hm() {
    let parsed_time = parse_time_of_day("18:30").unwrap();
    let naive_time = chrono::NaiveTime::from_hms_opt(18, 30, 0).unwrap();
    assert_eq!(naive_time.num_seconds_from_midnight(), parsed_time);
}

#[test]
fn time_parse_as_h() {
    let parsed_time = parse_time_of_day("18").unwrap();
    let naive_time = chrono::NaiveTime::from_hms_opt(18, 0, 0).unwrap();
    assert_eq!(naive_time.num_seconds_from_midnight(), parsed_time);
}

#[test]
fn time_of_day_rejects_other_text() {
    assert_eq!(parse_time_of_day("25:00"), None);
    assert_eq!(parse_time_of_day("noon"), None);
}

#[test]
fn date_parse_as_ddmmyyyy() {
    let parsed_date = parse_date("01.01.2024").unwrap();
    let first_jan = chrono::NaiveDate::from_ymd_opt(2024, 1, 1).unwrap();
    assert_eq!(first_jan.num_days_from_ce() as u32, parsed_date);
}

#[test]
fn date_parse_as_yyyymmdd() {
    let parsed_date = parse_date("2024-01-01").unwrap();
    let first_jan = chrono::NaiveDate::from_ymd_opt(2024, 1, 1).unwrap();
    assert_eq!(first_jan.num_days_from_ce() as u32, parsed_date);
}

#[test]
fn date_parse_rejects_other_text() {
    assert_eq!(parse_date("2024/01/01"), None);
    assert_eq!(parse_date("31.02.2024"), None);
}

#[test]
fn duration_parse_as_hms() {
    let parsed_duration = parse_duration("2h32m45s").unwrap();
    let duration =
        chrono::Duration::hours(2) + chrono::Duration::minutes(32) + chrono::Duration::seconds(45);
    assert_eq!(secs(duration), parsed_duration);
}

#[test]
fn duration_parse_as_hm() {
    let parsed_duration = parse_duration("2h32m").unwrap();
    let duration = chrono::Duration::hours(2) + chrono::Duration::minutes(32);
    assert_eq!(secs(duration), parsed_duration);
}

#[test]
fn duration_parse_as_h() {
    let parsed_duration = parse_duration("2h").unwrap();
    let duration = chrono::Duration::hours(2);
    assert_eq!(secs(duration), parsed_duration);
}

#[test]
fn duration_parse_as_m() {
    let parsed_duration = parse_duration("30m").unwrap();
    let duration = chrono::Duration::minutes(30);
    assert_eq!(secs(duration), parsed_duration);
}

#[test]
fn duration_as_m_cannot_overflow_into_h() {
    let parsed_duration = parse_duration("120m");
    assert!(parsed_duration.is_none());
}

#[test]
fn no_break_if_working_less_than_six_h() {
    let break_duration = get_break_duration(parse_duration("5h59m").unwrap());
    assert_eq!(secs(chrono::Duration::minutes(0)), break_duration);
}

#[test]
fn thirty_min_break_if_working_more_than_six_h() {
    let break_duration = get_break_duration(parse_duration("6h").unwrap());
    assert_eq!(secs(chrono::Duration::minutes(30)), break_duration);
    let break_duration = get_break_duration(parse_duration("8h59m").unwrap());
    assert_eq!(secs(chrono::Duration::minutes(30)), break_duration);
}

#[test]
fn thirty_min_break_if_working_more_than_nine_h() {
    let break_duration = get_break_duration(parse_duration("9h").unwrap());
    assert_eq!(secs(chrono::Duration::minutes(45)), break_duration);
}

#[test]
fn no_break_for_negative_durations() {
    assert_eq!(get_break_duration(-10 * 3600), 0);
    assert_eq!(get_break_duration(i64::MIN), 0);
    assert_eq!(get_break_duration(i64::MAX), 2700);
}

#[test]
fn half_days_of_holidays() {
    assert_eq!(half_day_of(None), HalfDay::WholeDay);
    assert_eq!(half_day_of(Some("end_of_day")), HalfDay::EndOfDay);
    assert_eq!(half_day_of(Some("beginning_of_day")), HalfDay::StartOfDay);
    assert_eq!(half_day_of(Some("")), HalfDay::StartOfDay);
}

#[test]
fn standard_shift_splits_the_work_around_the_break() {
    let start = 1_704_614_400;
    let w = WorkDay::standard_shift(start, 8 * 3600);
    assert_eq!(w.clock_in, start);
    assert_eq!(w.break_start, start + 4 * 3600);
    assert_eq!(w.break_end, start + 4 * 3600 + 1800);
    assert_eq!(w.clock_out, start + 8 * 3600 + 1800);
}

#[test]
fn standard_shift_rounds_halves_toward_zero() {
    let w = WorkDay::standard_shift(0, 3);
    assert_eq!(w, WorkDay { clock_in: 0, break_start: 1, break_end: 1, clock_out: 3 });
    let w = WorkDay::standard_shift(100, -3);
    assert_eq!(w, WorkDay { clock_in: 100, break_start: 99, break_end: 99, clock_out: 97 });
}

#[test]
fn shifted_shift_moves_start_and_break() {
    let w = WorkDay::shifted_shift(1000, 10 * 3600, -60, 120);
    assert_eq!(w.clock_in, 940);
    assert_eq!(w.break_start, 940 + 5 * 3600 + 120);
    assert_eq!(w.break_end, 940 + 5 * 3600 + 120 + 2700);
    assert_eq!(w.clock_out, 940 + 10 * 3600 + 2700);
}

#[test]
fn randomized_shift_stays_in_range() {
    let start = 1_704_614_400;
    for _ in 0..20 {
        let w = WorkDay::randomize_shift(start, 8 * 3600, 15).unwrap();
        assert!((w.clock_in - start).abs() <= 15 * 60);
        assert_eq!(w.break_end - w.break_start, 1800);
        assert_eq!(w.clock_out - w.clock_in, 8 * 3600 + 1800);
        let first = w.break_start - w.clock_in;
        assert!((first - 4 * 3600).abs() <= 15 * 60);
    }
    let w = WorkDay::randomize_shift(start, 3600, 0).unwrap();
    assert_eq!(w, WorkDay::standard_shift(start, 3600));
}

#[test]
fn plans_that_overflow_do_not_fit() {
    assert!(fits_plan(0, 3600, 0, 0));
    assert!(!fits_plan(i64::MAX, 3600, 0, 0));
    assert!(!fits_plan(i64::MIN, 0, -1, 0));
    assert!(WorkDay::randomize_shift(i64::MAX, 3600, 10).is_none());
}

#[test]
fn weekday_names_are_read() {
    let names = vec!["mon".to_string(), "Tuesday".to_string(), "sun".to_string()];
    assert_eq!(weekdays_of(&names), Some(vec![0, 1, 6]));
    assert_eq!(weekdays_of(&vec!["mon".to_string(), "funday".to_string()]), None);
    assert_eq!(weekdays_of(&Vec::new()), Some(Vec::new()));
}

fn day(y: i32, m: u32, d: u32) -> u32 {
    chrono::NaiveDate::from_ymd_opt(y, m, d).unwrap().num_days_from_ce() as u32
}

#[test]
fn free_days_list_holidays_leaves_and_weekends() {
    // Monday 1 January 2024 to Sunday 14 January 2024; working Monday to Friday.
    let holidays = vec![FreeDay { day: day(2024, 1, 1), half: HalfDay::WholeDay }];
    let leaves = vec![(day(2024, 1, 3), day(2024, 1, 4))];
    let free = get_free_days(holidays, &leaves, day(2024, 1, 1), day(2024, 1, 14), &vec![0, 1, 2, 3, 4]);
    let days: Vec<u32> = free.iter().map(|f| f.day).collect();
    assert_eq!(
        days,
        vec![
            day(2024, 1, 1),
            day(2024, 1, 3),
            day(2024, 1, 4),
            day(2024, 1, 6),
            day(2024, 1, 7),
            day(2024, 1, 13),
            day(2024, 1, 14),
        ]
    );
    assert!(free.iter().all(|f| f.half == HalfDay::WholeDay));
}

#[test]
fn free_days_of_an_empty_range() {
    let free = get_free_days(Vec::new(), &vec![(5, 4)], 10, 9, &Vec::new());
    assert!(free.is_empty());
}

#[test]
fn working_days_skip_wholly_free_days() {
    let free = vec![
        FreeDay { day: 11, half: HalfDay::WholeDay },
        FreeDay { day: 12, half: HalfDay::EndOfDay },
        FreeDay { day: 14, half: HalfDay::StartOfDay },
        FreeDay { day: 14, half: HalfDay::WholeDay },
    ];
    assert_eq!(working_days_between(10, 15, &free), vec![10, 12, 13, 15]);
    assert_eq!(working_days_between(u32::MAX, u32::MAX, &Vec::new()), vec![u32::MAX]);
    assert!(working_days_between(3, 2, &free).is_empty());
}

#[test]
fn weekday_names_ignore_ascii_case() {
    let names = vec!["MONDAY".to_string(), "wEd".to_string(), "Saturday".to_string()];
    assert_eq!(weekdays_of(&names), Some(vec![0, 2, 5]));
    assert_eq!(weekdays_of(&vec!["mond".to_string()]), None);
    assert_eq!(weekdays_of(&vec!["mo".to_string()]), None);
}

#[test]
fn randomized_shift_without_range_is_the_standard_shift() {
    let start = 1_704_614_400;
    for duration in [0, 3600, 8 * 3600, 9 * 3600 + 1] {
        assert_eq!(
            WorkDay::randomize_shift(start, duration, 0),
            Some(WorkDay::standard_shift(start, duration))
        );
    }
}
