use tracktorial::api::{
    access_id_from_cookies, attendance_body, break_end_outcome, break_start_outcome,
    clock_in_outcome, clock_out_outcome, delete_outcome, record_outcome, shift_ids_on_day,
    shift_record, shift_url, user_id_for, working_day_names, ApiEndpoint, AttendanceError,
};

#[test]
fn api_test_starting_shift() {
    let result = clock_in_outcome(201);
    assert_eq!(true, result.is_ok());
}

#[test]
fn login_test_starting_shift() {
    let result = clock_in_outcome(201);
    assert_eq!(true, result.is_ok());
}

#[test]
fn cannot_clock_in_if_already_clocked_in() {
    let result = clock_in_outcome(409);
    assert_eq!(true, result.is_err());
    assert_eq!(result, Err(AttendanceError::ShiftAlreadyOpen));
}

#[test]
fn clock_in_with_other_status_fails() {
    assert_eq!(clock_in_outcome(200), Err(AttendanceError::ShiftNotOpened));
    assert_eq!(clock_in_outcome(500), Err(AttendanceError::ShiftNotOpened));
}

#[test]
fn starting_break() {
    let result = break_start_outcome(201);
    assert_eq!(true, result.is_ok());
}

#[test]
fn cannot_start_break_if_not_clocked_in() {
    let result = break_start_outcome(409);
    assert_eq!(true, result.is_err());
}

#[test]
fn cannot_start_break_if_already_on_break() {
    let result = break_start_outcome(409);
    assert_eq!(true, result.is_err());
    assert_eq!(result, Err(AttendanceError::BreakConflict));
    assert_eq!(break_start_outcome(422), Err(AttendanceError::BreakNotStarted));
}

#[test]
fn ending_break() {
    let result = break_end_outcome(200);
    assert_eq!(true, result.is_ok());
}

#[test]
fn cannot_end_break_if_not_on_break() {
    let result = break_end_outcome(422);
    assert_eq!(true, result.is_err());
    assert_eq!(result, Err(AttendanceError::BreakNotEnded));
}

#[test]
fn ending_shift() {
    let result = clock_out_outcome(200);
    assert_eq!(true, result.is_ok());
    assert_eq!(clock_out_outcome(201), Err(AttendanceError::ShiftNotClosed));
}

#[test]
fn create_shift() {
    let result = record_outcome(201);
    assert_eq!(true, result.is_ok());
}

#[test]
fn create_break() {
    let result = record_outcome(201);
    assert_eq!(true, result.is_ok());
    assert_eq!(record_outcome(409), Err(AttendanceError::RecordNotCreated));
}

#[test]
fn deleting_needs_no_content() {
    assert_eq!(delete_outcome(204), Ok(()));
    assert_eq!(delete_outcome(200), Err(AttendanceError::NotDeleted));
}

#[test]
fn endpoint_urls() {
    assert_eq!(ApiEndpoint::ClockIn.url(), "https://api.factorialhr.com/attendance/shifts/clock_in/");
    assert_eq!(ApiEndpoint::ClockOut.url(), "https://api.factorialhr.com/attendance/shifts/clock_out/");
    assert_eq!(
        ApiEndpoint::BreakStart.url(),
        "https://api.factorialhr.com/attendance/shifts/break_start/"
    );
    assert_eq!(ApiEndpoint::BreakEnd.url(), "https://api.factorialhr.com/attendance/shifts/break_end/");
    assert_eq!(ApiEndpoint::Shifts.url(), "https://api.factorialhr.com/attendance/shifts/");
    assert_eq!(ApiEndpoint::Periods.url(), "https://api.factorialhr.com/attendance/periods/");
    assert_eq!(ApiEndpoint::Leaves.url(), "https://api.factorialhr.com/leaves/");
    assert_eq!(ApiEndpoint::Holidays.url(), "https://api.factorialhr.com/company_holidays/");
    assert_eq!(ApiEndpoint::Companies.url(), "https://api.factorialhr.com/companies/");
    assert_eq!(ApiEndpoint::Employees.url(), "https://api.factorialhr.com/employees/");
    assert_eq!(
        ApiEndpoint::Contracts.url(),
        "https://api.factorialhr.com/contracts/contract_version/"
    );
}

#[test]
fn shift_url_appends_the_id() {
    assert_eq!(shift_url("42"), "https://api.factorialhr.com/attendance/shifts/42");
}

#[test]
fn attendance_body_fields() {
    let body = attendance_body("2024-01-07T08:00:00+01:00", "home");
    assert_eq!(
        body,
        vec![
            ("now".to_string(), "2024-01-07T08:00:00+01:00".to_string()),
            ("location_type".to_string(), "home".to_string()),
            ("source".to_string(), "desktop".to_string()),
        ]
    );
}

#[test]
fn shifts_of_a_day_are_selected_in_order() {
    let shifts = vec![
        (7, "1".to_string()),
        (8, "2".to_string()),
        (7, "3".to_string()),
    ];
    assert_eq!(shift_ids_on_day(&shifts, 7), vec!["1".to_string(), "3".to_string()]);
    assert_eq!(shift_ids_on_day(&shifts, 8), vec!["2".to_string()]);
    assert!(shift_ids_on_day(&shifts, 9).is_empty());
    assert!(shift_ids_on_day(&Vec::new(), 7).is_empty());
}

#[test]
fn access_id_is_read_from_the_data_cookie() {
    let cookies = vec![
        "abc".to_string(),
        "%7B%22access_id%22%3A12345%2C%22company%22%3A7%7D".to_string(),
        "other".to_string(),
    ];
    assert_eq!(access_id_from_cookies(&cookies), Some("12345".to_string()));
    assert_eq!(access_id_from_cookies(&vec!["none".to_string()]), None);
    assert_eq!(access_id_from_cookies(&vec!["access_id%22%3A99".to_string()]), None);
    let two = vec![
        "access_id%22%3A1%2C".to_string(),
        "access_id%22%3A2%2C".to_string(),
    ];
    assert_eq!(access_id_from_cookies(&two), Some("2".to_string()));
}

#[test]
fn user_id_is_that_of_the_matching_employee() {
    let employees = vec![
        ("11".to_string(), "100".to_string()),
        ("12345".to_string(), "200".to_string()),
        ("13".to_string(), "300".to_string()),
    ];
    assert_eq!(user_id_for(&employees, "12345"), Some("200".to_string()));
    assert_eq!(user_id_for(&employees, "1234"), None);
}

#[test]
fn working_day_names_are_split_at_commas() {
    assert_eq!(
        working_day_names("mon,tue,wed"),
        vec!["mon".to_string(), "tue".to_string(), "wed".to_string()]
    );
    assert_eq!(working_day_names(""), vec![String::new()]);
    assert_eq!(working_day_names("a,,b,"), vec!["a".to_string(), String::new(), "b".to_string(), String::new()]);
}

#[test]
fn shift_records_mark_breaks_as_not_workable() {
    let shift = shift_record("08:00", "12:00", "2024-01-07", 7, "office", 55, false);
    assert_eq!(shift.clock_in, "08:00");
    assert_eq!(shift.clock_out, "12:00");
    assert_eq!(shift.date, "2024-01-07");
    assert_eq!(shift.day, 7);
    assert_eq!(shift.location_type, "office");
    assert_eq!(shift.period_id, 55);
    assert_eq!(shift.source, "desktop");
    assert_eq!(shift.minutes, None);
    assert_eq!(shift.time_settings_break_configuration_id, None);
    assert!(shift.workable);
    let pause = shift_record("12:00", "12:30", "2024-01-07", 7, "home", 55, true);
    assert!(!pause.workable);
    assert_eq!(pause.location_type, "home");
}
