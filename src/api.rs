//! The attendance endpoints of the application's API, and what their
//! responses mean.
use vstd::prelude::*;

use crate::text::{chars_of, concat, equal_text, find, first_occurrence_from, owned, pieces, split, string_of};

verus! {

/// The endpoints of the application's API.
#[derive(Clone, Copy, Debug, PartialEq, Eq, Structural)]
pub enum ApiEndpoint {
    BreakStart,
    BreakEnd,
    ClockIn,
    ClockOut,
    Shifts,
    Leaves,
    Holidays,
    Companies,
    Employees,
    Contracts,
    Periods,
}

/// The application's API host.
pub open spec fn api_base() -> Seq<char> {
    "https://api.factorialhr.com"@
}

/// The path of each endpoint below the API host.
pub open spec fn endpoint_path(e: ApiEndpoint) -> Seq<char> {
    match e {
        ApiEndpoint::Periods => "/attendance/periods/"@,
        ApiEndpoint::Shifts => "/attendance/shifts/"@,
        ApiEndpoint::BreakStart => "/attendance/shifts/break_start/"@,
        ApiEndpoint::BreakEnd => "/attendance/shifts/break_end/"@,
        ApiEndpoint::ClockIn => "/attendance/shifts/clock_in/"@,
        ApiEndpoint::ClockOut => "/attendance/shifts/clock_out/"@,
        ApiEndpoint::Leaves => "/leaves/"@,
        ApiEndpoint::Holidays => "/company_holidays/"@,
        ApiEndpoint::Companies => "/companies/"@,
        ApiEndpoint::Employees => "/employees/"@,
        ApiEndpoint::Contracts => "/contracts/contract_version/"@,
    }
}

fn path_of(e: ApiEndpoint) -> (r: &'static str)
    ensures
        r@ == endpoint_path(e),
{
    match e {
        ApiEndpoint::Periods => "/attendance/periods/",
        ApiEndpoint::Shifts => "/attendance/shifts/",
        ApiEndpoint::BreakStart => "/attendance/shifts/break_start/",
        ApiEndpoint::BreakEnd => "/attendance/shifts/break_end/",
        ApiEndpoint::ClockIn => "/attendance/shifts/clock_in/",
        ApiEndpoint::ClockOut => "/attendance/shifts/clock_out/",
        ApiEndpoint::Leaves => "/leaves/",
        ApiEndpoint::Holidays => "/company_holidays/",
        ApiEndpoint::Companies => "/companies/",
        ApiEndpoint::Employees => "/employees/",
        ApiEndpoint::Contracts => "/contracts/contract_version/",
    }
}

impl ApiEndpoint {
    /// The full URL of the endpoint.
    pub fn url(&self) -> (r: String)
        ensures
            r@ == api_base() + endpoint_path(*self),
    {
        concat("https://api.factorialhr.com", path_of(*self))
    }
}

/// The URL that deletes the shift `id`.
pub fn shift_url(id: &str) -> (r: String)
    ensures
        r@ == api_base() + endpoint_path(ApiEndpoint::Shifts) + id@,
{
    let base = ApiEndpoint::Shifts.url();
    concat(base.as_str(), id)
}

/// Why an attendance action was refused.
#[derive(Clone, Copy, Debug, PartialEq, Eq, Structural)]
pub enum AttendanceError {
    /// A shift is already open.
    ShiftAlreadyOpen,
    /// The shift could not be opened.
    ShiftNotOpened,
    /// No open shift could be closed.
    ShiftNotClosed,
    /// A break is already running, or no shift is open to take one from.
    BreakConflict,
    /// The break could not be started.
    BreakNotStarted,
    /// No running break could be ended.
    BreakNotEnded,
    /// The shift or break record was rejected, for instance as overlapping.
    RecordNotCreated,
    /// A shift could not be deleted.
    NotDeleted,
}

pub const CREATED: u16 = 201;
pub const OK: u16 = 200;
pub const NO_CONTENT: u16 = 204;
pub const CONFLICT: u16 = 409;

/// What the status of a clock-in answer means.
pub fn clock_in_outcome(status: u16) -> (r: Result<(), AttendanceError>)
    ensures
        status == CREATED <==> r is Ok,
        status == CONFLICT <==> r == Err::<(), AttendanceError>(AttendanceError::ShiftAlreadyOpen),
        status != CREATED && status != CONFLICT <==> r == Err::<(), AttendanceError>(AttendanceError::ShiftNotOpened),
{
    if status == CREATED {
        Ok(())
    } else if status == CONFLICT {
        Err(AttendanceError::ShiftAlreadyOpen)
    } else {
        Err(AttendanceError::ShiftNotOpened)
    }
}

/// What the status of a clock-out answer means.
pub fn clock_out_outcome(status: u16) -> (r: Result<(), AttendanceError>)
    ensures
        status == OK <==> r is Ok,
        status != OK <==> r == Err::<(), AttendanceError>(AttendanceError::ShiftNotClosed),
{
    if status == OK {
        Ok(())
    } else {
        Err(AttendanceError::ShiftNotClosed)
    }
}

/// What the status of a break-start answer means.
pub fn break_start_outcome(status: u16) -> (r: Result<(), AttendanceError>)
    ensures
        status == CREATED <==> r is Ok,
        status == CONFLICT <==> r == Err::<(), AttendanceError>(AttendanceError::BreakConflict),
        status != CREATED && status != CONFLICT <==> r == Err::<(), AttendanceError>(AttendanceError::BreakNotStarted),
{
    if status == CREATED {
        Ok(())
    } else if status == CONFLICT {
        Err(AttendanceError::BreakConflict)
    } else {
        Err(AttendanceError::BreakNotStarted)
    }
}

/// What the status of a break-end answer means.
pub fn break_end_outcome(status: u16) -> (r: Result<(), AttendanceError>)
    ensures
        status == OK <==> r is Ok,
        status != OK <==> r == Err::<(), AttendanceError>(AttendanceError::BreakNotEnded),
{
    if status == OK {
        Ok(())
    } else {
        Err(AttendanceError::BreakNotEnded)
    }
}

/// What the status of an answer to a new shift or break record means.
pub fn record_outcome(status: u16) -> (r: Result<(), AttendanceError>)
    ensures
        status == CREATED <==> r is Ok,
        status != CREATED <==> r == Err::<(), AttendanceError>(AttendanceError::RecordNotCreated),
{
    if status == CREATED {
        Ok(())
    } else {
        Err(AttendanceError::RecordNotCreated)
    }
}

/// What the status of an answer to a deletion means.
pub fn delete_outcome(status: u16) -> (r: Result<(), AttendanceError>)
    ensures
        status == NO_CONTENT <==> r is Ok,
        status != NO_CONTENT <==> r == Err::<(), AttendanceError>(AttendanceError::NotDeleted),
{
    if status == NO_CONTENT {
        Ok(())
    } else {
        Err(AttendanceError::NotDeleted)
    }
}

/// The fields of the body of a clock-in, clock-out or break request.
pub open spec fn attendance_fields(now: Seq<char>, location_type: Seq<char>) -> Seq<(Seq<char>, Seq<char>)> {
    seq![("now"@, now), ("location_type"@, location_type), ("source"@, "desktop"@)]
}

/// The body of a clock-in, clock-out or break request: the time of the
/// action (RFC 3339), where the work happens, and the client's source tag.
pub fn attendance_body(now: &str, location_type: &str) -> (r: Vec<(String, String)>)
    ensures
        r.deep_view() == attendance_fields(now@, location_type@),
{
    let mut r: Vec<(String, String)> = Vec::new();
    r.push((owned("now"), owned(now)));
    r.push((owned("location_type"), owned(location_type)));
    r.push((owned("source"), owned("desktop")));
    assert(r.deep_view() =~= attendance_fields(now@, location_type@));
    r
}

/// A shift or break record to create: times as `HH:MM`, the date as
/// `YYYY-mm-dd` and its day of the month, where the work happens, the
/// attendance period, and whether the time counts as work.
#[derive(Clone, Debug)]
pub struct ShiftRecord {
    pub clock_in: String,
    pub clock_out: String,
    pub date: String,
    pub day: u32,
    pub location_type: String,
    pub minutes: Option<u64>,
    pub period_id: u64,
    pub source: String,
    pub time_settings_break_configuration_id: Option<u64>,
    pub workable: bool,
}

/// The record of a shift, or of a break when `is_break` holds, from the given
/// values; it comes from the desktop client and leaves the length in minutes
/// and the break configuration to the application.
pub fn shift_record(
    clock_in: &str,
    clock_out: &str,
    date: &str,
    day: u32,
    location_type: &str,
    period_id: u64,
    is_break: bool,
) -> (r: ShiftRecord)
    ensures
        r.clock_in@ == clock_in@,
        r.clock_out@ == clock_out@,
        r.date@ == date@,
        r.day == day,
        r.location_type@ == location_type@,
        r.minutes is None,
        r.period_id == period_id,
        r.source@ == "desktop"@,
        r.time_settings_break_configuration_id is None,
        r.workable == !is_break,
{
    ShiftRecord {
        clock_in: owned(clock_in),
        clock_out: owned(clock_out),
        date: owned(date),
        day,
        location_type: owned(location_type),
        minutes: None,
        period_id,
        source: owned("desktop"),
        time_settings_break_configuration_id: None,
        workable: !is_break,
    }
}

/// The ids, in order, of the shifts in `shifts` (pairs of day of month and
/// id) that fall on `day`.
pub open spec fn ids_on_day(shifts: Seq<(u32, Seq<char>)>, day: u32) -> Seq<Seq<char>>
    decreases shifts.len(),
{
    if shifts.len() == 0 {
        seq![]
    } else {
        let rest = ids_on_day(shifts.drop_last(), day);
        if shifts.last().0 == day {
            rest.push(shifts.last().1)
        } else {
            rest
        }
    }
}

/// The ids of the listed shifts (day of month, id) that fall on `day`: those
/// to delete when a day is cleared.
pub fn shift_ids_on_day(shifts: &Vec<(u32, String)>, day: u32) -> (r: Vec<String>)
    ensures
        r.deep_view() == ids_on_day(shifts.deep_view(), day),
{
    let mut r: Vec<String> = Vec::new();
    let mut i: usize = 0;
    while i < shifts.len()
        invariant
            i <= shifts@.len(),
            r.deep_view() == ids_on_day(shifts.deep_view().take(i as int), day),
        decreases shifts@.len() - i,
    {
        let ghost before = r.deep_view();
        assert(shifts.deep_view().take(i + 1).drop_last() =~= shifts.deep_view().take(i as int));
        if shifts[i].0 == day {
            r.push(shifts[i].1.clone());
            assert(r.deep_view() =~= before.push(shifts[i as int].1@));
        }
        i = i + 1;
    }
    assert(shifts.deep_view().take(i as int) =~= shifts.deep_view());
    r
}


// ---------------------------------------------------------------------------
// Who the user is
// ---------------------------------------------------------------------------

/// What precedes the user's access id in the application's data cookie
/// (`access_id":`, percent-encoded).
pub open spec fn access_id_marker() -> Seq<char> {
    "access_id%22%3A"@
}

/// The access id in one cookie value: what follows the first marker, up to
/// the next `%`.
pub open spec fn access_id_in(v: Seq<char>) -> Option<Seq<char>> {
    match first_occurrence_from(v, access_id_marker(), 0) {
        Some(i) => {
            let rest = v.skip(i + access_id_marker().len());
            match first_occurrence_from(rest, seq!['%'], 0) {
                Some(j) => Some(rest.take(j)),
                None => None,
            }
        },
        None => None,
    }
}

/// The access id in the last of `cookies` that carries one.
pub open spec fn access_id_of(cookies: Seq<Seq<char>>) -> Option<Seq<char>>
    decreases cookies.len(),
{
    if cookies.len() == 0 {
        None
    } else {
        match access_id_in(cookies.last()) {
            Some(a) => Some(a),
            None => access_id_of(cookies.drop_last()),
        }
    }
}

fn tail_of(v: &Vec<char>, from: usize) -> (r: Vec<char>)
    requires
        from <= v@.len(),
    ensures
        r@ == v@.skip(from as int),
{
    let mut r: Vec<char> = Vec::new();
    let mut i: usize = from;
    while i < v.len()
        invariant
            from <= i <= v@.len(),
            r@ == v@.subrange(from as int, i as int),
        decreases v@.len() - i,
    {
        r.push(v[i]);
        assert(r@ =~= v@.subrange(from as int, i + 1));
        i = i + 1;
    }
    assert(r@ =~= v@.skip(from as int));
    r
}

fn access_id_in_value(v: &str) -> (r: Option<String>)
    ensures
        r.deep_view() == access_id_in(v@),
{
    let cs = chars_of(v);
    let marker = chars_of("access_id%22%3A");
    let cl = cs.len();
    match find(&cs, &marker) {
        Some(i) => {
            assert(i + marker@.len() <= cl);
            let rest = tail_of(&cs, i + marker.len());
            let mut pct: Vec<char> = Vec::new();
            pct.push('%');
            assert(pct@ =~= seq!['%']);
            match find(&rest, &pct) {
                Some(j) => Some(string_of(&rest, 0, j)),
                None => None,
            }
        },
        None => None,
    }
}

/// The user's access id, read from the cookie values the application set: the
/// one in the last cookie that carries it.
pub fn access_id_from_cookies(values: &Vec<String>) -> (r: Option<String>)
    ensures
        r.deep_view() == access_id_of(values.deep_view()),
{
    let mut found: Option<String> = None;
    let mut i: usize = 0;
    assert(values.deep_view().take(0) =~= Seq::<Seq<char>>::empty());
    while i < values.len()
        invariant
            i <= values@.len(),
            found.deep_view() == access_id_of(values.deep_view().take(i as int)),
        decreases values@.len() - i,
    {
        assert(values.deep_view().take(i + 1).drop_last() =~= values.deep_view().take(i as int));
        assert(values.deep_view().take(i + 1).last() == values@[i as int]@);
        match access_id_in_value(values[i].as_str()) {
            Some(a) => {
                found = Some(a);
            },
            None => {},
        }
        i = i + 1;
    }
    assert(values.deep_view().take(i as int) =~= values.deep_view());
    found
}

/// The id of the last employee (access id, id) whose access id is `access`.
pub open spec fn user_id_in(employees: Seq<(Seq<char>, Seq<char>)>, access: Seq<char>) -> Option<Seq<char>>
    decreases employees.len(),
{
    if employees.len() == 0 {
        None
    } else if employees.last().0 == access {
        Some(employees.last().1)
    } else {
        user_id_in(employees.drop_last(), access)
    }
}

/// The user's employee id: that of the last listed employee (access id, id)
/// with the user's access id.
pub fn user_id_for(employees: &Vec<(String, String)>, access: &str) -> (r: Option<String>)
    ensures
        r.deep_view() == user_id_in(employees.deep_view(), access@),
{
    let mut found: Option<String> = None;
    let mut i: usize = 0;
    assert(employees.deep_view().take(0) =~= Seq::<(Seq<char>, Seq<char>)>::empty());
    while i < employees.len()
        invariant
            i <= employees@.len(),
            found.deep_view() == user_id_in(employees.deep_view().take(i as int), access@),
        decreases employees@.len() - i,
    {
        assert(employees.deep_view().take(i + 1).drop_last() =~= employees.deep_view().take(i as int));
        assert(employees.deep_view().take(i + 1).last() == employees.deep_view()[i as int]);
        if equal_text(employees[i].0.as_str(), access) {
            found = Some(employees[i].1.clone());
        }
        i = i + 1;
    }
    assert(employees.deep_view().take(i as int) =~= employees.deep_view());
    found
}

/// The working days named in a contract's comma-separated list.
pub fn working_day_names(list: &str) -> (r: Vec<String>)
    ensures
        r.deep_view() == pieces(list@, ','),
{
    split(list, ',')
}

} // verus!
