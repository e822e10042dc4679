//! Free days, mandatory breaks, the plan of a working day, and reading
//! durations, dates and times of day, all over plain numbers: times are
//! seconds since the epoch, durations are seconds, and days are numbered from
//! the start of the common era.
use chrono::{Datelike, Timelike};
use rand::Rng;
use vstd::prelude::*;

verus! {

/// The part of a day that is free.
#[derive(Clone, Copy, Debug, PartialEq, Eq, Structural)]
pub enum HalfDay {
    StartOfDay,
    EndOfDay,
    WholeDay,
}

/// The part of a company holiday that is free, from its `half_day` entry:
/// none means the whole day, `end_of_day` the end of it, anything else the
/// start.
pub fn half_day_of(half_day: Option<&str>) -> (r: HalfDay)
    ensures
        half_day is None ==> r == HalfDay::WholeDay,
        half_day matches Some(h) ==> (r == HalfDay::EndOfDay <==> h@ == "end_of_day"@),
        half_day matches Some(h) ==> (r == HalfDay::StartOfDay <==> h@ != "end_of_day"@),
{
    match half_day {
        None => HalfDay::WholeDay,
        Some(h) => {
            if crate::text::equal_text(h, "end_of_day") {
                HalfDay::EndOfDay
            } else {
                HalfDay::StartOfDay
            }
        },
    }
}

pub const SECS_PER_HOUR: i64 = 3600;
pub const SECS_PER_MINUTE: i64 = 60;

/// Whole hours in `secs`, rounded toward zero.
pub open spec fn whole_hours(secs: int) -> int {
    if secs >= 0 {
        secs / 3600
    } else {
        -((-secs) / 3600)
    }
}

/// The mandatory break, in seconds, for `work` seconds of work: thirty
/// minutes from six whole hours on, forty-five from nine.
pub open spec fn break_secs(work: int) -> int {
    if whole_hours(work) >= 9 {
        2700
    } else if whole_hours(work) >= 6 {
        1800
    } else {
        0
    }
}

/// The mandatory break for a working time, both in seconds.
pub fn get_break_duration(work_secs: i64) -> (r: i64)
    ensures
        r == break_secs(work_secs as int),
{
    if work_secs >= 9 * SECS_PER_HOUR {
        45 * SECS_PER_MINUTE
    } else if work_secs >= 6 * SECS_PER_HOUR {
        30 * SECS_PER_MINUTE
    } else {
        0
    }
}


/// Half of `d`, rounded toward zero.
pub open spec fn half(d: int) -> int {
    if d >= 0 {
        d / 2
    } else {
        -((-d) / 2)
    }
}

/// Whether `x` fits in an `i64`.
pub open spec fn fits(x: int) -> bool {
    i64::MIN <= x <= i64::MAX
}

/// The times of one working day, in seconds since the epoch.
#[derive(Clone, Copy, Debug, PartialEq, Eq, Structural)]
pub struct WorkDay {
    /// When to clock in.
    pub clock_in: i64,
    /// When to start the break.
    pub break_start: i64,
    /// When to end the break.
    pub break_end: i64,
    /// When to clock out.
    pub clock_out: i64,
}

/// The plan for `duration` seconds of work from `start`, with the start moved
/// by `start_offset` and the break by `break_offset`: the work before the
/// break is half the duration plus the break offset, the mandatory break
/// follows, and the rest of the duration after it.
pub open spec fn plan(start: int, duration: int, start_offset: int, break_offset: int) -> (int, int, int, int) {
    let clock_in = start + start_offset;
    let first = half(duration) + break_offset;
    let break_start = clock_in + first;
    let break_end = break_start + break_secs(duration);
    (clock_in, break_start, break_end, break_end + (duration - first))
}

/// Whether every time and length that the plan goes through fits in an `i64`.
pub open spec fn plan_fits(start: int, duration: int, start_offset: int, break_offset: int) -> bool {
    let p = plan(start, duration, start_offset, break_offset);
    &&& fits(start + start_offset)
    &&& fits(half(duration) + break_offset)
    &&& fits(duration - (half(duration) + break_offset))
    &&& fits(p.1)
    &&& fits(p.2)
    &&& fits(p.3)
}

fn half_of(d: i64) -> (r: i64)
    ensures
        r == half(d as int),
{
    if d >= 0 {
        d / 2
    } else if d == i64::MIN {
        i64::MIN / 2
    } else {
        -((-d) / 2)
    }
}

impl WorkDay {
    /// The plan with both times moved by the given offsets, in seconds.
    pub fn shifted_shift(start: i64, duration: i64, start_offset: i64, break_offset: i64) -> (r: WorkDay)
        requires
            plan_fits(start as int, duration as int, start_offset as int, break_offset as int),
        ensures
            (r.clock_in as int, r.break_start as int, r.break_end as int, r.clock_out as int) == plan(
                start as int,
                duration as int,
                start_offset as int,
                break_offset as int,
            ),
    {
        let clock_in = start + start_offset;
        let first = half_of(duration) + break_offset;
        let second = duration - first;
        let break_start = clock_in + first;
        let break_end = break_start + get_break_duration(duration);
        let clock_out = break_end + second;
        WorkDay { clock_in, break_start, break_end, clock_out }
    }

    /// The plan for `duration` seconds of work from `start`: half the work,
    /// the mandatory break, the other half.
    pub fn standard_shift(start: i64, duration: i64) -> (r: WorkDay)
        requires
            plan_fits(start as int, duration as int, 0, 0),
        ensures
            (r.clock_in as int, r.break_start as int, r.break_end as int, r.clock_out as int) == plan(
                start as int,
                duration as int,
                0,
                0,
            ),
    {
        WorkDay::shifted_shift(start, duration, 0, 0)
    }

    /// The plan with the start and the break each moved by a random offset of
    /// at most `max_rand_range` minutes either way; `None` exactly where the
    /// plan with the offsets drawn would not fit in the range of times.
    pub fn randomize_shift(start: i64, duration: i64, max_rand_range: u16) -> (r: Option<WorkDay>)
        ensures
            exists|so: int, bo: int|
                -60 * max_rand_range <= so <= 60 * max_rand_range && -60 * max_rand_range <= bo <= 60
                    * max_rand_range && (r is Some <==> #[trigger] plan_fits(
                    start as int,
                    duration as int,
                    so,
                    bo,
                )) && (r matches Some(w) ==> (
                    w.clock_in as int,
                    w.break_start as int,
                    w.break_end as int,
                    w.clock_out as int,
                ) == plan(start as int, duration as int, so, bo)),
    {
        let bound: i32 = max_rand_range as i32 * SECS_PER_MINUTE as i32;
        let start_offset = random_between(-bound, bound);
        let break_offset = random_between(-bound, bound);
        if fits_plan(start, duration, start_offset as i64, break_offset as i64) {
            Some(WorkDay::shifted_shift(start, duration, start_offset as i64, break_offset as i64))
        } else {
            None
        }
    }
}

/// Relies on rand's `thread_rng().gen_range` over a non-empty inclusive range:
/// a value between its bounds.
#[verifier::external_body]
fn random_between(low: i32, high: i32) -> (r: i32)
    requires
        low <= high,
    ensures
        low <= r <= high,
{
    rand::thread_rng().gen_range(low..=high)
}

fn add_fits(a: i64, b: i64) -> (r: Option<i64>)
    ensures
        r is Some <==> fits(a + b),
        r matches Some(x) ==> x == a + b,
{
    a.checked_add(b)
}

fn sub_fits(a: i64, b: i64) -> (r: Option<i64>)
    ensures
        r is Some <==> fits(a - b),
        r matches Some(x) ==> x == a - b,
{
    a.checked_sub(b)
}

/// Whether the plan fits, computed without overflow.
pub fn fits_plan(start: i64, duration: i64, start_offset: i64, break_offset: i64) -> (r: bool)
    ensures
        r == plan_fits(start as int, duration as int, start_offset as int, break_offset as int),
{
    let clock_in = match add_fits(start, start_offset) {
        Some(x) => x,
        None => return false,
    };
    let first = match add_fits(half_of(duration), break_offset) {
        Some(x) => x,
        None => return false,
    };
    let second = match sub_fits(duration, first) {
        Some(x) => x,
        None => return false,
    };
    let break_start = match add_fits(clock_in, first) {
        Some(x) => x,
        None => return false,
    };
    let break_end = match add_fits(break_start, get_break_duration(duration)) {
        Some(x) => x,
        None => return false,
    };
    add_fits(break_end, second).is_some()
}


// ---------------------------------------------------------------------------
// Free days
// ---------------------------------------------------------------------------

/// A day without work, or with half of it free. Days are numbered as chrono's
/// `num_days_from_ce` numbers them: 1 January of year 1 is day 1.
#[derive(Clone, Copy, Debug, PartialEq, Eq, Structural)]
pub struct FreeDay {
    /// The day.
    pub day: u32,
    /// The free part of it.
    pub half: HalfDay,
}

/// The weekday of day `d`, counted from Monday as 0 to Sunday as 6.
pub open spec fn weekday(d: int) -> int {
    (d + 6) % 7
}

/// Each day from `a` to `b`, inclusive, as a whole free day.
pub open spec fn whole_days(a: int, b: int) -> Seq<FreeDay>
    decreases b - a + 1,
{
    if a > b {
        seq![]
    } else {
        whole_days(a, b - 1).push(FreeDay { day: b as u32, half: HalfDay::WholeDay })
    }
}

/// Every day of every leave (first day, last day), in order.
pub open spec fn leave_days(leaves: Seq<(u32, u32)>) -> Seq<FreeDay>
    decreases leaves.len(),
{
    if leaves.len() == 0 {
        seq![]
    } else {
        leave_days(leaves.drop_last()) + whole_days(leaves.last().0 as int, leaves.last().1 as int)
    }
}

/// The days from `a` to `b` whose weekday is not among `work`, as whole free days.
pub open spec fn off_days(a: int, b: int, work: Seq<u8>) -> Seq<FreeDay>
    decreases b - a + 1,
{
    if a > b {
        seq![]
    } else {
        let r = off_days(a, b - 1, work);
        if work.contains(weekday(b) as u8) {
            r
        } else {
            r.push(FreeDay { day: b as u32, half: HalfDay::WholeDay })
        }
    }
}

fn weekday_of(d: u32) -> (r: u8)
    ensures
        r == weekday(d as int),
{
    ((d as u64 + 6) % 7) as u8
}

fn contains_u8(v: &Vec<u8>, x: u8) -> (r: bool)
    ensures
        r == v@.contains(x),
{
    let mut i: usize = 0;
    while i < v.len()
        invariant
            i <= v@.len(),
            forall|j: int| 0 <= j < i ==> v@[j] != x,
        decreases v@.len() - i,
    {
        if v[i] == x {
            return true;
        }
        i = i + 1;
    }
    false
}

/// Appends every day from `a` to `b`, inclusive, as a whole free day.
fn push_whole_days(out: &mut Vec<FreeDay>, a: u32, b: u32)
    ensures
        final(out)@ == old(out)@ + whole_days(a as int, b as int),
{
    if a > b {
        assert(whole_days(a as int, b as int) =~= seq![]);
        assert(out@ =~= old(out)@ + whole_days(a as int, b as int));
        return;
    }
    let mut d: u32 = a;
    assert(whole_days(a as int, a - 1) =~= seq![]);
    assert(out@ =~= old(out)@ + whole_days(a as int, a - 1));
    loop
        invariant
            a <= d <= b,
            out@ == old(out)@ + whole_days(a as int, d - 1),
        decreases b - d,
    {
        out.push(FreeDay { day: d, half: HalfDay::WholeDay });
        assert(out@ =~= old(out)@ + whole_days(a as int, d as int));
        if d == b {
            return;
        }
        d = d + 1;
    }
}

/// The free days between `from` and `to`: the company holidays as given, then
/// every day of each leave (first day, last day), then each day from `from`
/// to `to` whose weekday (Monday 0 to Sunday 6) is not a working day.
pub fn get_free_days(
    holidays: Vec<FreeDay>,
    leaves: &Vec<(u32, u32)>,
    from: u32,
    to: u32,
    working_days: &Vec<u8>,
) -> (r: Vec<FreeDay>)
    ensures
        r@ == holidays@ + leave_days(leaves@) + off_days(from as int, to as int, working_days@),
{
    let mut out = holidays;
    let mut i: usize = 0;
    assert(leaves@.take(0) =~= seq![]);
    assert(out@ =~= holidays@ + leave_days(leaves@.take(0)));
    while i < leaves.len()
        invariant
            i <= leaves@.len(),
            out@ == holidays@ + leave_days(leaves@.take(i as int)),
        decreases leaves@.len() - i,
    {
        let (a, b) = leaves[i];
        push_whole_days(&mut out, a, b);
        assert(leaves@.take(i + 1).drop_last() =~= leaves@.take(i as int));
        assert(out@ =~= holidays@ + leave_days(leaves@.take(i + 1)));
        i = i + 1;
    }
    assert(leaves@.take(i as int) =~= leaves@);
    let ghost base = out@;
    if from > to {
        assert(off_days(from as int, to as int, working_days@) =~= seq![]);
        assert(out@ =~= base + off_days(from as int, to as int, working_days@));
        return out;
    }
    let mut d: u32 = from;
    assert(off_days(from as int, from - 1, working_days@) =~= seq![]);
    assert(out@ =~= base + off_days(from as int, d - 1, working_days@));
    loop
        invariant
            from <= d <= to,
            out@ == base + off_days(from as int, d - 1, working_days@),
            base == holidays@ + leave_days(leaves@),
        decreases to - d,
    {
        if !contains_u8(working_days, weekday_of(d)) {
            out.push(FreeDay { day: d, half: HalfDay::WholeDay });
        }
        assert(out@ =~= base + off_days(from as int, d as int, working_days@));
        if d == to {
            return out;
        }
        d = d + 1;
    }
}

/// Whether `free` marks day `d` as wholly free.
pub open spec fn wholly_free(free: Seq<FreeDay>, d: int) -> bool {
    exists|i: int| 0 <= i < free.len() && free[i].day == d && free[i].half == HalfDay::WholeDay
}

/// The days from `a` to `b` that `free` does not mark as wholly free.
pub open spec fn days_to_work(a: int, b: int, free: Seq<FreeDay>) -> Seq<u32>
    decreases b - a + 1,
{
    if a > b {
        seq![]
    } else {
        let r = days_to_work(a, b - 1, free);
        if wholly_free(free, b) {
            r
        } else {
            r.push(b as u32)
        }
    }
}

fn is_wholly_free(free: &Vec<FreeDay>, d: u32) -> (r: bool)
    ensures
        r == wholly_free(free@, d as int),
{
    let mut i: usize = 0;
    while i < free.len()
        invariant
            i <= free@.len(),
            forall|j: int| 0 <= j < i ==> !(free@[j].day == d && free@[j].half == HalfDay::WholeDay),
        decreases free@.len() - i,
    {
        if free[i].day == d && free[i].half == HalfDay::WholeDay {
            return true;
        }
        i = i + 1;
    }
    false
}

/// The days from `from` to `to`, in order, on which shifts are planned: all
/// but those that `free` marks as wholly free. Half-free days are worked.
pub fn working_days_between(from: u32, to: u32, free: &Vec<FreeDay>) -> (r: Vec<u32>)
    ensures
        r@ == days_to_work(from as int, to as int, free@),
{
    let mut out: Vec<u32> = Vec::new();
    if from > to {
        assert(out@ =~= days_to_work(from as int, to as int, free@));
        return out;
    }
    let mut d: u32 = from;
    assert(out@ =~= days_to_work(from as int, from - 1, free@));
    loop
        invariant
            from <= d <= to,
            out@ == days_to_work(from as int, d - 1, free@),
        decreases to - d,
    {
        if !is_wholly_free(free, d) {
            out.push(d);
        }
        assert(out@ =~= days_to_work(from as int, d as int, free@));
        if d == to {
            return out;
        }
        d = d + 1;
    }
}


/// Whether `s` spells `word`, a word of lower-case ASCII letters, with any
/// letter possibly in upper case.
pub open spec fn spells(s: Seq<char>, word: Seq<char>) -> bool {
    s.len() == word.len() && forall|i: int|
        0 <= i < s.len() ==> s[i] == word[i] || s[i] as u32 + 32 == word[i] as u32
}

/// Whether `s` is the three-letter or the full English name `short` + `rest`,
/// ignoring ASCII case.
pub open spec fn names_day(s: Seq<char>, short: Seq<char>, rest: Seq<char>) -> bool {
    spells(s, short) || spells(s, short + rest)
}

/// The weekday (Monday 0 to Sunday 6) that chrono reads from `name`: its
/// three-letter or full English name, in any ASCII case.
pub open spec fn weekday_named(name: Seq<char>) -> Option<u8> {
    if names_day(name, "mon"@, "day"@) {
        Some(0u8)
    } else if names_day(name, "tue"@, "sday"@) {
        Some(1u8)
    } else if names_day(name, "wed"@, "nesday"@) {
        Some(2u8)
    } else if names_day(name, "thu"@, "rsday"@) {
        Some(3u8)
    } else if names_day(name, "fri"@, "day"@) {
        Some(4u8)
    } else if names_day(name, "sat"@, "urday"@) {
        Some(5u8)
    } else if names_day(name, "sun"@, "day"@) {
        Some(6u8)
    } else {
        None
    }
}

/// Relies on chrono's `FromStr` for `Weekday` (the three-letter or full
/// English name, ASCII case ignored) and `Weekday::num_days_from_monday`,
/// which counts from Monday as 0 up to Sunday as 6.
#[verifier::external_body]
fn parse_weekday(name: &str) -> (r: Option<u8>)
    ensures
        r == weekday_named(name@),
        r matches Some(w) ==> w < 7,
{
    match name.parse::<chrono::Weekday>() {
        Ok(w) => Some(w.num_days_from_monday() as u8),
        Err(_) => None,
    }
}

/// The weekdays (Monday 0 to Sunday 6) named in `names`, in order; `None`
/// when some name is not a weekday.
pub fn weekdays_of(names: &Vec<String>) -> (r: Option<Vec<u8>>)
    ensures
        r is Some <==> forall|i: int| 0 <= i < names@.len() ==> weekday_named(#[trigger] names@[i]@) is Some,
        r matches Some(w) ==> w@.len() == names@.len() && forall|i: int|
            0 <= i < names@.len() ==> weekday_named(#[trigger] names@[i]@) == Some(w@[i]),
{
    let mut out: Vec<u8> = Vec::new();
    let mut i: usize = 0;
    while i < names.len()
        invariant
            i <= names@.len(),
            out@.len() == i,
            forall|j: int| 0 <= j < i ==> weekday_named(#[trigger] names@[j]@) == Some(out@[j]),
        decreases names@.len() - i,
    {
        match parse_weekday(names[i].as_str()) {
            Some(w) => out.push(w),
            None => return None,
        }
        i = i + 1;
    }
    Some(out)
}


// ---------------------------------------------------------------------------
// Reading durations, dates and times of day
// ---------------------------------------------------------------------------

/// What chrono reads from `text` as a time of day in `format`, as seconds
/// after midnight.
pub uninterp spec fn clock_time_in_format(text: Seq<char>, format: Seq<char>) -> Option<u32>;

/// Relies on chrono's `NaiveTime::parse_from_str` and
/// `Timelike::num_seconds_from_midnight`, which counts non-leap seconds and so
/// stays below a day.
#[verifier::external_body]
fn parse_clock_time(text: &str, format: &str) -> (r: Option<u32>)
    ensures
        r == clock_time_in_format(text@, format@),
        r matches Some(secs) ==> secs < 86400,
{
    match chrono::NaiveTime::parse_from_str(text, format) {
        Ok(t) => Some(t.num_seconds_from_midnight()),
        Err(_) => None,
    }
}

/// What chrono reads from `text` as a date in `format`, numbered as
/// `Datelike::num_days_from_ce` numbers days.
pub uninterp spec fn date_in_format(text: Seq<char>, format: Seq<char>) -> Option<i32>;

/// Relies on chrono's `NaiveDate::parse_from_str` and `Datelike::num_days_from_ce`.
#[verifier::external_body]
fn parse_date_in(text: &str, format: &str) -> (r: Option<i32>)
    ensures
        r == date_in_format(text@, format@),
{
    match chrono::NaiveDate::parse_from_str(text, format) {
        Ok(d) => Some(d.num_days_from_ce()),
        Err(_) => None,
    }
}

/// `s` when `b` holds, else nothing.
pub open spec fn when(b: bool, s: Seq<char>) -> Seq<char> {
    if b {
        s
    } else {
        seq![]
    }
}

/// The chrono format for a duration written `<hours>h<minutes>m<seconds>s`:
/// the parts present in order, then those missing.
pub open spec fn duration_format(text: Seq<char>) -> Seq<char> {
    let (h, m, s) = (text.contains('h'), text.contains('m'), text.contains('s'));
    when(h, "%Hh"@) + when(m, "%Mm"@) + when(s, "%Ss"@) + when(!h, "%Hh"@) + when(!m, "%Mm"@) + when(
        !s,
        "%Ss"@,
    )
}

/// A duration's text with a zero added for each missing part.
pub open spec fn duration_text(text: Seq<char>) -> Seq<char> {
    text + when(!text.contains('h'), "0h"@) + when(!text.contains('m'), "0m"@) + when(
        !text.contains('s'),
        "0s"@,
    )
}

fn text_when(b: bool, s: &str) -> (r: String)
    ensures
        r@ == when(b, s@),
{
    if b {
        crate::text::owned(s)
    } else {
        String::new()
    }
}

/// A duration written as `<hours>h<minutes>m<seconds>s`, any part left out,
/// in seconds; each part must be in the range of a clock (hours below 24,
/// minutes and seconds below 60).
pub fn parse_duration(text: &str) -> (r: Option<i64>)
    ensures
        r is Some <==> clock_time_in_format(duration_text(text@), duration_format(text@)) is Some,
        r matches Some(secs) ==> clock_time_in_format(duration_text(text@), duration_format(text@))
            == Some(secs as u32),
{
    let h = crate::text::contains_char(text, 'h');
    let m = crate::text::contains_char(text, 'm');
    let s = crate::text::contains_char(text, 's');
    let mut format = text_when(h, "%Hh");
    format = crate::text::concat(format.as_str(), text_when(m, "%Mm").as_str());
    format = crate::text::concat(format.as_str(), text_when(s, "%Ss").as_str());
    format = crate::text::concat(format.as_str(), text_when(!h, "%Hh").as_str());
    format = crate::text::concat(format.as_str(), text_when(!m, "%Mm").as_str());
    format = crate::text::concat(format.as_str(), text_when(!s, "%Ss").as_str());
    let mut padded = crate::text::concat(text, text_when(!h, "0h").as_str());
    padded = crate::text::concat(padded.as_str(), text_when(!m, "0m").as_str());
    padded = crate::text::concat(padded.as_str(), text_when(!s, "0s").as_str());
    match parse_clock_time(padded.as_str(), format.as_str()) {
        Some(secs) => Some(secs as i64),
        None => None,
    }
}

/// The day of a date written `YYYY-mm-dd`, else `dd.mm.YYYY`.
pub open spec fn date_of(text: Seq<char>) -> Option<i32> {
    match date_in_format(text, "%Y-%m-%d"@) {
        Some(d) => Some(d),
        None => date_in_format(text, "%d.%m.%Y"@),
    }
}

/// The number of the day written as `YYYY-mm-dd` or `dd.mm.YYYY`; `None` when
/// it is neither or lies before the first day that a `FreeDay` can number.
pub fn parse_date(text: &str) -> (r: Option<u32>)
    ensures
        r is Some <==> (date_of(text@) matches Some(d) && d >= 0),
        r matches Some(d) ==> date_of(text@) == Some(d as i32),
{
    let d = match parse_date_in(text, "%Y-%m-%d") {
        Some(d) => d,
        None => match parse_date_in(text, "%d.%m.%Y") {
            Some(d) => d,
            None => return None,
        },
    };
    if d >= 0 {
        Some(d as u32)
    } else {
        None
    }
}

/// The time of day of `text` in the first of the formats `%H:%M:%S`, `%H:%M`
/// and bare hours that reads it. chrono reads no time from hours alone, so
/// bare hours are read as the hour with zero minutes.
pub open spec fn time_of_day(text: Seq<char>) -> Option<u32> {
    match clock_time_in_format(text, "%H:%M:%S"@) {
        Some(t) => Some(t),
        None => match clock_time_in_format(text, "%H:%M"@) {
            Some(t) => Some(t),
            None => clock_time_in_format(text + ":00"@, "%H:%M"@),
        },
    }
}

/// A time of day written `HH:MM:SS`, `HH:MM` or `HH`, in seconds after midnight.
pub fn parse_time_of_day(text: &str) -> (r: Option<u32>)
    ensures
        r == time_of_day(text@),
        r matches Some(secs) ==> secs < 86400,
{
    match parse_clock_time(text, "%H:%M:%S") {
        Some(t) => Some(t),
        None => match parse_clock_time(text, "%H:%M") {
            Some(t) => Some(t),
            None => {
                let on_the_hour = crate::text::concat(text, ":00");
                parse_clock_time(on_the_hour.as_str(), "%H:%M")
            },
        },
    }
}

} // verus!
