use vstd::prelude::*;
use chrono::{Datelike, Timelike};

verus! {

/// strftime pattern of the clock text, e.g. `9:05`.
pub const TIME_PATTERN: &'static str = "%-k:%M";

/// strftime pattern of the date text, e.g. `Tue, Mar 4 2025`.
pub const DATE_PATTERN: &'static str = "%a, %h %-e %Y";

/// The clock text is refreshed once more than this many milliseconds have
/// passed since the last refresh.
pub const CLOCK_PERIOD_MS: u64 = 1000;

/// Target duration of one loop iteration in microseconds (60 frames per
/// second).
pub const FRAME_MICROS: u64 = 16667;

/// Earliest year of the calendar that the date library handles.
pub const FIRST_YEAR: i32 = -262143;

/// Latest year of the calendar that the date library handles.
pub const LAST_YEAR: i32 = 262142;

/// A local wall-clock time to the minute, in the proleptic Gregorian
/// calendar.
#[derive(Clone, Copy, Debug, PartialEq, Eq, Structural)]
pub struct LocalTime {
    pub year: i32,
    pub month: u32,
    pub day: u32,
    pub hour: u32,
    pub minute: u32,
}

pub open spec fn is_leap_year(y: int) -> bool {
    (y % 4 == 0 && y % 100 != 0) || y % 400 == 0
}

pub open spec fn days_in_month(y: int, m: int) -> int {
    if m == 2 {
        if is_leap_year(y) {
            29
        } else {
            28
        }
    } else if m == 4 || m == 6 || m == 9 || m == 11 {
        30
    } else {
        31
    }
}

/// The text that strftime `pattern` gives for the given date at the given
/// hour and minute (second zero).
pub uninterp spec fn strftime_text(
    year: int,
    month: int,
    day: int,
    hour: int,
    minute: int,
    pattern: Seq<char>,
) -> Seq<char>;

/// The decimal digit `d`, for `0 <= d < 10`.
pub open spec fn digit(d: int) -> char {
    seq!['0', '1', '2', '3', '4', '5', '6', '7', '8', '9'][d]
}

/// The clock text of a time of day: the hour without padding, a colon, and
/// the minute in two digits (`9:05`, `23:59`).
pub open spec fn clock_text(hour: int, minute: int) -> Seq<char> {
    let h = if hour < 10 {
        seq![digit(hour)]
    } else {
        seq![digit(hour / 10), digit(hour % 10)]
    };
    h + seq![':', digit(minute / 10), digit(minute % 10)]
}

/// The patterns that this library formats with.
pub open spec fn known_pattern(p: Seq<char>) -> bool {
    p == TIME_PATTERN@ || p == DATE_PATTERN@
}

impl LocalTime {
    /// A real calendar date within the supported years, and a time of day.
    pub open spec fn wf(self) -> bool {
        &&& FIRST_YEAR <= self.year <= LAST_YEAR
        &&& 1 <= self.month <= 12
        &&& 1 <= self.day <= days_in_month(self.year as int, self.month as int)
        &&& self.hour < 24
        &&& self.minute < 60
    }

    pub open spec fn text(self, pattern: Seq<char>) -> Seq<char> {
        strftime_text(
            self.year as int,
            self.month as int,
            self.day as int,
            self.hour as int,
            self.minute as int,
            pattern,
        )
    }

    /// The clock text of this time.
    pub fn time_text(&self) -> (r: String)
        requires
            self.wf(),
        ensures
            r@ == clock_text(self.hour as int, self.minute as int),
    {
        format_local(self, TIME_PATTERN)
    }

    /// The date text of this time.
    pub fn date_text(&self) -> (r: String)
        requires
            self.wf(),
        ensures
            r@ == self.text(DATE_PATTERN@),
    {
        format_local(self, DATE_PATTERN)
    }
}

/// Relies on chrono's `Local::now` and its `Datelike` / `Timelike` getters:
/// the current local date and time, whose fields chrono keeps within a real
/// calendar date of its supported years and a time of day.
#[verifier::external_body]
pub(crate) fn now_local() -> (r: LocalTime)
    ensures
        r.wf(),
{
    let now = chrono::Local::now();
    LocalTime {
        year: now.year(),
        month: now.month(),
        day: now.day(),
        hour: now.hour(),
        minute: now.minute(),
    }
}

/// Relies on chrono's `NaiveDate::from_ymd_opt`, `and_hms_opt` and
/// `format(..).to_string()`: the date and time built from the fields (valid,
/// so both constructors succeed) written with a strftime pattern that chrono
/// accepts. With the clock pattern, `%-k` writes the hour without padding and
/// `%M` the minute in two digits.
#[verifier::external_body]
fn format_local(t: &LocalTime, pattern: &str) -> (r: String)
    requires
        t.wf(),
        known_pattern(pattern@),
    ensures
        r@ == strftime_text(
            t.year as int,
            t.month as int,
            t.day as int,
            t.hour as int,
            t.minute as int,
            pattern@,
        ),
        pattern@ == TIME_PATTERN@ ==> r@ == clock_text(t.hour as int, t.minute as int),
{
    let date = chrono::NaiveDate::from_ymd_opt(t.year, t.month, t.day).unwrap();
    let stamp = date.and_hms_opt(t.hour, t.minute, 0).unwrap();
    stamp.format(pattern).to_string()
}

/// Whether the clock text is due for a refresh at `now_ms`, the last refresh
/// having been at `last_ms` (both on one monotonic millisecond clock).
pub open spec fn refresh_due(last_ms: int, now_ms: int) -> bool {
    now_ms - last_ms > CLOCK_PERIOD_MS
}

/// Decides whether the clock text is due for a refresh.
pub fn clock_due(last_ms: u64, now_ms: u64) -> (r: bool)
    ensures
        r == refresh_due(last_ms as int, now_ms as int),
{
    now_ms > last_ms && now_ms - last_ms > CLOCK_PERIOD_MS
}

/// How long to sleep after an iteration that took `elapsed_micros`: what
/// remains of the frame budget, or nothing once it is spent.
pub fn frame_sleep_micros(elapsed_micros: u64) -> (r: u64)
    ensures
        r == if elapsed_micros < FRAME_MICROS {
            FRAME_MICROS - elapsed_micros
        } else {
            0
        },
{
    if elapsed_micros < FRAME_MICROS {
        FRAME_MICROS - elapsed_micros
    } else {
        0
    }
}

} // verus!
