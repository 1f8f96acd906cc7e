//! The clock source.

use vstd::prelude::*;

use chrono::{Datelike, Timelike};

use crate::block::{Block, BlockError, BlockState, ClickEvent, Icon};

verus! {

/// The earliest year of chrono's calendar.
pub const MIN_YEAR: i32 = -262143;

/// The latest year of chrono's calendar.
pub const MAX_YEAR: i32 = 262142;

/// A local date and time as chrono reports it.
#[derive(Debug, Copy, Clone, PartialEq, Eq, Structural)]
pub struct LocalTime {
    pub year: i32,
    pub month: u32,
    pub day: u32,
    pub hour: u32,
    pub minute: u32,
    pub second: u32,
    /// From 1,000,000,000 on, the second is a leap second.
    pub nanosecond: u32,
}

/// Whether `y` is a leap year of the proleptic Gregorian calendar.
pub open spec fn is_leap_year(y: int) -> bool {
    (y % 4 == 0 && y % 100 != 0) || y % 400 == 0
}

/// The number of days of month `m` in year `y`.
pub open spec fn days_in_month(y: int, m: int) -> int {
    if m == 2 {
        if is_leap_year(y) { 29 } else { 28 }
    } else if m == 4 || m == 6 || m == 9 || m == 11 {
        30
    } else {
        31
    }
}

impl LocalTime {
    /// A date that exists in chrono's calendar, and a time of day; the
    /// nanoseconds exceed a second only in a leap second, after `:59`.
    pub open spec fn wf(self) -> bool {
        &&& MIN_YEAR <= self.year <= MAX_YEAR
        &&& 1 <= self.month <= 12
        &&& 1 <= self.day <= days_in_month(self.year as int, self.month as int)
        &&& self.hour < 24
        &&& self.minute < 60
        &&& self.second < 60
        &&& (self.nanosecond < 1_000_000_000 || (self.second == 59 && self.nanosecond < 2_000_000_000))
    }
}

/// What chrono writes for the date and time `t` with `%Y-%m-%d %T`.
pub uninterp spec fn clock_text(t: LocalTime) -> Seq<char>;

/// Relies on chrono's `Local::now` and its `Datelike` and `Timelike` fields:
/// the current local date and time, a date of chrono's calendar with the
/// ranges that chrono documents.
#[verifier::external_body]
fn local_now() -> (t: LocalTime)
    ensures
        t.wf(),
{
    let now = chrono::Local::now();
    LocalTime {
        year: now.year(),
        month: now.month(),
        day: now.day(),
        hour: now.hour(),
        minute: now.minute(),
        second: now.second(),
        nanosecond: now.nanosecond(),
    }
}

/// Relies on chrono's `NaiveDate::from_ymd_opt` and
/// `NaiveTime::from_hms_nano_opt`, which accept every date and time that
/// `wf` admits, and on formatting their `NaiveDateTime` with `%Y-%m-%d %T`.
#[verifier::external_body]
fn format_clock(t: &LocalTime) -> (r: String)
    requires
        t.wf(),
    ensures
        r@ == clock_text(*t),
{
    let date = chrono::NaiveDate::from_ymd_opt(t.year, t.month, t.day).expect("a calendar date");
    let time = chrono::NaiveTime::from_hms_nano_opt(t.hour, t.minute, t.second, t.nanosecond)
        .expect("a time of day");
    chrono::NaiveDateTime::new(date, time).format("%Y-%m-%d %T").to_string()
}

/// The clock source: the local date and time behind a calendar glyph.
pub struct DateTime {}

impl DateTime {
    pub fn new() -> DateTime {
        DateTime {}
    }

    /// The text shown for the clock text `clock`.
    pub fn render_text(&self, clock: &str) -> (r: BlockState)
        ensures
            r@ == Icon::Calendar.spec_label(clock@),
    {
        BlockState::new(Icon::Calendar.label(clock))
    }

    /// The text shown for the time `t`.
    pub fn render(&self, t: &LocalTime) -> (r: BlockState)
        requires
            t.wf(),
        ensures
            r@ == Icon::Calendar.spec_label(clock_text(*t)),
    {
        let text = format_clock(t);
        self.render_text(text.as_str())
    }
}

impl Block for DateTime {
    /// Never fails: the calendar glyph and the current local time.
    fn current_state(&mut self) -> (r: Result<BlockState, BlockError>)
        ensures
            r matches Ok(st) && exists|t: LocalTime| t.wf() && st@ == Icon::Calendar.spec_label(clock_text(t)),
    {
        let now = local_now();
        let st = self.render(&now);
        assert(now.wf() && st@ == Icon::Calendar.spec_label(clock_text(now)));
        Ok(st)
    }

    fn handle_click(&self, _event: ClickEvent) {
    }
}

} // verus!
