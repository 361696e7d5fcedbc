//! Calendar timestamps as plain values, and month arithmetic on them.
//!
//! Task schedule bounds are computed by advancing the project start instant
//! by a whole number of months. The addition is calendar addition: the month
//! index moves, and the day of month is clamped to the length of the target
//! month. The executable addition is done by chrono; its result is specified
//! exactly by [`spec_add_months`].

use vstd::prelude::*;
use chrono::{Datelike, Timelike};

verus! {

/// The largest project-start year the engine accepts.
pub const MAX_START_YEAR: i32 = 100_000;

/// The largest month count the engine will add to an instant.
pub const MAX_MONTH_OFFSET: u32 = 1_000_000;

/// A calendar timestamp as plain values: a proleptic Gregorian date and a
/// time of day. The store keeps task schedule instants in this form.
#[derive(Clone, Copy, Debug, PartialEq, Eq, Structural)]
pub struct DateTime {
    pub year: i32,
    pub month: u8,
    pub day: u8,
    pub hour: u8,
    pub minute: u8,
    pub second: u8,
}

/// A leap year of the proleptic Gregorian calendar.
pub open spec fn is_leap_year(y: int) -> bool {
    y % 4 == 0 && (y % 100 != 0 || y % 400 == 0)
}

/// How many days month `m` of year `y` has.
pub open spec fn days_in_month(y: int, m: int) -> int {
    if m == 2 {
        if is_leap_year(y) {
            29
        } else {
            28
        }
    } else if m == 4 || m == 6 || m == 9 || m == 11 {
        30
    } else {
        31
    }
}

impl DateTime {
    /// A real calendar date with a real time of day.
    pub open spec fn wf(self) -> bool {
        &&& 1 <= self.month <= 12
        &&& 1 <= self.day <= days_in_month(self.year as int, self.month as int)
        &&& self.hour < 24
        &&& self.minute < 60
        &&& self.second < 60
    }
}

/// The instant `n` months after `dt`: the month index advances by `n`, the
/// day is clamped to the length of the target month, and the time of day is
/// kept. Meaningful for well-formed `dt` with `dt.year >= 0` and `n >= 0`.
pub open spec fn spec_add_months(dt: DateTime, n: int) -> DateTime {
    let total = dt.year * 12 + dt.month - 1 + n;
    let y = total / 12;
    let m = total % 12 + 1;
    let d = if dt.day <= days_in_month(y, m) {
        dt.day as int
    } else {
        days_in_month(y, m)
    };
    DateTime {
        year: y as i32,
        month: m as u8,
        day: d as u8,
        hour: dt.hour,
        minute: dt.minute,
        second: dt.second,
    }
}

/// Relies on chrono's `NaiveDateTime::checked_add_months` (through
/// `NaiveDate::diff_months`): the month index advances by `n`, the day is
/// clamped to the length of the target month, and the time of day is kept.
/// The bounds on `dt.year` and `n` keep the result far inside chrono's date
/// range, so the addition cannot fail.
#[verifier::external_body]
fn chrono_add_months(dt: &DateTime, n: u32) -> (r: DateTime)
    requires
        dt.wf(),
        0 <= dt.year <= MAX_START_YEAR,
        n <= MAX_MONTH_OFFSET,
    ensures
        r == spec_add_months(*dt, n as int),
{
    let d = chrono::NaiveDate::from_ymd_opt(dt.year, dt.month as u32, dt.day as u32)
        .unwrap()
        .and_hms_opt(dt.hour as u32, dt.minute as u32, dt.second as u32)
        .unwrap()
        .checked_add_months(chrono::Months::new(n))
        .unwrap();
    DateTime {
        year: d.year(),
        month: d.month() as u8,
        day: d.day() as u8,
        hour: d.hour() as u8,
        minute: d.minute() as u8,
        second: d.second() as u8,
    }
}

/// The instant `n` months after `dt`.
pub fn add_months(dt: &DateTime, n: u32) -> (r: DateTime)
    requires
        dt.wf(),
        0 <= dt.year <= MAX_START_YEAR,
        n <= MAX_MONTH_OFFSET,
    ensures
        r == spec_add_months(*dt, n as int),
        r.wf(),
{
    proof {
        lemma_add_months_wf(*dt, n as int);
    }
    chrono_add_months(dt, n)
}

/// Month addition on a well-formed instant yields a well-formed instant.
pub proof fn lemma_add_months_wf(dt: DateTime, n: int)
    requires
        dt.wf(),
        0 <= dt.year <= MAX_START_YEAR,
        0 <= n <= MAX_MONTH_OFFSET,
    ensures
        spec_add_months(dt, n).wf(),
        0 <= spec_add_months(dt, n).year <= MAX_START_YEAR + 100_000,
{
    let total = dt.year * 12 + dt.month - 1 + n;
    assert(0 <= total <= 2_200_011);
    assert(total / 12 * 12 + total % 12 == total) by (nonlinear_arith);
    assert(0 <= total % 12 < 12) by (nonlinear_arith)
        requires
            total >= 0,
    ;
    assert(0 <= total / 12 <= 183_334) by (nonlinear_arith)
        requires
            0 <= total <= 2_200_011,
    ;
}

} // verus!
