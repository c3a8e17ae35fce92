//! Trusted clock and calendar layer over the `chrono` crate.
//!
//! Everything else in the engine treats time as a plain number of
//! milliseconds since the Unix epoch; this module is the only place that
//! consults the real clock or the local calendar. Calendar coordinates and
//! rendered timestamps depend on the machine's time zone, so the wrappers
//! promise nothing about their values: the verified logic takes them as
//! arguments and is proved for every value.

use chrono::Datelike;
use core::fmt::Write;
use vstd::prelude::*;

verus! {

/// Calendar coordinates of an instant in local time, used by time-based
/// rotation to tell whether two instants fall in the same day, ISO week or
/// month.
#[derive(Debug, Clone, Copy, PartialEq, Eq, Structural)]
pub struct CalendarStamp {
    /// Year of the ISO week.
    pub iso_year: u32,
    /// ISO week number within `iso_year`.
    pub iso_week: u32,
    /// Calendar year.
    pub year: u32,
    /// Month within `year`.
    pub month: u32,
    /// Day within the month.
    pub day_of_month: u32,
}

/// Relies on `chrono::Utc::now`: the current time as non-leap milliseconds
/// since the Unix epoch. An instant before the epoch reads as 0.
#[verifier::external_body]
pub(crate) fn now_millis() -> u64 {
    let ms = chrono::Utc::now().timestamp_millis();
    if ms < 0 {
        0
    } else {
        ms as u64
    }
}

/// Relies on `chrono::DateTime::format`: renders `millis` in local time with
/// the strftime layout `fmt`. An instant out of chrono's range renders as the
/// empty string and an invalid layout renders as the layout itself; chrono
/// reports both conditions instead of panicking.
#[verifier::external_body]
pub(crate) fn render_local_time(millis: u64, fmt: &str) -> String {
    let utc = match chrono::DateTime::<chrono::Utc>::from_timestamp_millis(millis as i64) {
        Some(t) => t,
        None => {
            return String::new();
        },
    };
    let local = utc.with_timezone(&chrono::Local);
    let mut out = String::new();
    match local.format(fmt).write_to(&mut out) {
        Ok(()) => out,
        Err(_) => String::from(fmt),
    }
}

/// Relies on chrono's `Datelike` calendar arithmetic: the local-time calendar
/// coordinates of `millis`. An instant out of chrono's range maps to the
/// stamp whose fields are all zero, and a year before the common era reads
/// as year zero.
#[verifier::external_body]
pub(crate) fn calendar_stamp(millis: u64) -> CalendarStamp {
    let dt = chrono::DateTime::<chrono::Utc>::from_timestamp_millis(millis as i64);
    let local = match dt {
        Some(t) => t.with_timezone(&chrono::Local),
        None => return CalendarStamp { iso_year: 0, iso_week: 0, year: 0, month: 0, day_of_month: 0 },
    };
    let week = local.iso_week();
    CalendarStamp {
        iso_year: week.year().max(0) as u32,
        iso_week: week.week(),
        year: local.year().max(0) as u32,
        month: local.month(),
        day_of_month: local.day(),
    }
}

} // verus!
