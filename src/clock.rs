use vstd::prelude::*;
use chrono::{Datelike, Timelike};

verus! {

/// Local calendar date and time of day.
pub struct DateTimeFields {
    pub year: i32,
    /// 1 to 12.
    pub month: u32,
    /// 1 to 31.
    pub day: u32,
    /// Days since Sunday, 0 to 6.
    pub weekday: u32,
    pub hour: u32,
    pub minute: u32,
    pub second: u32,
}

/// Relies on chrono's `From<SystemTime>` for `DateTime<Local>` (which takes
/// a clock set before 1970 as a negative timestamp instead of failing) and
/// its `Datelike` / `Timelike` getters: the month counts from 1 to 12, the
/// day from 1 to 31, the weekday from Sunday = 0 to 6, the hour from 0 to
/// 23, minute and second from 0 to 59.
#[verifier::external_body]
pub(crate) fn local_date_time() -> (r: DateTimeFields)
    ensures
        1 <= r.month <= 12,
        1 <= r.day <= 31,
        r.weekday <= 6,
        r.hour <= 23,
        r.minute <= 59,
        r.second <= 59,
{
    let now: chrono::DateTime<chrono::Local> = chrono::DateTime::from(std::time::SystemTime::now());
    DateTimeFields {
        year: now.year(),
        month: now.month(),
        day: now.day(),
        weekday: now.weekday().num_days_from_sunday(),
        hour: now.hour(),
        minute: now.minute(),
        second: now.second(),
    }
}

} // verus!
