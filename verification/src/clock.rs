//! The local time of day at an instant.

use crate::time::TimeOfDay;
use vstd::prelude::*;

verus! {

/// The hour and the minute that `chrono`, with the zone `Asia/Seoul` of
/// `chrono_tz`, gives for an instant in seconds since the Unix epoch; `None`
/// for an instant outside the range of `chrono`.
pub uninterp spec fn seoul_hour_minute(unix_seconds: i64) -> Option<(u32, u32)>;

/// Makes a `chrono::DateTime` of the instant with `DateTime::from_timestamp`,
/// moves it to `chrono_tz::Asia::Seoul` with `with_timezone`, and reads
/// `hour` and `minute` of `chrono::Timelike`.
///
/// Trusted: the result depends on the instant alone, which
/// [`seoul_hour_minute`] names. It is `None` where `from_timestamp` gives none.
#[verifier::external_body]
fn hour_minute_in_seoul(unix_seconds: i64) -> (r: Option<(u32, u32)>)
    ensures
        r == seoul_hour_minute(unix_seconds),
{
    let utc = chrono::DateTime::<chrono::Utc>::from_timestamp(unix_seconds, 0)?;
    let local = utc.with_timezone(&chrono_tz::Asia::Seoul);
    Some((chrono::Timelike::hour(&local), chrono::Timelike::minute(&local)))
}

/// The time of day of an hour and a minute, where they make one.
pub open spec fn time_of(hour_minute: Option<(u32, u32)>) -> Option<TimeOfDay> {
    match hour_minute {
        Some((hour, minute)) => if hour < 24 && minute < 60 {
            Some(TimeOfDay { hour: hour as u8, minute: minute as u8 })
        } else {
            None
        },
        None => None,
    }
}

/// The time of day of an hour and a minute, where they make one.
pub fn time_of_hour_minute(hour_minute: Option<(u32, u32)>) -> (r: Option<TimeOfDay>)
    ensures
        r == time_of(hour_minute),
        r matches Some(time) ==> time.valid(),
{
    match hour_minute {
        Some((hour, minute)) => if hour < 24 && minute < 60 {
            Some(TimeOfDay { hour: hour as u8, minute: minute as u8 })
        } else {
            None
        },
        None => None,
    }
}

/// The local time of day at an instant, in seconds since the Unix epoch.
pub open spec fn local_time_at(unix_seconds: Option<i64>) -> Option<TimeOfDay> {
    match unix_seconds {
        Some(seconds) => time_of(seoul_hour_minute(seconds)),
        None => None,
    }
}

/// The local time of day at an instant, in seconds since the Unix epoch.
/// `None` stands for a clock that could not be read, and gives `None`.
pub fn local_time(unix_seconds: Option<i64>) -> (r: Option<TimeOfDay>)
    ensures
        r == local_time_at(unix_seconds),
        r matches Some(time) ==> time.valid(),
{
    match unix_seconds {
        Some(seconds) => time_of_hour_minute(hour_minute_in_seoul(seconds)),
        None => None,
    }
}

} // verus!
