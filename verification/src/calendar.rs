//! Stored visit times and their date and time in the Gregorian calendar, in
//! UTC.

use chrono::{Datelike, Timelike};
use vstd::prelude::*;

use crate::store::ViolationKind;

verus! {

/// A point in time: its distance from the Unix epoch in milliseconds, and
/// its date and time of day in UTC.
#[derive(Debug, Clone, Copy, PartialEq, Eq, Structural)]
pub struct VisitTime {
    pub epoch_millis: i64,
    pub year: i32,
    pub month: u32,
    pub day: u32,
    pub hour: u32,
    pub minute: u32,
    pub second: u32,
    pub millisecond: u32,
}

/// The date and time in UTC that lies `epoch_millis` milliseconds from the
/// Unix epoch, where the calendar can hold it.
pub uninterp spec fn utc_calendar(epoch_millis: i64) -> Option<VisitTime>;

/// `chrono::DateTime::from_timestamp_millis`, with the fields of its result
/// read off by `timestamp_millis`, `year`, `month`, `day`, `hour`, `minute`,
/// `second` and `timestamp_subsec_millis`. It is `None` where the number of
/// milliseconds is out of the calendar's range; the result depends on the
/// argument alone and gives the same number of milliseconds back.
#[verifier::external_body]
fn utc_from_millis(millis: i64) -> (out: Option<VisitTime>)
    ensures
        out == utc_calendar(millis),
        out matches Some(t) ==> t.epoch_millis == millis,
{
    let dt = chrono::DateTime::from_timestamp_millis(millis)?;
    Some(VisitTime {
        epoch_millis: dt.timestamp_millis(),
        year: dt.year(),
        month: dt.month(),
        day: dt.day(),
        hour: dt.hour(),
        minute: dt.minute(),
        second: dt.second(),
        millisecond: dt.timestamp_subsec_millis(),
    })
}

/// Whole milliseconds in a number of microseconds, rounded towards zero.
pub open spec fn millis_of(micros: i64) -> i64 {
    if micros >= 0 {
        (micros / 1000) as i64
    } else {
        (-((-micros) / 1000)) as i64
    }
}

/// Whole milliseconds in a number of microseconds, rounded towards zero.
pub fn micros_to_millis(micros: i64) -> (millis: i64)
    ensures
        millis == millis_of(micros),
{
    micros / 1000
}

/// The visit time that a stored value stands for, given what the calendar
/// makes of its milliseconds: an absent value stays absent, and a present
/// one is a violation where the calendar cannot hold it.
pub open spec fn visit_time_of(stored: Option<i64>, calendar: Option<VisitTime>) -> Result<
    Option<VisitTime>,
    ViolationKind,
> {
    match stored {
        None => Ok(None),
        Some(_) => match calendar {
            Some(t) => Ok(Some(t)),
            None => Err(ViolationKind::OutOfRange),
        },
    }
}

/// The calendar's reading of a stored value's milliseconds; of an absent
/// value there is none.
pub open spec fn calendar_of(stored: Option<i64>) -> Option<VisitTime> {
    match stored {
        Some(micros) => utc_calendar(millis_of(micros)),
        None => None,
    }
}

/// Settles a stored value and the calendar's reading of it into a visit
/// time.
pub fn visit_time_from(stored: Option<i64>, calendar: Option<VisitTime>) -> (r: Result<
    Option<VisitTime>,
    ViolationKind,
>)
    ensures
        r == visit_time_of(stored, calendar),
{
    match stored {
        None => Ok(None),
        Some(_) => match calendar {
            Some(t) => Ok(Some(t)),
            None => Err(ViolationKind::OutOfRange),
        },
    }
}

/// Decodes a stored last-visit value, a number of microseconds from the Unix
/// epoch or nothing: the microseconds are cut to milliseconds and read in
/// the calendar.
pub fn decode_visit_time(stored: Option<i64>) -> (r: Result<Option<VisitTime>, ViolationKind>)
    ensures
        r == visit_time_of(stored, calendar_of(stored)),
        stored is None ==> r == Ok::<Option<VisitTime>, ViolationKind>(None),
        r matches Ok(Some(t)) ==> stored is Some && t.epoch_millis == millis_of(stored->0),
{
    let calendar = match stored {
        Some(micros) => utc_from_millis(micros_to_millis(micros)),
        None => None,
    };
    visit_time_from(stored, calendar)
}

} // verus!
