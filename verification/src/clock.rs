//! The boundary to the `chrono` crate: the wall clock and the calendar
//! arithmetic on timestamps. Nothing in this module is proved.

use chrono::{DateTime, TimeDelta, Utc};
use vstd::prelude::*;

verus! {

/// The timestamp that `chrono` reaches by adding a number of hours to a
/// timestamp, both in whole seconds since the epoch; `None` where one of the
/// two dates or the span is out of its range.
pub uninterp spec fn hours_later(timestamp: int, hours: int) -> Option<int>;

/// Calls `chrono::Utc::now` and `DateTime::timestamp`: the wall clock in
/// whole seconds since the epoch.
///
/// Nothing is claimed of the result.
#[verifier::external_body]
pub(crate) fn current_timestamp() -> (now: i64) {
    Utc::now().timestamp()
}

/// Calls `DateTime::from_timestamp`, `TimeDelta::try_hours`,
/// `DateTime::checked_add_signed` and `DateTime::timestamp`.
///
/// Trusted: the result is the one named [`hours_later`]; and where there is
/// one, it lies 3600 seconds per hour after the timestamp given.
#[verifier::external_body]
pub(crate) fn add_hours(timestamp: i64, hours: i64) -> (res: Option<i64>)
    ensures
        match res {
            Some(t) => hours_later(timestamp as int, hours as int) == Some(t as int),
            None => hours_later(timestamp as int, hours as int) is None,
        },
        res matches Some(t) ==> t == timestamp + hours * 3600,
{
    let start = DateTime::<Utc>::from_timestamp(timestamp, 0)?;
    let end = start.checked_add_signed(TimeDelta::try_hours(hours)?)?;
    Some(end.timestamp())
}

} // verus!
