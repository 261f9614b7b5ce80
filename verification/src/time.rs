//! The boundary to `chrono`, and the arithmetic on millisecond timestamps.

use chrono::{NaiveDateTime, Utc};
use vstd::prelude::*;

verus! {

#[verifier::external_type_specification]
#[verifier::external_body]
pub struct ExNaiveDateTime(chrono::NaiveDateTime);

/// The date and time, in UTC, that lies `secs` seconds and `nanos`
/// nanoseconds after the Unix epoch; `None` where `chrono` has no such date
/// and time.
pub uninterp spec fn utc_instant(secs: i64, nanos: u32) -> Option<NaiveDateTime>;

/// `NaiveDateTime::from_timestamp_opt`. Trusted: the result is what
/// `utc_instant` names. The function returns `None` for what it cannot
/// represent and does not panic.
#[verifier::external_body]
#[allow(deprecated)]
pub(crate) fn instant_at(secs: i64, nanos: u32) -> (r: Option<NaiveDateTime>)
    ensures
        r == utc_instant(secs, nanos),
{
    NaiveDateTime::from_timestamp_opt(secs, nanos)
}

/// `Utc::now`, as milliseconds since the Unix epoch, rounded down. Nothing is
/// claimed of the result: it is whatever the clock says. `Utc::now` panics
/// where the system clock stands before the Unix epoch.
#[verifier::external_body]
pub(crate) fn now_millis() -> i64 {
    Utc::now().timestamp_millis()
}

/// Whether a millisecond timestamp splits into seconds and nanoseconds
/// without loss: it does unless it is negative and no whole number of
/// seconds.
pub open spec fn splits(millis: i64) -> bool {
    millis >= 0 || millis % 1000 == 0
}

/// The whole seconds of a timestamp that splits.
pub open spec fn whole_seconds(millis: i64) -> i64 {
    (millis / 1000) as i64
}

/// What is left of a timestamp that splits after its whole seconds, in
/// nanoseconds.
pub open spec fn nanos_left(millis: i64) -> u32 {
    ((millis % 1000) * 1_000_000) as u32
}

/// The date and time of a millisecond timestamp, `None` where the timestamp
/// does not split or `chrono` cannot represent it.
pub open spec fn instant_of_millis(millis: i64) -> Option<NaiveDateTime> {
    if splits(millis) {
        utc_instant(whole_seconds(millis), nanos_left(millis))
    } else {
        None
    }
}

/// Splits a millisecond timestamp into whole seconds and nanoseconds.
pub fn split_millis(millis: i64) -> (r: Option<(i64, u32)>)
    ensures
        r == if splits(millis) {
            Some((whole_seconds(millis), nanos_left(millis)))
        } else {
            None
        },
        r matches Some(parts) ==> parts.1 < 1_000_000_000 && parts.0 * 1000 + parts.1 / 1_000_000
            == millis,
{
    if millis >= 0 || millis % 1000 == 0 {
        let rest: i64 = millis % 1000;
        let nanos: u32 = (rest as u32) * 1_000_000;
        Some((millis / 1000, nanos))
    } else {
        None
    }
}

/// The date and time of a millisecond timestamp.
pub fn millis_to_instant(millis: i64) -> (r: Option<NaiveDateTime>)
    ensures
        r == instant_of_millis(millis),
{
    match split_millis(millis) {
        Some((secs, nanos)) => instant_at(secs, nanos),
        None => None,
    }
}

} // verus!
