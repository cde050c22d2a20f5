//! The clock and the local calendar: what a time filter asks of the
//! machine it is built on. But for `unix_now`, nothing here is verified;
//! each function states what it relies on.

use chrono::{DateTime, Local, NaiveDate, NaiveDateTime, TimeZone};
use std::time::{Duration, SystemTime, SystemTimeError, UNIX_EPOCH};
use vstd::prelude::*;

verus! {

/// `std::time::SystemTime`, a reading of the system clock. Nothing inside
/// it is known here.
#[verifier::external_type_specification]
#[verifier::external_body]
pub struct ExSystemTime(std::time::SystemTime);

/// `std::time::SystemTimeError`, the answer for a clock reading that lies
/// before the moment it is measured from. Nothing inside it is known here.
#[verifier::external_type_specification]
#[verifier::external_body]
pub struct ExSystemTimeError(std::time::SystemTimeError);

/// A reading of the system clock.
///
/// Calls `std::time::SystemTime::now`. Every call may answer differently,
/// so nothing is claimed.
#[verifier::external_body]
fn system_time_now() -> (moment: SystemTime) {
    SystemTime::now()
}

/// The time from the Unix epoch to a clock reading.
///
/// Calls `std::time::SystemTime::duration_since` with
/// `std::time::UNIX_EPOCH`, which answers with an error for a reading
/// before the epoch. The reading is opaque, so nothing is claimed.
#[verifier::external_body]
fn since_epoch(moment: &SystemTime) -> (elapsed: Result<Duration, SystemTimeError>) {
    moment.duration_since(UNIX_EPOCH)
}

/// The whole seconds of a span of time.
///
/// Calls `std::time::Duration::as_secs`. The span is opaque, so nothing is
/// claimed.
#[verifier::external_body]
fn whole_seconds(elapsed: &Duration) -> (seconds: u64) {
    elapsed.as_secs()
}

/// The current time in whole seconds since the Unix epoch, or `None` where
/// the system clock reads a time before the epoch or one too far off to
/// count in 63 bits.
pub fn unix_now() -> (now: Option<i64>)
    ensures
        now matches Some(seconds) ==> seconds >= 0,
{
    match since_epoch(&system_time_now()) {
        Ok(elapsed) => {
            let seconds = whole_seconds(&elapsed);
            if seconds <= i64::MAX as u64 {
                Some(seconds as i64)
            } else {
                None
            }
        },
        Err(_) => None,
    }
}

/// The seconds from the epoch to a calendar date and time of day, read as
/// universal time: what `chrono::NaiveDate::from_ymd_opt` and
/// `NaiveDate::and_hms_opt` make of the six fields, counted by
/// `DateTime::timestamp`. `None` for fields that name no date or no time.
pub uninterp spec fn civil_seconds(
    year: int,
    month: int,
    day: int,
    hour: int,
    minute: int,
    second: int,
) -> Option<int>;

/// The seconds from the epoch to the date and time that a text spells when
/// read with a strftime pattern, as universal time: what
/// `chrono::NaiveDateTime::parse_from_str` makes of the two, counted by
/// `DateTime::timestamp`. `None` for a text that the pattern does not read.
pub uninterp spec fn civil_reading(text: Seq<char>, format: Seq<char>) -> Option<int>;

/// Whether an instant lies less than a day from a civil time: as far as a
/// time zone can be from universal time.
pub open spec fn near(instant: int, civil: int) -> bool {
    civil - 86400 < instant < civil + 86400
}

/// The seconds from the epoch to a calendar date and time of day, read as
/// universal time.
///
/// Calls `chrono::NaiveDate::from_ymd_opt`, `NaiveDate::and_hms_opt` and
/// reads `DateTime::timestamp`. No zone and no clock enters, so the answer
/// is the one that `civil_seconds` names. Claimed beside it is what chrono
/// documents: fields outside the calendar give none.
#[verifier::external_body]
pub(crate) fn civil_timestamp(
    year: i32,
    month: u32,
    day: u32,
    hour: u32,
    minute: u32,
    second: u32,
) -> (seconds: Option<i64>)
    ensures
        match seconds {
            Some(civil) => civil_seconds(
                year as int,
                month as int,
                day as int,
                hour as int,
                minute as int,
                second as int,
            ) == Some(civil as int),
            None => civil_seconds(
                year as int,
                month as int,
                day as int,
                hour as int,
                minute as int,
                second as int,
            ) is None,
        },
        month < 1 || month > 12 || day < 1 || day > 31 || hour > 23 || minute > 59 || second > 59
            ==> seconds is None,
{
    match NaiveDate::from_ymd_opt(year, month, day) {
        Some(date) => match date.and_hms_opt(hour, minute, second) {
            Some(moment) => Some(moment.and_utc().timestamp()),
            None => None,
        },
        None => None,
    }
}

/// The seconds from the epoch to the date and time that `text` spells when
/// read with the strftime pattern `format`, as universal time.
///
/// Calls `chrono::NaiveDateTime::parse_from_str` and reads
/// `DateTime::timestamp`. No zone and no clock enters, so the answer is the
/// one that `civil_reading` names.
#[verifier::external_body]
pub(crate) fn civil_from_str(text: &str, format: &str) -> (seconds: Option<i64>)
    ensures
        match seconds {
            Some(civil) => civil_reading(text@, format@) == Some(civil as int),
            None => civil_reading(text@, format@) is None,
        },
{
    match NaiveDateTime::parse_from_str(text, format) {
        Ok(moment) => Some(moment.and_utc().timestamp()),
        Err(_) => None,
    }
}

/// The instant at which the clocks of the local time zone show a civil
/// time, in seconds since the epoch.
///
/// Calls `chrono::DateTime::from_timestamp` to get the date and time of
/// day back, then `chrono::TimeZone::from_local_datetime` on
/// `chrono::Local`, and keeps the answer only when it is unique: a clock
/// change may skip a local time or show it twice. Which instant comes back
/// depends on the machine's zone. Claimed is what holds in every zone:
/// chrono subtracts the zone's offset, and documents an offset as less
/// than a day either way.
#[verifier::external_body]
pub(crate) fn local_instant(civil: i64) -> (instant: Option<i64>)
    ensures
        instant matches Some(found) ==> near(found as int, civil as int),
{
    match DateTime::from_timestamp(civil, 0) {
        Some(moment) => match Local.from_local_datetime(&moment.naive_utc()).single() {
            Some(local) => Some(local.timestamp()),
            None => None,
        },
        None => None,
    }
}

} // verus!
