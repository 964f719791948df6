//! Instants of the service, as nanoseconds since the Unix epoch in UTC.
use vstd::prelude::*;

verus! {

pub const NANOSECONDS_PER_SECOND: i128 = 1_000_000_000;

pub const NANOSECONDS_PER_MILLISECOND: i128 = 1_000_000;

pub const SECONDS_PER_MINUTE: i64 = 60;

pub const SECONDS_PER_HOUR: i64 = 3_600;

pub const SECONDS_PER_DAY: i64 = 86_400;

/// The first second of the calendar, in the year -262143.
pub const FIRST_SECOND: i64 = -8_334_601_228_800;

/// The last second of the calendar, in the year 262142.
pub const LAST_SECOND: i64 = 8_210_266_876_799;

/// The first millisecond of the calendar.
pub const FIRST_MILLISECOND: i64 = -8_334_601_228_800_000;

/// The first nanosecond of the calendar.
pub const FIRST_INSTANT: i128 = -8_334_601_228_800_000_000_000;

/// The last nanosecond of the calendar.
pub const LAST_INSTANT: i128 = 8_210_266_876_799_999_999_999;

/// Whether the calendar holds the instant.
pub open spec fn representable(instant: int) -> bool {
    FIRST_INSTANT <= instant <= LAST_INSTANT
}

/// `instant` moved by so many seconds, where the calendar holds both ends.
pub open spec fn moved(instant: i128, seconds: i64) -> Option<i128> {
    let sum = instant + seconds * NANOSECONDS_PER_SECOND;
    if representable(instant as int) && representable(sum) {
        Some(sum as i128)
    } else {
        None
    }
}

/// `DateTime::checked_add_signed` of chrono, on an instant in seconds and the
/// nanoseconds of the last one: `span` seconds are added, or nothing comes out
/// where either end lies outside the years -262143 to 262142. The spans that
/// `TimeDelta::try_seconds` refuses reach from no instant of these to another.
#[verifier::external_body]
fn checked_add_signed(seconds: i64, nanoseconds: u32, span: i64) -> (sum: Option<(i64, u32)>)
    requires
        nanoseconds < 1_000_000_000,
    ensures
        sum == (if FIRST_SECOND <= seconds <= LAST_SECOND && FIRST_SECOND <= seconds + span
            <= LAST_SECOND {
            Some(((seconds + span) as i64, nanoseconds))
        } else {
            None
        }),
{
    let start = chrono::DateTime::<chrono::Utc>::from_timestamp(seconds, nanoseconds)?;
    let sum = start.checked_add_signed(chrono::TimeDelta::try_seconds(span)?)?;
    Some((sum.timestamp(), sum.timestamp_subsec_nanos()))
}

/// `DateTime::from_timestamp_millis` of chrono: whether the calendar holds the
/// millisecond.
#[verifier::external_body]
fn from_timestamp_millis(milliseconds: i64) -> (held: Option<i64>)
    ensures
        held == (if representable(milliseconds * NANOSECONDS_PER_MILLISECOND) {
            Some(milliseconds)
        } else {
            None
        }),
{
    let held = chrono::DateTime::<chrono::Utc>::from_timestamp_millis(milliseconds)?;
    Some(held.timestamp_millis())
}

/// The instant that a number of milliseconds stands for, where the calendar
/// holds it.
pub fn instant_of(milliseconds: i64) -> (instant: Option<i128>)
    ensures
        instant == (if representable(milliseconds * NANOSECONDS_PER_MILLISECOND) {
            Some((milliseconds * NANOSECONDS_PER_MILLISECOND) as i128)
        } else {
            None
        }),
{
    match from_timestamp_millis(milliseconds) {
        Some(milliseconds) => Some((milliseconds as i128) * NANOSECONDS_PER_MILLISECOND),
        None => None,
    }
}

/// The millisecond that an instant lies in. Outside the calendar it is the last
/// number on that side.
pub open spec fn millisecond_of(instant: i128) -> i64 {
    if instant < FIRST_INSTANT {
        i64::MIN
    } else if instant > LAST_INSTANT {
        i64::MAX
    } else {
        (instant as int / NANOSECONDS_PER_MILLISECOND as int) as i64
    }
}

pub fn milliseconds(instant: i128) -> (milliseconds: i64)
    ensures
        milliseconds == millisecond_of(instant),
{
    if instant < FIRST_INSTANT {
        return i64::MIN;
    }
    if instant > LAST_INSTANT {
        return i64::MAX;
    }
    let since: u128 = (instant - FIRST_INSTANT) as u128;
    FIRST_MILLISECOND + (since / 1_000_000) as i64
}

/// An instant is no earlier than the millisecond that it lies in, and less than
/// a millisecond later.
pub proof fn a_millisecond_holds_its_instants(instant: i128)
    requires
        representable(instant as int),
    ensures
        representable(millisecond_of(instant) * NANOSECONDS_PER_MILLISECOND),
        millisecond_of(instant) * NANOSECONDS_PER_MILLISECOND <= instant,
        instant < (millisecond_of(instant) + 1) * NANOSECONDS_PER_MILLISECOND,
{
}

/// `instant` moved by so many seconds, or `fallback` where the calendar ends before.
pub open spec fn moved_or(instant: i128, seconds: i64, fallback: i128) -> i128 {
    match moved(instant, seconds) {
        Some(sum) => sum,
        None => fallback,
    }
}

/// `instant` moved by so many seconds, or `fallback` where the calendar ends before.
pub fn move_or(instant: i128, seconds: i64, fallback: i128) -> (sum: i128)
    ensures
        sum == moved_or(instant, seconds, fallback),
{
    if instant < FIRST_INSTANT || instant > LAST_INSTANT {
        return fallback;
    }
    let since: u128 = (instant - FIRST_INSTANT) as u128;
    let second: i64 = FIRST_SECOND + (since / 1_000_000_000) as i64;
    let rest: u32 = (since % 1_000_000_000) as u32;
    proof {
        assert(instant == second * NANOSECONDS_PER_SECOND + rest);
    }
    match checked_add_signed(second, rest, seconds) {
        Some((second, rest)) => (second as i128) * NANOSECONDS_PER_SECOND + (rest as i128),
        None => fallback,
    }
}

/// The deadline that follows the last completed backup: one interval after it,
/// and now where there was none or the calendar ends before.
pub open spec fn deadline_after(last_success: Option<i128>, now: i128, interval_hours: u32) -> i128 {
    match last_success {
        Some(success) => moved_or(success, (interval_hours * SECONDS_PER_HOUR) as i64, now),
        None => now,
    }
}

pub fn completion_deadline(last_success: Option<i128>, now: i128, interval_hours: u32) -> (deadline:
    i128)
    ensures
        deadline == deadline_after(last_success, now, interval_hours),
{
    match last_success {
        Some(success) => move_or(success, (interval_hours as i64) * SECONDS_PER_HOUR, now),
        None => now,
    }
}

} // verus!
