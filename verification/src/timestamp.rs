//! Points in time as plain integers, and the calendar work that is left to chrono.

use chrono::{DateTime, NaiveDateTime, Timelike, Utc};
use vstd::prelude::*;

verus! {

/// Nanoseconds in one second.
pub const NANOS_PER_SECOND: u32 = 1_000_000_000;

/// Seconds in one day.
pub const SECONDS_PER_DAY: i64 = 86_400;

/// Unix time of the earliest date-time chrono can hold (midnight of January 1, 262144 BCE).
pub const MIN_SECONDS: i64 = -8_334_601_228_800;

/// Unix time of the last second chrono can hold (23:59:59 on December 31, 262142 CE).
pub const MAX_SECONDS: i64 = 8_210_266_876_799;

/// A date-time without zone, in chrono's own terms: whole non-leap seconds since
/// 1970-01-01 00:00:00 and the nanoseconds past that second.
///
/// A value of one second or more in `nanos` stands for a leap second, as it does in chrono.
#[derive(Clone, Copy, Debug, PartialEq, Eq, Structural)]
pub struct Timestamp {
    pub secs: i64,
    pub nanos: u32,
}

impl Timestamp {
    /// The values that chrono can hold as a `NaiveDateTime`.
    pub open spec fn wf(self) -> bool {
        &&& MIN_SECONDS <= self.secs <= MAX_SECONDS
        &&& self.nanos < 2 * NANOS_PER_SECOND
    }

    /// Strict "later than": by seconds, then by nanoseconds.
    pub open spec fn spec_is_after(self, other: Timestamp) -> bool {
        self.secs > other.secs || (self.secs == other.secs && self.nanos > other.nanos)
    }

    /// The second of its day, from 0 to 86399.
    pub open spec fn second_of_day(self) -> int {
        self.secs as int % SECONDS_PER_DAY as int
    }

    /// The timestamp of the two parts, where chrono can hold it.
    pub open spec fn spec_new(secs: i64, nanos: u32) -> Option<Timestamp> {
        let made = Timestamp { secs, nanos };
        if made.wf() {
            Some(made)
        } else {
            None
        }
    }

    /// A timestamp from its two parts, where chrono can hold it.
    pub fn new(secs: i64, nanos: u32) -> (made: Option<Timestamp>)
        ensures
            made == Timestamp::spec_new(secs, nanos),
    {
        if MIN_SECONDS <= secs && secs <= MAX_SECONDS && nanos < 2 * NANOS_PER_SECOND {
            Some(Timestamp { secs, nanos })
        } else {
            None
        }
    }

    /// Whether `self` is strictly later than `other`.
    pub fn is_after(&self, other: &Timestamp) -> (later: bool)
        ensures
            later == self.spec_is_after(*other),
    {
        self.secs > other.secs || (self.secs == other.secs && self.nanos > other.nanos)
    }
}

/// The correction for leap seconds that chrono makes on the two times of day when it
/// takes a difference: one second more where `earlier` is a leap second and the time of
/// day of `later` comes after it, one second less where `later` is a leap second and
/// the time of day of `earlier` comes after it.
pub open spec fn leap_adjustment(later: Timestamp, earlier: Timestamp) -> int {
    if later.second_of_day() > earlier.second_of_day() && earlier.nanos >= NANOS_PER_SECOND {
        1
    } else if later.second_of_day() < earlier.second_of_day() && later.nanos >= NANOS_PER_SECOND {
        -1
    } else {
        0
    }
}

/// Nanoseconds from `earlier` to `later` as chrono counts them, negative where `later`
/// comes first.
pub open spec fn elapsed_nanos(later: Timestamp, earlier: Timestamp) -> int {
    (later.secs - earlier.secs + leap_adjustment(later, earlier)) * NANOS_PER_SECOND
        + (later.nanos - earlier.nanos)
}

/// A count of nanoseconds cut down to whole seconds, towards zero.
pub open spec fn whole_seconds(nanos: int) -> int {
    if nanos >= 0 {
        nanos / NANOS_PER_SECOND as int
    } else {
        -((-nanos) / NANOS_PER_SECOND as int)
    }
}

/// Whole seconds from `earlier` to `later`.
pub open spec fn seconds_between(later: Timestamp, earlier: Timestamp) -> int {
    whole_seconds(elapsed_nanos(later, earlier))
}

/// What `NaiveDateTime::parse_from_str` makes of `text` under `format`.
pub uninterp spec fn parsed_datetime(text: Seq<char>, format: Seq<char>) -> Option<Timestamp>;

/// `chrono::Utc::now`, as seconds and nanoseconds since the epoch.
///
/// Trusted: the result is a date-time that chrono can hold and is no leap second (chrono
/// builds it from the system clock's duration since the epoch, whose nanoseconds stay
/// under one second). Nothing is said of which time it is. chrono panics where the system
/// clock stands before 1970.
#[verifier::external_body]
pub(crate) fn utc_now() -> (now: Timestamp)
    ensures
        now.wf(),
        now.nanos < NANOS_PER_SECOND,
{
    let now = Utc::now();
    Timestamp { secs: now.timestamp(), nanos: now.timestamp_subsec_nanos() }
}

/// `chrono::NaiveDateTime::parse_from_str`.
///
/// Trusted: the outcome depends on the two strings alone, and a parsed date-time is one
/// that chrono can hold. A failed parse comes back as `None`.
#[verifier::external_body]
pub(crate) fn parse_datetime(text: &str, format: &str) -> (parsed: Option<Timestamp>)
    ensures
        parsed == parsed_datetime(text@, format@),
        parsed matches Some(t) ==> t.wf(),
{
    match NaiveDateTime::parse_from_str(text, format) {
        Ok(t) => {
            let utc = t.and_utc();
            Some(Timestamp { secs: utc.timestamp(), nanos: utc.timestamp_subsec_nanos() })
        },
        Err(_) => None,
    }
}

/// `chrono::NaiveDateTime::signed_duration_since` (the `-` of two date-times), read in
/// whole seconds by `TimeDelta::num_seconds`.
///
/// Trusted: chrono takes the difference of the two instants in nanoseconds, corrected
/// for leap seconds as `leap_adjustment` says, and `num_seconds` cuts it to whole
/// seconds towards zero. Both timestamps must be date-times that chrono can hold, or the
/// way back into chrono's own type would fail.
#[verifier::external_body]
pub(crate) fn whole_seconds_between(later: Timestamp, earlier: Timestamp) -> (seconds: i64)
    requires
        later.wf(),
        earlier.wf(),
    ensures
        seconds == seconds_between(later, earlier),
{
    let a = DateTime::from_timestamp(later.secs, 0).unwrap().naive_utc();
    let b = DateTime::from_timestamp(earlier.secs, 0).unwrap().naive_utc();
    let a = a.with_nanosecond(later.nanos).unwrap();
    let b = b.with_nanosecond(earlier.nanos).unwrap();
    a.signed_duration_since(b).num_seconds()
}

} // verus!
