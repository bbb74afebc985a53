//! From the server's local date and time to an instant in UTC. The time zone database,
//! and the reading of dates, are chrono's and chrono-tz's.

use crate::error::{Malformed, SessionError, SessionErrorView};
use crate::timestamp::{parse_datetime, parsed_datetime, Timestamp};
use chrono::{DateTime, TimeZone, Timelike};
use chrono_tz::Tz;
use vstd::prelude::*;
use vstd::string::*;

verus! {

/// Whether chrono-tz knows a time zone by the name `name`.
pub uninterp spec fn zone_known(name: Seq<char>) -> bool;

/// The one instant in UTC at which the clocks of `zone` show `local`; none where they
/// never show it (a gap) or show it twice (an overlap).
pub uninterp spec fn local_to_utc(zone: Seq<char>, local: Timestamp) -> Option<Timestamp>;

/// The form in which the server writes an expiry.
pub open spec fn expiry_format() -> Seq<char> {
    "%Y-%m-%d %H:%M:%S"@
}

/// The zone in which an expiry is read where the caller names none.
pub open spec fn default_zone() -> Seq<char> {
    "UTC"@
}

/// The expiry, given what became of its three steps: `parsed` is the text read as a
/// date and time, `known` says whether the zone exists, and `placed` is the local time
/// placed in the zone.
///
/// The first step that failed decides the error: a text that is no date and time is a
/// parse error, then an unknown zone is refused, then a local time without exactly one
/// instant is ambiguous.
pub open spec fn expiry_given(
    text: Seq<char>,
    zone: Seq<char>,
    parsed: Option<Timestamp>,
    known: bool,
    placed: Option<Timestamp>,
) -> Result<Timestamp, SessionErrorView> {
    if parsed is None {
        Err(SessionErrorView::Parse { part: Malformed::ExpiresAt, detail: text })
    } else if !known {
        Err(SessionErrorView::InvalidTimezone { name: zone })
    } else {
        match placed {
            None => Err(SessionErrorView::AmbiguousLocalTime { local: text, zone }),
            Some(utc) => Ok(utc),
        }
    }
}

/// The local time of a parsed expiry placed in a zone, where there is both a time and
/// a zone to place it in.
pub open spec fn placed_in(zone: Seq<char>, parsed: Option<Timestamp>) -> Option<Timestamp> {
    match parsed {
        Some(local) if zone_known(zone) => local_to_utc(zone, local),
        _ => None,
    }
}

/// The instant in UTC that the server's `text` names in `zone`.
pub open spec fn expiry_of(text: Seq<char>, zone: Seq<char>) -> Result<
    Timestamp,
    SessionErrorView,
> {
    expiry_given(
        text,
        zone,
        parsed_datetime(text, expiry_format()),
        zone_known(zone),
        placed_in(zone, parsed_datetime(text, expiry_format())),
    )
}

/// A resolved expiry over sequences of characters.
pub open spec fn expiry_view(result: Result<Timestamp, SessionError>) -> Result<
    Timestamp,
    SessionErrorView,
> {
    match result {
        Ok(utc) => Ok(utc),
        Err(error) => Err(error@),
    }
}

/// `chrono_tz::Tz::from_str`, through `str::parse`.
///
/// Trusted: whether a name is one of the zones depends on the name alone (chrono-tz
/// looks it up in a table that is part of the crate).
#[verifier::external_body]
fn is_known_zone(name: &str) -> (known: bool)
    ensures
        known == zone_known(name@),
{
    name.parse::<Tz>().is_ok()
}

/// `chrono::TimeZone::from_local_datetime` for a zone of chrono-tz, narrowed by
/// `single` to the case of exactly one answer.
///
/// Trusted: the answer depends on the zone's name and the local time alone, and an
/// instant that comes back is one that chrono can hold. The zone must be known and the
/// local time one that chrono can hold, or the way into chrono's own types would fail.
#[verifier::external_body]
fn resolve_local(zone: &str, local: Timestamp) -> (utc: Option<Timestamp>)
    requires
        zone_known(zone@),
        local.wf(),
    ensures
        utc == local_to_utc(zone@, local),
        utc matches Some(t) ==> t.wf(),
{
    let tz: Tz = zone.parse().unwrap();
    let naive = DateTime::from_timestamp(local.secs, 0).unwrap().naive_utc();
    let naive = naive.with_nanosecond(local.nanos).unwrap();
    match tz.from_local_datetime(&naive).single() {
        Some(t) => Some(Timestamp { secs: t.timestamp(), nanos: t.timestamp_subsec_nanos() }),
        None => None,
    }
}

/// Decides on the expiry once its three steps have been taken: see `expiry_given`.
pub fn expiry_from(
    text: &str,
    zone: &str,
    parsed: Option<Timestamp>,
    known: bool,
    placed: Option<Timestamp>,
) -> (result: Result<Timestamp, SessionError>)
    ensures
        expiry_view(result) == expiry_given(text@, zone@, parsed, known, placed),
{
    if parsed.is_none() {
        Err(SessionError::Parse { part: Malformed::ExpiresAt, detail: String::from_str(text) })
    } else if !known {
        Err(SessionError::InvalidTimezone { name: String::from_str(zone) })
    } else {
        match placed {
            None => Err(
                SessionError::AmbiguousLocalTime {
                    local: String::from_str(text),
                    zone: String::from_str(zone),
                },
            ),
            Some(utc) => Ok(utc),
        }
    }
}

/// Reads the server's expiry `text` as a local time of `zone` and gives the instant in
/// UTC.
pub fn resolve_expiry(text: &str, zone: &str) -> (result: Result<Timestamp, SessionError>)
    ensures
        expiry_view(result) == expiry_of(text@, zone@),
        result matches Ok(utc) ==> utc.wf(),
{
    let parsed = parse_datetime(text, "%Y-%m-%d %H:%M:%S");
    let known = is_known_zone(zone);
    let placed = match parsed {
        Some(local) => if known {
            resolve_local(zone, local)
        } else {
            None
        },
        None => None,
    };
    expiry_from(text, zone, parsed, known, placed)
}

} // verus!
