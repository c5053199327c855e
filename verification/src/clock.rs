//! The boundary to the date/time libraries: reading the current local
//! time, looking a timezone up by name, and mapping local wall-clock
//! fields to an absolute instant in a timezone. Everything else in the
//! library works on the plain values these functions hand back.

use vstd::prelude::*;
use crate::calendar;
use crate::stamp::Stamp;

verus! {

#[verifier::external_type_specification]
#[verifier::external_body]
pub struct ExTz(chrono_tz::Tz);

/// Whether a name denotes a timezone of the IANA database that the
/// timezone library was compiled with.
pub uninterp spec fn tz_known(name: Seq<char>) -> bool;

/// Relies on chrono-tz's `FromStr` for `Tz`: a lookup of the name in the
/// compiled-in table of timezones, a function of the string alone.
#[verifier::external_body]
pub(crate) fn parse_tz(name: &str) -> (r: Option<chrono_tz::Tz>)
    ensures
        r is Some <==> tz_known(name@),
{
    <chrono_tz::Tz as core::str::FromStr>::from_str(name).ok()
}

/// Relies on iana-time-zone's `get_timezone`: asks the operating system
/// for its configured timezone name. The outcome depends on the
/// environment, so nothing is promised of it.
#[verifier::external_body]
pub(crate) fn system_timezone_name() -> (r: Option<String>) {
    iana_time_zone::get_timezone().ok()
}

/// What attaching the named timezone to local wall-clock fields yields:
/// the milliseconds since the Unix epoch of the *earliest* instant whose
/// local rendering in that zone is the given fields (so a local time
/// that a daylight-saving fall-back makes ambiguous takes the earlier
/// of its two offsets), and `None` where no such instant exists (a
/// spring-forward gap). A function of the compiled-in timezone database
/// alone, so of its arguments alone.
pub uninterp spec fn instant_of(
    zone: Seq<char>,
    y: int,
    m: int,
    d: int,
    h: int,
    mi: int,
    s: int,
) -> Option<int>;

/// Whether the given local wall-clock fields denote at least one
/// instant of the named timezone.
pub open spec fn local_time_exists(
    zone: Seq<char>,
    y: int,
    m: int,
    d: int,
    h: int,
    mi: int,
    s: int,
) -> bool {
    instant_of(zone, y, m, d, h, mi, s) is Some
}

/// Relies on chrono's `Local::now` and its accessors: `timestamp_millis`
/// is the instant in milliseconds since the Unix epoch, the other fields
/// are the local calendar date (`year`, `month` in 1..=12, `day` in
/// 1..=31) and time of day (`hour` below 24, `minute` and `second` below
/// 60), and `%Z` renders the local zone as an offset or abbreviation,
/// which never holds a newline. The instant itself depends on the wall
/// clock, so only these field facts are promised.
#[verifier::external_body]
pub fn now_stamp() -> (r: Stamp)
    ensures
        r.wf(),
        crate::fmt::single_line(r.zone_abbrev@),
{
    let now = chrono::Local::now();
    Stamp {
        epoch_millis: now.timestamp_millis(),
        year: chrono::Datelike::year(&now),
        month: chrono::Datelike::month(&now),
        day: chrono::Datelike::day(&now),
        hour: chrono::Timelike::hour(&now),
        minute: chrono::Timelike::minute(&now),
        second: chrono::Timelike::second(&now),
        zone_abbrev: now.format("%Z").to_string(),
    }
}

/// Relies on chrono-tz's `FromStr` for `Tz`, chrono's
/// `NaiveDate::from_ymd_opt`, `NaiveTime::from_hms_opt` and
/// `NaiveDateTime::new`, and chrono-tz's offset lookup through
/// `and_local_timezone` with `earliest`: attaches the named timezone to
/// the given local wall-clock fields. `instant_of` names the outcome,
/// which depends only on the arguments and the compiled-in timezone
/// database; the `%Z` rendering of the zone is an offset or
/// abbreviation and never holds a newline. The result fits an `i64`
/// because the zone-supported years (at most four digits here) stay far
/// inside the millisecond range.
#[verifier::external_body]
pub(crate) fn zoned_stamp(zone: &str, y: i32, m: u32, d: u32, h: u32, mi: u32, s: u32) -> (r:
    Option<Stamp>)
    requires
        tz_known(zone@),
        calendar::valid_ymd(y as int, m as int, d as int),
        calendar::valid_hms(h as int, mi as int, s as int),
    ensures
        r is Some <==> local_time_exists(
            zone@,
            y as int,
            m as int,
            d as int,
            h as int,
            mi as int,
            s as int,
        ),
        r matches Some(t) ==> {
            &&& Some(t.epoch_millis as int) == instant_of(
                zone@,
                y as int,
                m as int,
                d as int,
                h as int,
                mi as int,
                s as int,
            )
            &&& t.year == y && t.month == m && t.day == d && t.hour == h && t.minute == mi
                && t.second == s
            &&& t.wf()
            &&& crate::fmt::single_line(t.zone_abbrev@)
        },
{
    let tz = <chrono_tz::Tz as core::str::FromStr>::from_str(zone).ok()?;
    let date = chrono::NaiveDate::from_ymd_opt(y, m, d)?;
    let time = chrono::NaiveTime::from_hms_opt(h, mi, s)?;
    let zoned = chrono::NaiveDateTime::new(date, time).and_local_timezone(tz).earliest()?;
    Some(Stamp {
        epoch_millis: zoned.timestamp_millis(),
        year: y,
        month: m,
        day: d,
        hour: h,
        minute: mi,
        second: s,
        zone_abbrev: zoned.format("%Z").to_string(),
    })
}

} // verus!
