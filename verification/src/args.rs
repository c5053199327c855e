//! The resolved program inputs and the target resolver: optional date,
//! time and timezone, each defaulting to the corresponding component of
//! the current local time, combined into one timezone-aware target
//! instant.

use vstd::prelude::*;
use crate::calendar;
use crate::calendar::{CalendarDate, ClockTime};
use crate::clock;
use crate::stamp::Stamp;

verus! {

/// Why a target could not be resolved.
#[derive(Debug)]
pub enum ResolveError {
    /// The operating system reported no timezone.
    TimezoneUnavailable,
    /// The named timezone is not in the timezone database; carries the
    /// offending name.
    TimezoneInvalid(String),
    /// The combined date and time do not denote an instant of the target
    /// timezone: the date is not a valid calendar date, or the local time
    /// falls in a daylight-saving gap of the zone.
    LocalTimeInvalid,
}

impl ResolveError {
    /// The user-facing description of the error.
    pub fn message(self) -> (r: String)
        ensures
            self is TimezoneUnavailable ==> r@ == "Failed to get system timezone"@,
            self matches ResolveError::TimezoneInvalid(n) ==> r@ == "Failed to parse timezone "@
                + n@,
            self is LocalTimeInvalid ==> r@ == "Failed to resolve the target time in its timezone"@,
    {
        match self {
            ResolveError::TimezoneUnavailable => String::from_str("Failed to get system timezone"),
            ResolveError::TimezoneInvalid(n) => {
                let mut s = String::from_str("Failed to parse timezone ");
                s.append(n.as_str());
                s
            },
            ResolveError::LocalTimeInvalid => String::from_str(
                "Failed to resolve the target time in its timezone",
            ),
        }
    }
}

/// The program's inputs once parsed: the optional target overrides and
/// the display flags.
pub struct Args {
    /// The date to use for the target time; `None` means the current
    /// local date.
    pub date: Option<CalendarDate>,
    /// The time to use for the target time; `None` means the current
    /// local time.
    pub time: Option<ClockTime>,
    /// The timezone to use for the target time; `None` means the system
    /// timezone.
    pub zone: Option<String>,
    /// Print current time and target time above the remaining time.
    pub verbose: bool,
    /// Print the remaining time every second.
    pub continuous: bool,
    /// In continuous mode, overwrite the previous line instead of
    /// printing a new one.
    pub overwrite: bool,
}

impl Args {
    /// The overrides that are present are well-formed.
    pub open spec fn wf(self) -> bool {
        &&& (self.date matches Some(d) ==> d.wf())
        &&& (self.time matches Some(t) ==> t.wf())
    }

    /// The target date: the given one, or the current local date.
    pub open spec fn chosen_date(self, now: Stamp) -> (int, int, int) {
        match self.date {
            Some(d) => (d.year as int, d.month as int, d.day as int),
            None => (now.year as int, now.month as int, now.day as int),
        }
    }

    /// The target time of day: the given one, or the current local time.
    pub open spec fn chosen_time(self, now: Stamp) -> (int, int, int) {
        match self.time {
            Some(t) => (t.hour as int, t.minute as int, t.second as int),
            None => (now.hour as int, now.minute as int, now.second as int),
        }
    }

    /// Resolve the target against the current local time.
    pub fn get_target(&self) -> (r: Result<Stamp, ResolveError>)
        requires
            self.wf(),
        ensures
            r matches Ok(t) ==> t.wf() && crate::fmt::single_line(t.zone_abbrev@)
                && calendar::valid_ymd(t.year as int, t.month as int, t.day as int),
            r is Ok && self.date is Some ==> (
                r->Ok_0.year as int,
                r->Ok_0.month as int,
                r->Ok_0.day as int,
            ) == (
                self.date->Some_0.year as int,
                self.date->Some_0.month as int,
                self.date->Some_0.day as int,
            ),
            r is Ok && self.time is Some ==> (
                r->Ok_0.hour as int,
                r->Ok_0.minute as int,
                r->Ok_0.second as int,
            ) == (
                self.time->Some_0.hour as int,
                self.time->Some_0.minute as int,
                self.time->Some_0.second as int,
            ),
            r matches Ok(t) ==> exists|zn: Seq<char>|
                #![auto]
                {
                    &&& clock::tz_known(zn)
                    &&& (self.zone is Some ==> zn == self.zone->Some_0@)
                    &&& Some(t.epoch_millis as int) == clock::instant_of(
                        zn,
                        t.year as int,
                        t.month as int,
                        t.day as int,
                        t.hour as int,
                        t.minute as int,
                        t.second as int,
                    )
                },
            self.zone is Some && self.date is Some && self.time is Some ==> (r is Ok <==> {
                &&& clock::tz_known(self.zone->Some_0@)
                &&& calendar::valid_ymd(
                    self.date->Some_0.year as int,
                    self.date->Some_0.month as int,
                    self.date->Some_0.day as int,
                )
                &&& clock::local_time_exists(
                    self.zone->Some_0@,
                    self.date->Some_0.year as int,
                    self.date->Some_0.month as int,
                    self.date->Some_0.day as int,
                    self.time->Some_0.hour as int,
                    self.time->Some_0.minute as int,
                    self.time->Some_0.second as int,
                )
            }),
            self.zone is Some && !clock::tz_known(self.zone->Some_0@) ==> (r matches Err(e) && (
            e matches ResolveError::TimezoneInvalid(n) && n@ == self.zone->Some_0@)),
            self.zone is Some && clock::tz_known(self.zone->Some_0@) ==> !(r matches Err(e) && (
            e is TimezoneUnavailable || e is TimezoneInvalid)),
            self.zone is Some ==> !(r matches Err(e) && e is TimezoneUnavailable),
    {
        let now = clock::now_stamp();
        self.resolve_with(&now)
    }

    /// Resolve the target against a given snapshot of the current local
    /// time: fill the absent inputs from the snapshot, look the timezone
    /// up by name, and attach it to the combined date and time. The
    /// resolved instant is `instant_of` the zone name and the chosen
    /// fields, so an ambiguous local time takes the earlier offset.
    pub fn resolve_with(&self, now: &Stamp) -> (r: Result<Stamp, ResolveError>)
        requires
            self.wf(),
            now.wf(),
        ensures
            r matches Ok(t) ==> {
                &&& t.wf()
                &&& crate::fmt::single_line(t.zone_abbrev@)
                &&& (t.year as int, t.month as int, t.day as int) == self.chosen_date(*now)
                &&& (t.hour as int, t.minute as int, t.second as int) == self.chosen_time(*now)
                &&& calendar::valid_ymd(
                    self.chosen_date(*now).0,
                    self.chosen_date(*now).1,
                    self.chosen_date(*now).2,
                )
            },
            r matches Ok(t) ==> exists|zn: Seq<char>|
                #![auto]
                {
                    &&& clock::tz_known(zn)
                    &&& (self.zone is Some ==> zn == self.zone->Some_0@)
                    &&& Some(t.epoch_millis as int) == clock::instant_of(
                        zn,
                        t.year as int,
                        t.month as int,
                        t.day as int,
                        t.hour as int,
                        t.minute as int,
                        t.second as int,
                    )
                },
            self.zone is Some ==> (r is Ok <==> {
                &&& clock::tz_known(self.zone->Some_0@)
                &&& calendar::valid_ymd(
                    self.chosen_date(*now).0,
                    self.chosen_date(*now).1,
                    self.chosen_date(*now).2,
                )
                &&& clock::local_time_exists(
                    self.zone->Some_0@,
                    self.chosen_date(*now).0,
                    self.chosen_date(*now).1,
                    self.chosen_date(*now).2,
                    self.chosen_time(*now).0,
                    self.chosen_time(*now).1,
                    self.chosen_time(*now).2,
                )
            }),
            self.zone is Some && !clock::tz_known(self.zone->Some_0@) ==> (r matches Err(e) && (
            e matches ResolveError::TimezoneInvalid(n) && n@ == self.zone->Some_0@)),
            self.zone is Some && clock::tz_known(self.zone->Some_0@) ==> !(r matches Err(e) && (
            e is TimezoneUnavailable || e is TimezoneInvalid)),
            self.zone is Some ==> !(r matches Err(e) && e is TimezoneUnavailable),
            !calendar::valid_ymd(
                self.chosen_date(*now).0,
                self.chosen_date(*now).1,
                self.chosen_date(*now).2,
            ) ==> r is Err,
    {
        let zone_name: String = match &self.zone {
            Some(z) => z.clone(),
            None => {
                match clock::system_timezone_name() {
                    Some(n) => n,
                    None => { return Err(ResolveError::TimezoneUnavailable) },
                }
            },
        };
        if clock::parse_tz(zone_name.as_str()).is_none() {
            return Err(ResolveError::TimezoneInvalid(zone_name));
        }
        let (y, m, d): (i32, u32, u32) = match &self.date {
            Some(cd) => (cd.year, cd.month, cd.day),
            None => (now.year, now.month, now.day),
        };
        let (h, mi, s): (u32, u32, u32) = match &self.time {
            Some(ct) => (ct.hour, ct.minute, ct.second),
            None => (now.hour, now.minute, now.second),
        };
        if !crate::calendar::check_ymd(y, m, d) {
            return Err(ResolveError::LocalTimeInvalid);
        }
        match clock::zoned_stamp(zone_name.as_str(), y, m, d, h, mi, s) {
            Some(t) => {
                proof {
                    assert(clock::tz_known(zone_name@) && Some(t.epoch_millis as int)
                        == clock::instant_of(
                        zone_name@,
                        t.year as int,
                        t.month as int,
                        t.day as int,
                        t.hour as int,
                        t.minute as int,
                        t.second as int,
                    ));
                }
                Ok(t)
            },
            None => Err(ResolveError::LocalTimeInvalid),
        }
    }
}

} // verus!
