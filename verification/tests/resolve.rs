//! Tests of the target resolver: calendar validity, timezone lookup,
//! defaulting from the current-time snapshot, and the rendering of
//! resolution errors.

use countdown::args::{Args, ResolveError};
use countdown::calendar::{check_ymd, CalendarDate, ClockTime};
use countdown::fmt::{dec_string, pad2_string, pad4_string, year_string};
use countdown::helpers::{get_system_timezone, tz_from_name};
use countdown::stamp::{wall_clock_string, Stamp};

fn utc_now_stamp() -> Stamp {
    // 2024-01-01T00:00:00 UTC
    Stamp {
        epoch_millis: 1_704_067_200_000,
        year: 2024,
        month: 1,
        day: 1,
        hour: 0,
        minute: 0,
        second: 0,
        zone_abbrev: "UTC".to_string(),
    }
}

fn args_with(date: Option<CalendarDate>, time: Option<ClockTime>, zone: Option<&str>) -> Args {
    Args {
        date,
        time,
        zone: zone.map(|z| z.to_string()),
        verbose: false,
        continuous: false,
        overwrite: false,
    }
}

#[test]
fn calendar_validity() {
    assert!(check_ymd(2024, 2, 29));
    assert!(!check_ymd(2023, 2, 29));
    assert!(!check_ymd(1900, 2, 29));
    assert!(check_ymd(2000, 2, 29));
    assert!(check_ymd(2024, 12, 31));
    assert!(!check_ymd(2024, 4, 31));
    assert!(!check_ymd(2024, 0, 1));
    assert!(!check_ymd(2024, 13, 1));
    assert!(!check_ymd(2024, 1, 0));
    assert!(!check_ymd(-1, 1, 1));
    assert!(!check_ymd(10000, 1, 1));
}

#[test]
fn decimal_rendering() {
    assert_eq!(dec_string(0), "0");
    assert_eq!(dec_string(7), "7");
    assert_eq!(dec_string(12345), "12345");
    assert_eq!(pad2_string(0), "00");
    assert_eq!(pad2_string(7), "07");
    assert_eq!(pad2_string(59), "59");
    assert_eq!(pad4_string(42), "0042");
    assert_eq!(pad4_string(2024), "2024");
    assert_eq!(pad4_string(12345), "12345");
    assert_eq!(year_string(-42), "-0042");
    assert_eq!(year_string(0), "0000");
}

#[test]
fn wall_clock_rendering() {
    let s = utc_now_stamp();
    assert_eq!(wall_clock_string(&s), "2024-01-01 00:00:00 (UTC)");
}

#[test]
fn known_timezone_parses() {
    assert!(tz_from_name("UTC".to_string()).is_ok());
    assert!(tz_from_name("Europe/Berlin".to_string()).is_ok());
}

#[test]
fn system_timezone_lookup_reports_timezone_errors() {
    match get_system_timezone() {
        Ok(_) => {}
        Err(e) => assert!(e.message().contains("timezone")),
    }
}

#[test]
fn unknown_timezone_is_reported_with_its_name() {
    match tz_from_name("Not/AZone".to_string()) {
        Err(ResolveError::TimezoneInvalid(name)) => assert_eq!(name, "Not/AZone"),
        _ => panic!("expected a TimezoneInvalid error"),
    }
}

#[test]
fn error_messages_name_the_timezone_problem() {
    let unavailable = ResolveError::TimezoneUnavailable.message();
    assert_eq!(unavailable, "Failed to get system timezone");
    assert!(unavailable.contains("timezone"));
    let invalid = ResolveError::TimezoneInvalid("Not/AZone".to_string()).message();
    assert_eq!(invalid, "Failed to parse timezone Not/AZone");
    assert!(invalid.contains("timezone"));
}

#[test]
fn explicit_target_resolves_to_the_expected_instant() {
    let now = utc_now_stamp();
    let args = args_with(
        Some(CalendarDate { year: 2024, month: 1, day: 2 }),
        Some(ClockTime { hour: 1, minute: 2, second: 3 }),
        Some("UTC"),
    );
    let target = args.resolve_with(&now).expect("a UTC target must resolve");
    // 2024-01-02T01:02:03 UTC
    assert_eq!(target.epoch_millis, 1_704_157_323_000);
    assert_eq!(target.year, 2024);
    assert_eq!(target.month, 1);
    assert_eq!(target.day, 2);
    assert_eq!(target.hour, 1);
    assert_eq!(target.minute, 2);
    assert_eq!(target.second, 3);
    assert_eq!(target.zone_abbrev, "UTC");
}

#[test]
fn absent_inputs_default_to_the_snapshot() {
    let now = utc_now_stamp();
    let args = args_with(None, None, Some("UTC"));
    let target = args.resolve_with(&now).expect("the snapshot's own instant must resolve");
    assert_eq!(target.epoch_millis, now.epoch_millis);
    assert_eq!(target.year, 2024);
    assert_eq!(target.month, 1);
    assert_eq!(target.day, 1);
}

#[test]
fn unknown_zone_fails_resolution() {
    let now = utc_now_stamp();
    let args = args_with(None, None, Some("Moon/Tycho"));
    match args.resolve_with(&now) {
        Err(ResolveError::TimezoneInvalid(name)) => assert_eq!(name, "Moon/Tycho"),
        _ => panic!("expected a TimezoneInvalid error"),
    }
}

#[test]
fn daylight_saving_gap_is_rejected() {
    // 02:30 on 2024-03-31 does not exist in Europe/Berlin.
    let now = utc_now_stamp();
    let args = args_with(
        Some(CalendarDate { year: 2024, month: 3, day: 31 }),
        Some(ClockTime { hour: 2, minute: 30, second: 0 }),
        Some("Europe/Berlin"),
    );
    assert!(matches!(args.resolve_with(&now), Err(ResolveError::LocalTimeInvalid)));
}

#[test]
fn ambiguous_local_time_takes_the_earlier_offset() {
    // 02:30 on 2024-10-27 occurs twice in Europe/Berlin; the earlier
    // offset is CEST (+02:00), i.e. 00:30 UTC.
    let now = utc_now_stamp();
    let args = args_with(
        Some(CalendarDate { year: 2024, month: 10, day: 27 }),
        Some(ClockTime { hour: 2, minute: 30, second: 0 }),
        Some("Europe/Berlin"),
    );
    let target = args.resolve_with(&now).expect("an ambiguous time must still resolve");
    assert_eq!(target.epoch_millis, 1_729_989_000_000);
}
