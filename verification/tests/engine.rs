//! Tests of the countdown engine: decomposition, the remaining-time
//! string, the next-refresh delay, and the display decisions.

use countdown::display::{plan_single_shot, plan_tick, RenderStep};
use countdown::helpers::divmod;
use countdown::stamp::Stamp;
use countdown::time_from_now::{decompose, TimeFromNow};

fn utc_stamp(epoch_millis: i64, y: i32, mo: u32, d: u32, h: u32, mi: u32, s: u32) -> Stamp {
    Stamp {
        epoch_millis,
        year: y,
        month: mo,
        day: d,
        hour: h,
        minute: mi,
        second: s,
        zone_abbrev: "UTC".to_string(),
    }
}

fn step_text(step: &RenderStep) -> String {
    match step {
        RenderStep::Line(s) => s.clone(),
        RenderStep::Bare(s) => s.clone(),
        RenderStep::InPlace(s) => s.clone(),
    }
}

#[test]
fn divmod_splits_quotient_and_remainder() {
    assert_eq!(divmod(7, 3), (2, 1));
    assert_eq!(divmod(0, 5), (0, 0));
    assert_eq!(divmod(86_400_000, 86_400_000), (1, 0));
}

#[test]
fn divmod_truncates_toward_zero() {
    assert_eq!(divmod(-7, 3), (-2, -1));
    assert_eq!(divmod(7, -3), (-2, 1));
    assert_eq!(divmod(-7, -3), (2, -1));
    assert_eq!(divmod(i64::MIN, 2), (i64::MIN / 2, 0));
    assert_eq!(divmod(i64::MIN, -2), (-(i64::MIN / 2), 0));
    assert_eq!(divmod(i64::MIN, 1), (i64::MIN, 0));
}

#[test]
fn from_computes_a_tick_against_the_wall_clock() {
    // A target far in the past still yields a tick: `from` may fail only
    // when the distance to now overflows i64 milliseconds.
    let target = utc_stamp(0, 1970, 1, 1, 0, 0, 0);
    let r = TimeFromNow::from(&target).expect("an epoch target must yield a tick");
    assert!(r.time_remaining.starts_with('-'));
    assert!(1 <= r.millis && r.millis <= 1000);
    assert_eq!(r.time_target, "Target: 1970-01-01 00:00:00 (UTC)");
}

#[test]
fn tick_rejects_only_an_overflowing_distance() {
    let now = utc_stamp(0, 1970, 1, 1, 0, 0, 0);
    let target = utc_stamp(1_704_067_200_000, 2024, 1, 1, 0, 0, 0);
    let r = TimeFromNow::tick(&target, &now).expect("an in-range distance must yield a tick");
    assert_eq!(r.time_remaining, "19723 days 00:00:00");
    let far = utc_stamp(i64::MAX, 2024, 1, 1, 0, 0, 0);
    let behind = utc_stamp(-2, 1969, 12, 31, 23, 59, 59);
    assert!(TimeFromNow::tick(&far, &behind).is_err());
}

#[test]
fn decompose_counts_down() {
    let b = decompose(90_123_456);
    assert!(!b.negative);
    assert_eq!(b.days, 1);
    assert_eq!(b.hours, 1);
    assert_eq!(b.minutes, 2);
    assert_eq!(b.seconds, 3);
    assert_eq!(b.subsec_millis, 456);
    assert_eq!(b.next_delay_millis, 457);
}

#[test]
fn decompose_counts_up() {
    let b = decompose(-90_123_456);
    assert!(b.negative);
    assert_eq!(b.days, 1);
    assert_eq!(b.hours, 1);
    assert_eq!(b.minutes, 2);
    assert_eq!(b.seconds, 3);
    assert_eq!(b.subsec_millis, 456);
    assert_eq!(b.next_delay_millis, 544);
}

#[test]
fn decomposition_reconstructs_magnitude() {
    for delta in [0i64, 1, 999, 1000, 59_999, 3_599_999, 86_399_999, 90_123_456, -90_123_456] {
        let b = decompose(delta);
        let magnitude = delta.abs();
        let reconstructed =
            (((b.days * 24 + b.hours) * 60 + b.minutes) * 60 + b.seconds) * 1000;
        assert!(reconstructed <= magnitude);
        assert!(magnitude < reconstructed + 1000);
        assert_eq!(reconstructed + b.subsec_millis, magnitude);
    }
}

#[test]
fn next_delay_is_positive_and_at_most_one_second() {
    for delta in [-3_700_500i64, -2000, -1500, -1, 0, 1, 500, 999, 1000, 1500, 86_400_000] {
        let b = decompose(delta);
        assert!(1 <= b.next_delay_millis && b.next_delay_millis <= 1000);
    }
}

#[test]
fn remaining_string_counting_down() {
    // now = 2024-01-01T00:00:00 UTC, target = 2024-01-02T01:02:03 UTC
    let now = utc_stamp(1_704_067_200_000, 2024, 1, 1, 0, 0, 0);
    let target = utc_stamp(1_704_157_323_000, 2024, 1, 2, 1, 2, 3);
    let r = TimeFromNow::compute(&target, &now);
    assert_eq!(r.time_remaining, "1 days 01:02:03");
}

#[test]
fn remaining_string_counting_up() {
    // now = 2024-01-02T00:00:00 UTC, target = 2024-01-01T23:59:00 UTC
    let now = utc_stamp(1_704_153_600_000, 2024, 1, 2, 0, 0, 0);
    let target = utc_stamp(1_704_153_540_000, 2024, 1, 1, 23, 59, 0);
    let r = TimeFromNow::compute(&target, &now);
    assert_eq!(r.time_remaining, "-0 days 00:01:00");
}

#[test]
fn remaining_string_at_the_target_instant() {
    let now = utc_stamp(1_704_067_200_000, 2024, 1, 1, 0, 0, 0);
    let r = TimeFromNow::compute(&now, &now);
    assert_eq!(r.time_remaining, "0 days 00:00:00");
    assert_eq!(r.millis, 1);
}

#[test]
fn engine_is_idempotent_on_equal_inputs() {
    let now = utc_stamp(1_704_067_200_000, 2024, 1, 1, 0, 0, 0);
    let target = utc_stamp(1_704_157_323_000, 2024, 1, 2, 1, 2, 3);
    let a = TimeFromNow::compute(&target, &now);
    let b = TimeFromNow::compute(&target, &now);
    assert_eq!(a.time_remaining, b.time_remaining);
    assert_eq!(a.time_now, b.time_now);
    assert_eq!(a.time_target, b.time_target);
    assert_eq!(a.millis, b.millis);
}

#[test]
fn formatted_header_lines() {
    let now = utc_stamp(1_704_067_200_000, 2024, 1, 1, 0, 0, 0);
    let target = utc_stamp(1_704_157_323_000, 2024, 1, 2, 1, 2, 3);
    let r = TimeFromNow::compute(&target, &now);
    assert_eq!(r.time_now, "Now:    2024-01-01 00:00:00 (UTC)");
    assert_eq!(r.time_target, "Target: 2024-01-02 01:02:03 (UTC)");
    assert_eq!(
        r.formatted(true),
        "Now:    2024-01-01 00:00:00 (UTC)\nTarget: 2024-01-02 01:02:03 (UTC)\n1 days 01:02:03"
    );
}

#[test]
fn single_shot_plain_output_is_one_line() {
    let now = utc_stamp(1_704_067_200_000, 2024, 1, 1, 0, 0, 0);
    let target = utc_stamp(1_704_157_323_000, 2024, 1, 2, 1, 2, 3);
    let r = TimeFromNow::compute(&target, &now);
    let step = plan_single_shot(false, &r);
    assert!(matches!(step, RenderStep::Line(_)));
    let text = step_text(&step);
    assert_eq!(text, "1 days 01:02:03");
    assert!(!text.contains('\n'));
}

#[test]
fn continuous_verbose_prints_header_exactly_once() {
    let now = utc_stamp(1_704_067_200_000, 2024, 1, 1, 0, 0, 0);
    let target = utc_stamp(1_704_157_323_000, 2024, 1, 2, 1, 2, 3);
    let mut first = true;
    let mut outputs: Vec<String> = Vec::new();
    for _tick in 0..3 {
        let r = TimeFromNow::compute(&target, &now);
        let (step, next_first) = plan_tick(first, true, false, &r);
        assert!(matches!(step, RenderStep::Line(_)));
        outputs.push(step_text(&step));
        first = next_first;
    }
    let headers = outputs.iter().filter(|o| o.contains("Now:")).count();
    assert_eq!(headers, 1);
    assert!(outputs[0].starts_with("Now:"));
    assert!(!outputs[1].contains("Target:"));
    assert!(!outputs[2].contains("Target:"));
}

#[test]
fn overwrite_mode_rewrites_after_the_first_tick() {
    let now = utc_stamp(1_704_067_200_000, 2024, 1, 1, 0, 0, 0);
    let target = utc_stamp(1_704_157_323_000, 2024, 1, 2, 1, 2, 3);
    let r = TimeFromNow::compute(&target, &now);
    let (step1, first_after1) = plan_tick(true, false, true, &r);
    assert!(matches!(step1, RenderStep::Bare(_)));
    let (step2, _) = plan_tick(first_after1, false, true, &r);
    assert!(matches!(step2, RenderStep::InPlace(_)));
    assert_eq!(step_text(&step1), step_text(&step2));
}
