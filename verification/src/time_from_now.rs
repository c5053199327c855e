//! The countdown engine: the signed millisecond distance from now to the
//! target, its decomposition into days, hours, minutes and seconds, the
//! formatted output lines, and the delay until the displayed second next
//! advances.

use vstd::prelude::*;
use crate::clock;
use crate::fmt;
use crate::helpers::divmod;
use crate::stamp::{Stamp, StampModel, wall_clock_seq, wall_clock_string};

verus! {

/// The magnitude of a signed millisecond distance.
pub open spec fn spec_magnitude(delta: int) -> int {
    if delta < 0 {
        -delta
    } else {
        delta
    }
}

/// Whole days in a non-negative millisecond magnitude.
pub open spec fn spec_days(m: int) -> int {
    m / 86400000
}

/// Hours left over after the days, always in 0..24.
pub open spec fn spec_hours(m: int) -> int {
    (m % 86400000) / 3600000
}

/// Minutes left over after the hours, always in 0..60.
pub open spec fn spec_minutes(m: int) -> int {
    ((m % 86400000) % 3600000) / 60000
}

/// Seconds left over after the minutes, always in 0..60.
pub open spec fn spec_seconds(m: int) -> int {
    (((m % 86400000) % 3600000) % 60000) / 1000
}

/// Milliseconds left over after the seconds, always in 0..1000.
pub open spec fn spec_subsec(m: int) -> int {
    (((m % 86400000) % 3600000) % 60000) % 1000
}

/// How long to wait until the displayed second has advanced: one past
/// the leftover milliseconds while counting down, and the milliseconds
/// missing from the current second while counting up.
pub open spec fn spec_next_delay(delta: int) -> int {
    if delta < 0 {
        1000 - spec_subsec(spec_magnitude(delta))
    } else {
        spec_subsec(delta) + 1
    }
}

/// The sign prefix of the remaining-time string: `-` exactly when the
/// target has passed.
pub open spec fn sign_seq(delta: int) -> Seq<char> {
    if delta < 0 {
        seq!['-']
    } else {
        Seq::empty()
    }
}

/// The remaining-time string for a signed millisecond distance:
/// `{sign}{days} days {hours:02}:{minutes:02}:{seconds:02}`.
pub open spec fn remaining_seq(delta: int) -> Seq<char> {
    let m = spec_magnitude(delta);
    sign_seq(delta) + fmt::dec_seq(spec_days(m) as nat) + " days "@ + fmt::pad2_seq(
        spec_hours(m) as nat,
    ) + ":"@ + fmt::pad2_seq(spec_minutes(m) as nat) + ":"@ + fmt::pad2_seq(spec_seconds(m) as nat)
}

/// A signed millisecond distance decomposed into display units.
pub struct Breakdown {
    /// Whether the target has passed.
    pub negative: bool,
    pub days: i64,
    pub hours: i64,
    pub minutes: i64,
    pub seconds: i64,
    /// The sub-second leftover of the magnitude.
    pub subsec_millis: i64,
    /// The delay until the displayed second advances.
    pub next_delay_millis: u64,
}

/// Decompose a signed millisecond distance into days, hours, minutes,
/// seconds and leftover milliseconds of its magnitude, and the delay
/// until the displayed value changes.
pub fn decompose(delta_millis: i64) -> (b: Breakdown)
    requires
        i64::MIN < delta_millis,
    ensures
        b.negative == (delta_millis < 0),
        b.days == spec_days(spec_magnitude(delta_millis as int)),
        b.hours == spec_hours(spec_magnitude(delta_millis as int)),
        b.minutes == spec_minutes(spec_magnitude(delta_millis as int)),
        b.seconds == spec_seconds(spec_magnitude(delta_millis as int)),
        b.subsec_millis == spec_subsec(spec_magnitude(delta_millis as int)),
        b.next_delay_millis == spec_next_delay(delta_millis as int),
        0 <= b.days,
        0 <= b.hours < 24,
        0 <= b.minutes < 60,
        0 <= b.seconds < 60,
        0 <= b.subsec_millis < 1000,
        1 <= b.next_delay_millis <= 1000,
        b.days * 86400000 + b.hours * 3600000 + b.minutes * 60000 + b.seconds * 1000
            + b.subsec_millis == spec_magnitude(delta_millis as int),
{
    let magnitude: i64 = if delta_millis < 0 {
        -delta_millis
    } else {
        delta_millis
    };
    let (days, r1) = divmod(magnitude, 86_400_000);
    let (hours, r2) = divmod(r1, 3_600_000);
    let (minutes, r3) = divmod(r2, 60_000);
    let (seconds, subsec) = divmod(r3, 1_000);
    proof {
        assert(hours < 24) by (nonlinear_arith)
            requires
                hours * 3600000 + r2 == r1,
                0 <= r2,
                0 <= hours,
                r1 < 86400000,
        ;
        assert(minutes < 60) by (nonlinear_arith)
            requires
                minutes * 60000 + r3 == r2,
                0 <= r3,
                0 <= minutes,
                r2 < 3600000,
        ;
        assert(seconds < 60) by (nonlinear_arith)
            requires
                seconds * 1000 + subsec == r3,
                0 <= subsec,
                0 <= seconds,
                r3 < 60000,
        ;
    }
    let next_delay: i64 = if delta_millis < 0 {
        1000 - subsec
    } else {
        subsec + 1
    };
    Breakdown {
        negative: delta_millis < 0,
        days,
        hours,
        minutes,
        seconds,
        subsec_millis: subsec,
        next_delay_millis: next_delay as u64,
    }
}

/// One tick's worth of countdown output: the remaining-time line, the
/// formatted current and target times, and the delay until the next
/// refresh is due.
pub struct TimeFromNow {
    pub time_remaining: String,
    pub time_now: String,
    pub time_target: String,
    pub millis: u64,
}

/// The mathematical content of a `TimeFromNow`.
#[verifier::ext_equal]
pub ghost struct TimeFromNowModel {
    pub time_remaining: Seq<char>,
    pub time_now: Seq<char>,
    pub time_target: Seq<char>,
    pub millis: int,
}

impl View for TimeFromNow {
    type V = TimeFromNowModel;

    open spec fn view(&self) -> TimeFromNowModel {
        TimeFromNowModel {
            time_remaining: self.time_remaining@,
            time_now: self.time_now@,
            time_target: self.time_target@,
            millis: self.millis as int,
        }
    }
}

/// What the engine produces from a target and a captured now: a function
/// of the two stamps alone.
pub open spec fn engine_spec(target: StampModel, now: StampModel) -> TimeFromNowModel {
    TimeFromNowModel {
        time_remaining: remaining_seq(target.epoch_millis - now.epoch_millis),
        time_now: "Now:    "@ + wall_clock_seq(now),
        time_target: "Target: "@ + wall_clock_seq(target),
        millis: spec_next_delay(target.epoch_millis - now.epoch_millis),
    }
}

/// The output of one tick: the remaining-time line alone, or the
/// now/target lines above it when verbose.
pub open spec fn formatted_seq(m: TimeFromNowModel, verbose: bool) -> Seq<char> {
    if verbose {
        m.time_now + "\n"@ + m.time_target + "\n"@ + m.time_remaining
    } else {
        m.time_remaining
    }
}

impl TimeFromNow {
    /// Compute a tick from the target and a captured now.
    pub fn compute(target: &Stamp, now: &Stamp) -> (r: TimeFromNow)
        requires
            target.wf(),
            now.wf(),
            i64::MIN < target.epoch_millis - now.epoch_millis <= i64::MAX,
        ensures
            r@ == engine_spec(target@, now@),
            1 <= r.millis <= 1000,
    {
        let delta: i64 = target.epoch_millis - now.epoch_millis;
        let b = decompose(delta);
        let mut remaining = if b.negative {
            String::from_str("-")
        } else {
            String::new()
        };
        proof {
            reveal_strlit("-");
            assert(remaining@ =~= sign_seq(delta as int));
        }
        remaining.append(fmt::dec_string(b.days as u64).as_str());
        remaining.append(" days ");
        remaining.append(fmt::pad2_string(b.hours as u64).as_str());
        remaining.append(":");
        remaining.append(fmt::pad2_string(b.minutes as u64).as_str());
        remaining.append(":");
        remaining.append(fmt::pad2_string(b.seconds as u64).as_str());
        let mut now_line = String::from_str("Now:    ");
        now_line.append(wall_clock_string(now).as_str());
        let mut target_line = String::from_str("Target: ");
        target_line.append(wall_clock_string(target).as_str());
        let r = TimeFromNow {
            time_remaining: remaining,
            time_now: now_line,
            time_target: target_line,
            millis: b.next_delay_millis,
        };
        proof {
            assert(r@ =~= engine_spec(target@, now@));
        }
        r
    }

    /// Compute a tick from the target and a given now, or report that
    /// the millisecond distance between the two does not fit a signed
    /// 64-bit count — the one width the engine computes in.
    pub fn tick(target: &Stamp, now: &Stamp) -> (r: Result<TimeFromNow, String>)
        requires
            target.wf(),
            now.wf(),
        ensures
            r is Ok <==> i64::MIN < target.epoch_millis - now.epoch_millis <= i64::MAX,
            r matches Ok(t) ==> t@ == engine_spec(target@, now@) && 1 <= t.millis <= 1000,
    {
        let wide_delta: i128 = target.epoch_millis as i128 - now.epoch_millis as i128;
        if (i64::MIN as i128) < wide_delta && wide_delta <= (i64::MAX as i128) {
            Ok(Self::compute(target, now))
        } else {
            Err(String::from_str("the target is too distant to count from now"))
        }
    }

    /// Compute a tick from the target and the current local time: the
    /// result is the engine's output for the target and some captured
    /// well-formed now, and the error arises exactly when the distance
    /// to that now overflows a signed 64-bit count of milliseconds.
    pub fn from(target: &Stamp) -> (r: Result<TimeFromNow, String>)
        requires
            target.wf(),
        ensures
            r matches Ok(t) ==> exists|n: Stamp|
                #![auto]
                {
                    &&& n.wf()
                    &&& i64::MIN < target.epoch_millis - n.epoch_millis <= i64::MAX
                    &&& t@ == engine_spec(target@, n@)
                },
            r is Err ==> exists|n: Stamp|
                #![auto]
                {
                    &&& n.wf()
                    &&& !(i64::MIN < target.epoch_millis - n.epoch_millis <= i64::MAX)
                },
            r matches Ok(t) ==> {
                &&& 1 <= t.millis <= 1000
                &&& t.time_target@ == "Target: "@ + wall_clock_seq(target@)
            },
    {
        let now = clock::now_stamp();
        let r = Self::tick(target, &now);
        proof {
            if r is Ok {
                assert(now.wf() && i64::MIN < target.epoch_millis - now.epoch_millis <= i64::MAX
                    && r->Ok_0@ == engine_spec(target@, now@));
            } else {
                assert(now.wf() && !(i64::MIN < target.epoch_millis - now.epoch_millis
                    <= i64::MAX));
            }
        }
        r
    }

    /// Render a tick for display: the remaining-time line, preceded by
    /// the now and target lines when verbose.
    pub fn formatted(&self, verbose: bool) -> (r: String)
        ensures
            r@ == formatted_seq(self@, verbose),
    {
        if verbose {
            let mut s = self.time_now.clone();
            s.append("\n");
            s.append(self.time_target.as_str());
            s.append("\n");
            s.append(self.time_remaining.as_str());
            s
        } else {
            self.time_remaining.clone()
        }
    }
}

/// The decomposition reconstructs its input: scaling the units back to
/// milliseconds and adding the sub-second leftover gives the magnitude
/// exactly, so the rendered value lies within one second below it.
pub proof fn lemma_decomposition_reconstructs(m: int)
    requires
        0 <= m,
    ensures
        (((spec_days(m) * 24 + spec_hours(m)) * 60 + spec_minutes(m)) * 60 + spec_seconds(m))
            * 1000 + spec_subsec(m) == m,
        0 <= spec_subsec(m) < 1000,
        (((spec_days(m) * 24 + spec_hours(m)) * 60 + spec_minutes(m)) * 60 + spec_seconds(m))
            * 1000 <= m,
        m < (((spec_days(m) * 24 + spec_hours(m)) * 60 + spec_minutes(m)) * 60 + spec_seconds(m))
            * 1000 + 1000,
{
    let r1 = m % 86400000;
    let r2 = r1 % 3600000;
    let r3 = r2 % 60000;
    vstd::arithmetic::div_mod::lemma_fundamental_div_mod(m, 86400000);
    vstd::arithmetic::div_mod::lemma_mod_division_less_than_divisor(m, 86400000);
    vstd::arithmetic::div_mod::lemma_fundamental_div_mod(r1, 3600000);
    vstd::arithmetic::div_mod::lemma_mod_division_less_than_divisor(r1, 3600000);
    vstd::arithmetic::div_mod::lemma_fundamental_div_mod(r2, 60000);
    vstd::arithmetic::div_mod::lemma_mod_division_less_than_divisor(r2, 60000);
    vstd::arithmetic::div_mod::lemma_fundamental_div_mod(r3, 1000);
    vstd::arithmetic::div_mod::lemma_mod_division_less_than_divisor(r3, 1000);
    assert((((spec_days(m) * 24 + spec_hours(m)) * 60 + spec_minutes(m)) * 60 + spec_seconds(m))
        * 1000 + spec_subsec(m) == m) by (nonlinear_arith)
        requires
            m == 86400000 * spec_days(m) + r1,
            r1 == 3600000 * spec_hours(m) + r2,
            r2 == 60000 * spec_minutes(m) + r3,
            r3 == 1000 * spec_seconds(m) + spec_subsec(m),
    ;
}

/// The sign of the remaining-time string: while the target lies ahead
/// the sign is empty and the string opens with a digit, once the target
/// has passed a minus sign stands in front, and at the exact target
/// instant the rendering is all zeros with no sign.
pub proof fn lemma_sign_of_remaining(target_millis: int, now_millis: int)
    ensures
        target_millis > now_millis ==> sign_seq(target_millis - now_millis)
            == Seq::<char>::empty(),
        target_millis >= now_millis ==> fmt::is_digit_char(
            remaining_seq(target_millis - now_millis)[0],
        ),
        target_millis < now_millis ==> sign_seq(target_millis - now_millis) == seq!['-'],
        target_millis < now_millis ==> remaining_seq(target_millis - now_millis)[0] == '-',
        target_millis == now_millis ==> {
            &&& spec_days(0) == 0
            &&& spec_hours(0) == 0
            &&& spec_minutes(0) == 0
            &&& spec_seconds(0) == 0
            &&& spec_subsec(0) == 0
            &&& remaining_seq(0) == seq![
                '0',
                ' ',
                'd',
                'a',
                'y',
                's',
                ' ',
                '0',
                '0',
                ':',
                '0',
                '0',
                ':',
                '0',
                '0',
            ]
        },
{
    let delta = target_millis - now_millis;
    fmt::lemma_dec_seq_digits(spec_days(spec_magnitude(delta)) as nat);
    if delta >= 0 {
        assert(remaining_seq(delta)[0] == fmt::dec_seq(spec_days(spec_magnitude(delta)) as nat)[0]);
    }
    if target_millis == now_millis {
        vstd::arithmetic::div_mod::lemma_small_mod(0, 86400000);
        vstd::arithmetic::div_mod::lemma_small_mod(0, 3600000);
        vstd::arithmetic::div_mod::lemma_small_mod(0, 60000);
        vstd::arithmetic::div_mod::lemma_small_mod(0, 1000);
        vstd::arithmetic::div_mod::lemma_basic_div(0, 86400000);
        vstd::arithmetic::div_mod::lemma_basic_div(0, 3600000);
        vstd::arithmetic::div_mod::lemma_basic_div(0, 60000);
        vstd::arithmetic::div_mod::lemma_basic_div(0, 1000);
        reveal_strlit(" days ");
        reveal_strlit(":");
        assert(remaining_seq(0) =~= seq![
            '0',
            ' ',
            'd',
            'a',
            'y',
            's',
            ' ',
            '0',
            '0',
            ':',
            '0',
            '0',
            ':',
            '0',
            '0',
        ]);
    }
}

/// The engine is a function of the (target, now) pair alone: two
/// results computed from the same pair are identical.
pub proof fn lemma_engine_idempotent(
    target: StampModel,
    now: StampModel,
    a: TimeFromNowModel,
    b: TimeFromNowModel,
)
    requires
        a == engine_spec(target, now),
        b == engine_spec(target, now),
    ensures
        a == b,
{
}

/// The remaining-time string never spans more than one line: no newline
/// occurs in it, so the non-verbose output of a tick is exactly one line.
pub proof fn lemma_remaining_is_single_line(delta: int)
    ensures
        forall|i: int| 0 <= i < remaining_seq(delta).len() ==> #[trigger] remaining_seq(delta)[i]
            != '\n',
{
    let m = spec_magnitude(delta);
    reveal_strlit(" days ");
    reveal_strlit(":");
    fmt::lemma_dec_seq_single_line(spec_days(m) as nat);
    fmt::lemma_pad2_seq_single_line(spec_hours(m) as nat);
    fmt::lemma_pad2_seq_single_line(spec_minutes(m) as nat);
    fmt::lemma_pad2_seq_single_line(spec_seconds(m) as nat);
    assert forall|i: int| 0 <= i < remaining_seq(delta).len() implies #[trigger] remaining_seq(
        delta,
    )[i] != '\n' by {
        let s1 = sign_seq(delta);
        let s2 = s1 + fmt::dec_seq(spec_days(m) as nat);
        let s3 = s2 + " days "@;
        let s4 = s3 + fmt::pad2_seq(spec_hours(m) as nat);
        let s5 = s4 + ":"@;
        let s6 = s5 + fmt::pad2_seq(spec_minutes(m) as nat);
        let s7 = s6 + ":"@;
        assert(remaining_seq(delta) == s7 + fmt::pad2_seq(spec_seconds(m) as nat));
        assert(" days "@[0] == ' ' && " days "@[1] == 'd' && " days "@[2] == 'a' && " days "@[3]
            == 'y' && " days "@[4] == 's' && " days "@[5] == ' ');
        assert(":"@[0] == ':');
    }
}

/// Verbose output spans exactly three lines: its newlines stand exactly
/// at the two joins — after the now line and after the target line —
/// provided the zone abbreviations themselves hold no newline, which
/// the clock promises of every stamp it produces.
pub proof fn lemma_verbose_output_three_lines(target: StampModel, now: StampModel)
    requires
        fmt::single_line(target.zone_abbrev),
        fmt::single_line(now.zone_abbrev),
    ensures
        ({
            let out = formatted_seq(engine_spec(target, now), true);
            let first_break = engine_spec(target, now).time_now.len() as int;
            let second_break = first_break + 1 + engine_spec(target, now).time_target.len();
            forall|i: int|
                0 <= i < out.len() ==> (out[i] == '\n' <==> (i == first_break || i
                    == second_break))
        }),
{
    reveal_strlit("Now:    ");
    reveal_strlit("Target: ");
    reveal_strlit("\n");
    crate::stamp::lemma_wall_clock_single_line(now);
    crate::stamp::lemma_wall_clock_single_line(target);
    lemma_remaining_is_single_line(target.epoch_millis - now.epoch_millis);
    let e = engine_spec(target, now);
    assert forall|i: int| 0 <= i < e.time_now.len() implies e.time_now[i] != '\n' by {
        if i < 8 {
            assert(e.time_now[i] == "Now:    "@[i]);
        } else {
            assert(e.time_now[i] == wall_clock_seq(now)[i - 8]);
        }
    }
    assert forall|i: int| 0 <= i < e.time_target.len() implies e.time_target[i] != '\n' by {
        if i < 8 {
            assert(e.time_target[i] == "Target: "@[i]);
        } else {
            assert(e.time_target[i] == wall_clock_seq(target)[i - 8]);
        }
    }
    let out = formatted_seq(e, true);
    let first_break = e.time_now.len() as int;
    let second_break = first_break + 1 + e.time_target.len();
    assert forall|i: int| 0 <= i < out.len() implies (out[i] == '\n' <==> (i == first_break || i
        == second_break)) by {
        let q1 = e.time_now + "\n"@;
        let q2 = q1 + e.time_target;
        let q3 = q2 + "\n"@;
        assert(out == q3 + e.time_remaining);
        assert("\n"@[0] == '\n');
        if i < first_break {
            assert(out[i] == e.time_now[i]);
        } else if i == first_break {
            assert(out[i] == '\n');
        } else if i < second_break {
            assert(out[i] == e.time_target[i - first_break - 1]);
        } else if i == second_break {
            assert(out[i] == '\n');
        } else {
            assert(out[i] == e.time_remaining[i - second_break - 1]);
        }
    }
}

/// The next-refresh delay is positive and never more than one second.
pub proof fn lemma_next_delay_bounds(delta: int)
    ensures
        1 <= spec_next_delay(delta) <= 1000,
{
    let m = spec_magnitude(delta);
    vstd::arithmetic::div_mod::lemma_mod_division_less_than_divisor(m % 86400000, 3600000);
    vstd::arithmetic::div_mod::lemma_mod_division_less_than_divisor(
        (m % 86400000) % 3600000,
        60000,
    );
    vstd::arithmetic::div_mod::lemma_mod_division_less_than_divisor(
        ((m % 86400000) % 3600000) % 60000,
        1000,
    );
}

} // verus!
