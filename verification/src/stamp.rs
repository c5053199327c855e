//! A timezone-aware instant as the rest of the library sees it: its
//! position on the absolute millisecond timeline together with the local
//! calendar fields and zone abbreviation under which it is displayed.

use vstd::prelude::*;
use crate::calendar;
use crate::fmt;

verus! {

/// An instant, both as epoch milliseconds and as the local wall-clock
/// fields of its timezone. Produced for "now" by the clock and for the
/// target by the resolver.
pub struct Stamp {
    /// Milliseconds since the Unix epoch.
    pub epoch_millis: i64,
    pub year: i32,
    pub month: u32,
    pub day: u32,
    pub hour: u32,
    pub minute: u32,
    pub second: u32,
    /// The rendering of the zone in a formatted timestamp, e.g. `UTC`
    /// or `+02:00`.
    pub zone_abbrev: String,
}

/// The mathematical content of a `Stamp`.
pub ghost struct StampModel {
    pub epoch_millis: int,
    pub year: int,
    pub month: int,
    pub day: int,
    pub hour: int,
    pub minute: int,
    pub second: int,
    pub zone_abbrev: Seq<char>,
}

impl View for Stamp {
    type V = StampModel;

    open spec fn view(&self) -> StampModel {
        StampModel {
            epoch_millis: self.epoch_millis as int,
            year: self.year as int,
            month: self.month as int,
            day: self.day as int,
            hour: self.hour as int,
            minute: self.minute as int,
            second: self.second as int,
            zone_abbrev: self.zone_abbrev@,
        }
    }
}

impl Stamp {
    /// The field ranges that every stamp satisfies: a month, a day of a
    /// month, and a time of day.
    pub open spec fn wf(self) -> bool {
        &&& 1 <= self.month <= 12
        &&& 1 <= self.day <= 31
        &&& calendar::valid_hms(self.hour as int, self.minute as int, self.second as int)
    }

    /// Decide well-formedness.
    pub fn is_wf(&self) -> (b: bool)
        ensures
            b == self.wf(),
    {
        1 <= self.month && self.month <= 12 && 1 <= self.day && self.day <= 31 && self.hour < 24
            && self.minute < 60 && self.second < 60
    }
}

/// The wall-clock rendering of a stamp: `YYYY-MM-DD HH:MM:SS (ZONE)`.
pub open spec fn wall_clock_seq(s: StampModel) -> Seq<char> {
    fmt::year_seq(s.year) + "-"@ + fmt::pad2_seq(s.month as nat) + "-"@ + fmt::pad2_seq(
        s.day as nat,
    ) + " "@ + fmt::pad2_seq(s.hour as nat) + ":"@ + fmt::pad2_seq(s.minute as nat) + ":"@
        + fmt::pad2_seq(s.second as nat) + " ("@ + s.zone_abbrev + ")"@
}

/// A wall-clock rendering stays on one line as long as the zone
/// abbreviation does: no other piece of it can hold a newline.
pub proof fn lemma_wall_clock_single_line(s: StampModel)
    requires
        fmt::single_line(s.zone_abbrev),
    ensures
        fmt::single_line(wall_clock_seq(s)),
{
    reveal_strlit("-");
    reveal_strlit(" ");
    reveal_strlit(":");
    reveal_strlit(" (");
    reveal_strlit(")");
    fmt::lemma_year_seq_single_line(s.year);
    fmt::lemma_pad2_seq_single_line(s.month as nat);
    fmt::lemma_pad2_seq_single_line(s.day as nat);
    fmt::lemma_pad2_seq_single_line(s.hour as nat);
    fmt::lemma_pad2_seq_single_line(s.minute as nat);
    fmt::lemma_pad2_seq_single_line(s.second as nat);
    assert forall|i: int| 0 <= i < wall_clock_seq(s).len() implies wall_clock_seq(s)[i]
        != '\n' by {
        let p1 = fmt::year_seq(s.year);
        let p2 = p1 + "-"@;
        let p3 = p2 + fmt::pad2_seq(s.month as nat);
        let p4 = p3 + "-"@;
        let p5 = p4 + fmt::pad2_seq(s.day as nat);
        let p6 = p5 + " "@;
        let p7 = p6 + fmt::pad2_seq(s.hour as nat);
        let p8 = p7 + ":"@;
        let p9 = p8 + fmt::pad2_seq(s.minute as nat);
        let p10 = p9 + ":"@;
        let p11 = p10 + fmt::pad2_seq(s.second as nat);
        let p12 = p11 + " ("@;
        let p13 = p12 + s.zone_abbrev;
        assert(wall_clock_seq(s) == p13 + ")"@);
        assert("-"@[0] == '-');
        assert(" "@[0] == ' ');
        assert(":"@[0] == ':');
        assert(" ("@[0] == ' ' && " ("@[1] == '(');
        assert(")"@[0] == ')');
    }
}

/// Render a stamp's wall-clock fields.
pub fn wall_clock_string(s: &Stamp) -> (r: String)
    requires
        s.wf(),
    ensures
        r@ == wall_clock_seq(s@),
{
    let mut out = fmt::year_string(s.year as i64);
    out.append("-");
    out.append(fmt::pad2_string(s.month as u64).as_str());
    out.append("-");
    out.append(fmt::pad2_string(s.day as u64).as_str());
    out.append(" ");
    out.append(fmt::pad2_string(s.hour as u64).as_str());
    out.append(":");
    out.append(fmt::pad2_string(s.minute as u64).as_str());
    out.append(":");
    out.append(fmt::pad2_string(s.second as u64).as_str());
    out.append(" (");
    out.append(s.zone_abbrev.as_str());
    out.append(")");
    out
}

} // verus!
