//! The decisions of the display loop. Each tick turns a computed
//! `TimeFromNow` and the loop flags into one rendering step; the caller
//! performs the step on the terminal and sleeps for the tick's delay.

use vstd::prelude::*;
use crate::time_from_now::{TimeFromNow, formatted_seq};

verus! {

/// How one tick's output reaches the terminal.
pub enum RenderStep {
    /// Print the text followed by a newline.
    Line(String),
    /// Print the text without a trailing newline.
    Bare(String),
    /// Erase the current terminal line, move the cursor back to its
    /// start, and print the text without a trailing newline.
    InPlace(String),
}

impl RenderStep {
    /// The text the step puts on the terminal.
    pub open spec fn text(self) -> Seq<char> {
        match self {
            RenderStep::Line(s) => s@,
            RenderStep::Bare(s) => s@,
            RenderStep::InPlace(s) => s@,
        }
    }
}

/// Decide one tick of the continuous display loop: what to print and
/// how, and whether the next tick still counts as the first. The verbose
/// header appears only on the first tick; in overwrite mode every tick
/// after the first erases the previous line instead of scrolling.
pub fn plan_tick(first: bool, verbose: bool, overwrite: bool, remaining: &TimeFromNow) -> (r: (
    RenderStep,
    bool,
))
    ensures
        r.0.text() == formatted_seq(remaining@, verbose && first),
        r.0 is InPlace <==> (overwrite && !first),
        r.0 is Bare <==> (overwrite && first),
        r.0 is Line <==> !overwrite,
        r.1 == false,
{
    let text = remaining.formatted(verbose && first);
    if overwrite && !first {
        (RenderStep::InPlace(text), false)
    } else if overwrite {
        (RenderStep::Bare(text), false)
    } else {
        (RenderStep::Line(text), false)
    }
}

/// Decide the whole output of single-shot mode: the remaining-time line,
/// under the verbose header if one was asked for, printed once with a
/// trailing newline.
pub fn plan_single_shot(verbose: bool, remaining: &TimeFromNow) -> (r: RenderStep)
    ensures
        r.text() == formatted_seq(remaining@, verbose),
        r is Line,
{
    RenderStep::Line(remaining.formatted(verbose))
}

} // verus!
