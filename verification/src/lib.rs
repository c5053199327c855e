//! Countdown library: computes and formats the time remaining until a
//! target instant, decides the per-tick behaviour of a continuous display
//! loop, and resolves a target from optional date, time and timezone inputs.

pub mod args;
pub mod calendar;
pub mod clock;
pub mod display;
pub mod fmt;
pub mod helpers;
pub mod stamp;
pub mod time_from_now;
