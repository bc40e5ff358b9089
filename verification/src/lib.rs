//! Time-progress dashboard core: how much of the current minute, hour, day,
//! month and year has gone by, and how that is drawn as rows of block glyphs.
//!
//! Every quantity is an exact integer or a ratio of integers; nothing here
//! rounds except the two-decimal label, whose rounding rule is stated.

pub mod calendar;
pub mod main_window;
pub mod moon_phase;
pub mod percentage;
pub mod progress_bars;
pub mod text;
pub mod time_calculations;
