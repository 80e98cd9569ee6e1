//! A terminal display of large ASCII-art digits, driven by one of three
//! time sources: a wall clock for a chosen timezone, a countdown timer,
//! or a stopwatch.
//!
//! The library holds everything that can be stated and proved: parsing the
//! hex color, the glyph table, formatting of times, rendering a frame as a
//! string of ANSI escape sequences, and the per-tick decisions of the three
//! sources. Reading input, printing frames, and sleeping between ticks are
//! left to the surrounding program.

pub mod clock;
pub mod color;
pub mod glyphs;
pub mod input;
pub mod numfmt;
pub mod render;
pub mod stopwatch;
pub mod timer;
pub mod tz;

pub use color::hex_to_rgb;
pub use glyphs::get_ascii_digits;
