//! A pomodoro countdown: the session stopwatch that alternates work and break
//! intervals, the tone sequences that announce each transition, and the large
//! digit glyphs of the countdown display.
//!
//! All times are whole milliseconds on a monotonic clock that the caller
//! reads and passes in; nothing here reads a clock or touches a device.

pub mod ascii_digits;
pub mod audio;
pub mod custom_input;
pub mod layout;
pub mod mario_animation;
pub mod session;
pub mod text;
pub mod timer;
