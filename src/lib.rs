//! A Pomodoro countdown: a work period of twenty-five minutes followed by a
//! break of five, started and paused by a toggle, advanced by a once-a-second
//! tick, and rendered as `MM:SS`.

pub mod display;
pub mod laws;
pub mod timer;

pub use display::format_seconds;
pub use timer::{PomodoroTimer, BREAK_TIME, WORK_TIME};
