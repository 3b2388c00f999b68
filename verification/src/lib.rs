//! Core of a terminal countdown: a pause/resume timer driven by wall-clock
//! instants, the key-dispatch and tick-budget decisions of its event loop,
//! and the clock-string formatting of the remaining time.

mod clock;
pub mod display;
pub mod event_loop;
pub mod timer;

pub use timer::Timer;
