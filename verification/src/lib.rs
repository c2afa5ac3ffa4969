//! Decision logic of a daily-wallpaper agent: which image to fetch for the
//! screen at hand, where to keep it, how to hand it to the desktop, and when
//! to look again. Every effect on the outside world (the network, the file
//! system, the desktop shell, the clock) is left to the caller; the library
//! says what to do next and what each answer means.

pub mod error;
pub mod resolution;
pub mod decimal;
pub mod url;
pub mod json;
pub mod metadata;
pub mod cache;
pub mod wide;
pub mod schedule;
pub mod task;
pub mod runs;
pub mod scheduler;
pub mod autostart;
