//! Core of a terminal application that drills a user on typing song lyrics.
//!
//! The library owns the session's state-transition logic: classifying raw
//! keystrokes into semantic actions, multiplexing keystrokes with a heartbeat
//! tick, advancing a cursor through the lines of a song, and keeping accuracy
//! counters for the render-facing snapshot. Terminal I/O, screen layout and
//! the HTTP lyrics provider live outside the library and hand it plain values.

pub mod chars;
pub mod keyboard_event;
pub mod keys;
pub mod laws;
pub mod query;
pub mod song;
pub mod state;
