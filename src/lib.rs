//! Change detection and a scrolling log for a dashboard that polls three
//! textual signals (weeble, block height, wobble).
//!
//! The library decides when a freshly observed value counts as a change,
//! keeps the append-only log of such changes, and computes which log lines a
//! region of the screen shows. Fetching the signals and drawing on a terminal
//! happen outside it.

pub mod area;
pub mod log_state;
pub mod numeric;
pub mod monitor;



