//! Flight-event sequencer of a high-altitude balloon payload.
//!
//! Altitudes are integer millimetres and times integer milliseconds, so that
//! every threshold comparison and every rate is exact.

pub mod altitude;
pub mod flight;
pub mod laws;
pub mod pulse;
pub mod sequencer;
