//! Driver core for a proximity/ambient-light controlled display.
//!
//! The library holds the device-independent logic of the driver: the
//! bit-level codecs for the sensor's registers, the hysteresis state
//! machine that turns raw proximity readings into a stable presence
//! signal, the linear brightness mapper, and the controller step that
//! composes them. All bus and filesystem traffic lives outside, in the
//! binary that links against this crate.

pub mod brightness;
pub mod controller;
pub mod display;
pub mod error;
pub mod presence;
pub mod ranges;
pub mod registers;
