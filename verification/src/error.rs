//! Errors raised by the validation steps of the library.
//!
//! Bus failures are not represented here: every bus transaction happens
//! outside the library, and its error propagates through the caller's own
//! error type.

use vstd::prelude::*;

verus! {

/// A validation failure detected by the library's own checks.
#[derive(Debug, Clone, Copy, PartialEq, Eq, Structural)]
pub enum Error {
    /// The product-information register did not hold the documented
    /// product id and revision of the supported sensor.
    InvalidProduct { product: u8, revision: u8 },
    /// The LED current register decoded to a current code above the
    /// supported maximum of 20 (200 mA).
    InvalidLEDCurrent(u8),
    /// A brightness write was requested outside the display's supported
    /// range.
    BrightnessOutOfRange { value: u32, max: u32 },
}

} // verus!
