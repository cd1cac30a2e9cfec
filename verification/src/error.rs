//! The error type of the driver.

use crate::mode::OperatingMode;
use crate::status::{AmbientStatusErrorCode, RangeStatusErrorCode};
use vstd::prelude::*;

verus! {

/// What can go wrong in an operation of the driver. `E` is the error type of
/// the bus, and of the shutdown pin.
#[derive(Debug, Copy, Clone, PartialEq)]
pub enum Error<E> {
    /// The model identification register held an unexpected value (the value
    /// read is the argument).
    InvalidDevice(u8),
    /// The bus reported an error.
    BusError(E),
    /// A blocking read found no result within the configured number of polls.
    Timeout,
    /// The bus address is not valid. It has to be between 0x08 and 0x77: the
    /// address has 7 bits, and 0x00 - 0x07 and 0x78 - 0x7F are reserved.
    InvalidAddress(u8),
    /// The range scaling factor is not 1, 2 or 3.
    InvalidScalingFactor(u8),
    /// A configuration value is out of its bounds.
    InvalidConfigurationValue(u16),
    /// The measurement is not ready yet.
    ResultNotReady,
    /// The sensor reported an error for the range measurement.
    RangeStatusError(RangeStatusErrorCode),
    /// The sensor reported an error for the ambient light measurement.
    AmbientStatusError(AmbientStatusErrorCode),
    /// A status register held a code that has no meaning (the code is the
    /// argument).
    UnknownRegisterCode(u8),
    /// The operation is not allowed in the current operating mode (the mode is
    /// the argument).
    InvalidMethod(OperatingMode),
    /// The shutdown pin reported an error.
    GpioPinError(E),
}

impl<E> From<E> for Error<E> {
    /// An error of the bus becomes [`Error::BusError`].
    fn from(error: E) -> (converted: Self) {
        Error::BusError(error)
    }
}

impl<E> vstd::std_specs::convert::FromSpecImpl<E> for Error<E> {
    open spec fn obeys_from_spec() -> bool {
        true
    }

    open spec fn from_spec(error: E) -> Self {
        Error::BusError(error)
    }
}

} // verus!
