//! Protocol core of a driver for the VL6180X time-of-flight distance and
//! ambient-light sensor.
//!
//! The crate holds everything the driver decides: the validated configuration,
//! the register encodings, the status decoders, the operating-mode rules and the
//! measurement protocol. It never touches a bus itself. An operation is begun on
//! the driver value, which answers with the next bus or pin action to perform;
//! the host performs it and hands the reply back until the operation is done.

pub mod bus;
pub mod config;
pub mod driver;
pub mod dynamic;
pub mod error;
pub mod init;
pub mod laws;
pub mod mode;
pub mod protocol;
pub mod register;
pub mod status;

pub use bus::{Access, Action, Reply};
pub use config::{AmbientInterruptMode, Config, RangeInterruptMode, Settings};
pub use driver::VL6180X;
pub use error::Error;
pub use mode::{
    AllowCommunication, AllowReadMeasurement, AllowStartAmbientSingle, AllowStartRangeSingle,
    AmbientContinuousMode, DynamicMode, InterleavedContinuousMode, ModeType, OperatingMode,
    PoweredOffMode, RangeContinuousMode, ReadyMode,
};
pub use protocol::{Channel, Cursor, Operation, Stage, Step};
pub use status::{AmbientStatusErrorCode, RangeStatusErrorCode, ResultInterruptStatusGpioCode};
