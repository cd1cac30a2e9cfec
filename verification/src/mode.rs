//! Operating modes of the sensor and the operations each of them allows.
//!
//! The mode can be followed in two ways. In the first the type of the driver
//! value says which mode the sensor is in, and an operation exists only on
//! the types of the modes that allow it. In the second, [`DynamicMode`], the
//! driver value records the mode and tests it when an operation begins. Both
//! go by one table, [`OperatingMode::permits`].

use crate::protocol::{Channel, Operation, Step};
use vstd::prelude::*;

verus! {

/// The operating modes of the sensor. Exactly one of them holds at any time.
#[derive(Debug, Copy, Clone, PartialEq, Eq, Structural)]
pub enum OperatingMode {
    /// The shutdown pin holds the sensor in reset.
    PoweredOff,
    /// The sensor is configured and takes single measurements on request.
    Ready,
    /// The sensor takes range measurements continuously.
    RangeContinuous,
    /// The sensor takes ambient light measurements continuously.
    AmbientContinuous,
    /// The sensor takes an ambient light measurement followed by a range
    /// measurement, continuously.
    InterleavedContinuous,
}

impl Channel {
    /// The mode in which the sensor measures this channel continuously.
    pub open spec fn spec_continuous_mode(self) -> OperatingMode {
        match self {
            Channel::Range => OperatingMode::RangeContinuous,
            Channel::Ambient => OperatingMode::AmbientContinuous,
        }
    }

    /// The mode in which the sensor measures this channel continuously.
    #[verifier::when_used_as_spec(spec_continuous_mode)]
    pub fn continuous_mode(self) -> (mode: OperatingMode)
        ensures
            mode == self.spec_continuous_mode(),
    {
        match self {
            Channel::Range => OperatingMode::RangeContinuous,
            Channel::Ambient => OperatingMode::AmbientContinuous,
        }
    }

    /// The other channel.
    pub open spec fn spec_other(self) -> Channel {
        match self {
            Channel::Range => Channel::Ambient,
            Channel::Ambient => Channel::Range,
        }
    }

    /// The other channel.
    #[verifier::when_used_as_spec(spec_other)]
    pub fn other(self) -> (channel: Channel)
        ensures
            channel == self.spec_other(),
    {
        match self {
            Channel::Range => Channel::Ambient,
            Channel::Ambient => Channel::Range,
        }
    }
}

impl Operation {
    /// The mode that the sensor is in once the operation has succeeded, for
    /// the operations that change the mode.
    pub open spec fn spec_arrival(self) -> Option<OperatingMode> {
        match self {
            Operation::Initialise => Some(OperatingMode::Ready),
            Operation::StartContinuous { channel } => Some(channel.spec_continuous_mode()),
            Operation::StopContinuous { .. } => Some(OperatingMode::Ready),
            Operation::StartInterleavedContinuous => Some(OperatingMode::InterleavedContinuous),
            Operation::StopInterleavedContinuous => Some(OperatingMode::Ready),
            Operation::PowerOff => Some(OperatingMode::PoweredOff),
            Operation::PowerOnAndInit => Some(OperatingMode::Ready),
            _ => None,
        }
    }

    /// The mode that the sensor is in once the operation has succeeded, for
    /// the operations that change the mode.
    #[verifier::when_used_as_spec(spec_arrival)]
    pub fn arrival(self) -> (mode: Option<OperatingMode>)
        ensures
            mode == self.spec_arrival(),
    {
        match self {
            Operation::Initialise => Some(OperatingMode::Ready),
            Operation::StartContinuous { channel } => Some(channel.continuous_mode()),
            Operation::StopContinuous { .. } => Some(OperatingMode::Ready),
            Operation::StartInterleavedContinuous => Some(OperatingMode::InterleavedContinuous),
            Operation::StopInterleavedContinuous => Some(OperatingMode::Ready),
            Operation::PowerOff => Some(OperatingMode::PoweredOff),
            Operation::PowerOnAndInit => Some(OperatingMode::Ready),
            _ => None,
        }
    }
}

impl OperatingMode {
    /// Whether `operation` may begin in this mode.
    ///
    /// A sensor that is powered off can only be powered on, and only a sensor
    /// that is powered off can be. Reading a result, an identification or an
    /// interrupt status, clearing interrupts, changing the bus address and
    /// powering off are allowed in every other mode. A single measurement of a
    /// channel can be started when the sensor is ready or measures the other
    /// channel continuously, and be started and read in one go only when the
    /// sensor is ready. A continuous mode can be started when the sensor is
    /// ready, and stopped when it is the mode of the sensor. The
    /// initialisation is how a driver value comes to be, so no mode allows it.
    pub open spec fn spec_permits(self, operation: Operation) -> bool {
        match operation {
            Operation::Initialise => false,
            Operation::ReadModelId => self != OperatingMode::PoweredOff,
            Operation::ReadInterruptStatus => self != OperatingMode::PoweredOff,
            Operation::Read { .. } => self != OperatingMode::PoweredOff,
            Operation::PollSingleBlocking { .. } => self == OperatingMode::Ready,
            Operation::StartSingle { channel } => self == OperatingMode::Ready || self
                == channel.spec_other().spec_continuous_mode(),
            Operation::StartContinuous { .. } => self == OperatingMode::Ready,
            Operation::StopContinuous { channel } => self == channel.spec_continuous_mode(),
            Operation::StartInterleavedContinuous => self == OperatingMode::Ready,
            Operation::StopInterleavedContinuous => self == OperatingMode::InterleavedContinuous,
            Operation::ClearInterrupt { .. } => self != OperatingMode::PoweredOff,
            Operation::ClearAllInterrupts => self != OperatingMode::PoweredOff,
            Operation::ChangeAddress { .. } => self != OperatingMode::PoweredOff,
            Operation::PowerOff => self != OperatingMode::PoweredOff,
            Operation::PowerOnAndInit => self == OperatingMode::PoweredOff,
        }
    }

    /// Whether `operation` may begin in this mode.
    #[verifier::when_used_as_spec(spec_permits)]
    pub fn permits(self, operation: Operation) -> (allowed: bool)
        ensures
            allowed == self.spec_permits(operation),
    {
        match operation {
            Operation::Initialise => false,
            Operation::ReadModelId => self != OperatingMode::PoweredOff,
            Operation::ReadInterruptStatus => self != OperatingMode::PoweredOff,
            Operation::Read { .. } => self != OperatingMode::PoweredOff,
            Operation::PollSingleBlocking { .. } => self == OperatingMode::Ready,
            Operation::StartSingle { channel } => self == OperatingMode::Ready || self
                == channel.other().continuous_mode(),
            Operation::StartContinuous { .. } => self == OperatingMode::Ready,
            Operation::StopContinuous { channel } => self == channel.continuous_mode(),
            Operation::StartInterleavedContinuous => self == OperatingMode::Ready,
            Operation::StopInterleavedContinuous => self == OperatingMode::InterleavedContinuous,
            Operation::ClearInterrupt { .. } => self != OperatingMode::PoweredOff,
            Operation::ClearAllInterrupts => self != OperatingMode::PoweredOff,
            Operation::ChangeAddress { .. } => self != OperatingMode::PoweredOff,
            Operation::PowerOff => self != OperatingMode::PoweredOff,
            Operation::PowerOnAndInit => self == OperatingMode::PoweredOff,
        }
    }

    /// The mode after `step` of `operation`: where the operation leads once
    /// it is over and has succeeded, and the mode as it was after every other
    /// step. A failed operation leaves the mode unchanged.
    pub open spec fn after<E>(self, operation: Operation, step: Step<E>) -> OperatingMode {
        match step {
            Step::Done(Ok(_)) => match operation.spec_arrival() {
                Some(mode) => mode,
                None => self,
            },
            _ => self,
        }
    }
}

/// A mode type: a type that stands for one operating mode of the sensor.
pub trait ModeType {
    /// The operating mode that the type stands for.
    spec fn operating_mode() -> OperatingMode;
}

/// Allow communication with the device (the device is not powered off).
pub trait AllowCommunication: ModeType {
    /// The mode is not [`OperatingMode::PoweredOff`].
    proof fn lemma_powered()
        ensures
            Self::operating_mode() != OperatingMode::PoweredOff,
    ;
}

/// Operating modes with this trait have an implementation for reading
/// measurements.
pub trait AllowReadMeasurement: ModeType {
    /// The mode allows to read either channel.
    proof fn lemma_reads(channel: Channel, blocking: bool)
        ensures
            Self::operating_mode().spec_permits(Operation::Read { channel, blocking }),
    ;
}

/// Operating modes with this trait have an implementation for starting a
/// single ambient light measurement.
pub trait AllowStartAmbientSingle: ModeType {
    /// The mode allows to start a single ambient light measurement.
    proof fn lemma_starts_ambient()
        ensures
            Self::operating_mode().spec_permits(
                Operation::StartSingle { channel: Channel::Ambient },
            ),
    ;
}

/// Operating modes with this trait have an implementation for starting a
/// single range measurement.
pub trait AllowStartRangeSingle: ModeType {
    /// The mode allows to start a single range measurement.
    proof fn lemma_starts_range()
        ensures
            Self::operating_mode().spec_permits(Operation::StartSingle { channel: Channel::Range }),
    ;
}

/// Sensor has been configured and is ready to take single measurements or
/// switch to a continuous measurement mode.
#[derive(Debug, Copy, Clone)]
pub struct ReadyMode;

impl ModeType for ReadyMode {
    open spec fn operating_mode() -> OperatingMode {
        OperatingMode::Ready
    }
}

impl AllowCommunication for ReadyMode {
    proof fn lemma_powered() {
    }
}

impl AllowReadMeasurement for ReadyMode {
    proof fn lemma_reads(channel: Channel, blocking: bool) {
    }
}

impl AllowStartRangeSingle for ReadyMode {
    proof fn lemma_starts_range() {
    }
}

impl AllowStartAmbientSingle for ReadyMode {
    proof fn lemma_starts_ambient() {
    }
}

/// Mode in which continuous range measurements are being taken by the sensor.
#[derive(Debug, Copy, Clone)]
pub struct RangeContinuousMode;

impl ModeType for RangeContinuousMode {
    open spec fn operating_mode() -> OperatingMode {
        OperatingMode::RangeContinuous
    }
}

impl AllowCommunication for RangeContinuousMode {
    proof fn lemma_powered() {
    }
}

impl AllowReadMeasurement for RangeContinuousMode {
    proof fn lemma_reads(channel: Channel, blocking: bool) {
    }
}

impl AllowStartAmbientSingle for RangeContinuousMode {
    proof fn lemma_starts_ambient() {
    }
}

/// Mode in which continuous ambient light measurements are being taken by the
/// sensor.
#[derive(Debug, Copy, Clone)]
pub struct AmbientContinuousMode;

impl ModeType for AmbientContinuousMode {
    open spec fn operating_mode() -> OperatingMode {
        OperatingMode::AmbientContinuous
    }
}

impl AllowCommunication for AmbientContinuousMode {
    proof fn lemma_powered() {
    }
}

impl AllowReadMeasurement for AmbientContinuousMode {
    proof fn lemma_reads(channel: Channel, blocking: bool) {
    }
}

impl AllowStartRangeSingle for AmbientContinuousMode {
    proof fn lemma_starts_range() {
    }
}

/// Mode in which continuous ambient and range measurements are being taken by
/// the sensor. Ambient measurement is taken first, then immediately followed
/// up by a range measurement and repeated after the ambient inter-measurement
/// period.
#[derive(Debug, Copy, Clone)]
pub struct InterleavedContinuousMode {}

impl ModeType for InterleavedContinuousMode {
    open spec fn operating_mode() -> OperatingMode {
        OperatingMode::InterleavedContinuous
    }
}

impl AllowCommunication for InterleavedContinuousMode {
    proof fn lemma_powered() {
    }
}

impl AllowReadMeasurement for InterleavedContinuousMode {
    proof fn lemma_reads(channel: Channel, blocking: bool) {
    }
}

/// Mode in which the sensor is powered off.
#[derive(Debug, Copy, Clone)]
pub struct PoweredOffMode {}

impl ModeType for PoweredOffMode {
    open spec fn operating_mode() -> OperatingMode {
        OperatingMode::PoweredOff
    }
}

/// A mode where the state is kept track of at runtime, instead of being
/// encoded into the type. Thus allowing you to change the mode often, and
/// without problems with ownership, or references, at the cost of some
/// performance and the risk of runtime errors.
#[derive(Debug, Copy, Clone)]
pub struct DynamicMode {
    operating_mode: OperatingMode,
}

impl View for DynamicMode {
    type V = OperatingMode;

    closed spec fn view(&self) -> OperatingMode {
        self.operating_mode
    }
}

impl DynamicMode {
    /// The record of a sensor that is ready.
    pub fn new() -> (mode: Self)
        ensures
            mode@ == OperatingMode::Ready,
    {
        Self { operating_mode: OperatingMode::Ready }
    }

    /// The operating mode on record.
    pub fn operating_mode(&self) -> (mode: OperatingMode)
        ensures
            mode == self@,
    {
        self.operating_mode
    }

    /// Puts `mode` on record.
    pub(crate) fn record(&mut self, mode: OperatingMode)
        ensures
            final(self)@ == mode,
    {
        self.operating_mode = mode;
    }
}

} // verus!
