//! Decoders for the status registers of the sensor.

use crate::error::Error;
use vstd::prelude::*;

verus! {

/// Mask of the error field of RESULT__INTERRUPT_STATUS_GPIO.
pub const ERROR_MASK: u8 = 0b11_000_000;

/// Mask of the ambient light event field of RESULT__INTERRUPT_STATUS_GPIO.
pub const AMBIENT_MASK: u8 = 0b00_111_000;

/// Mask of the range event field of RESULT__INTERRUPT_STATUS_GPIO.
pub const RANGE_MASK: u8 = 0b00_000_111;

/// Conditions that the interrupt status register reports.
///
/// The register holds three independent fields: error (bits 7:6), ambient
/// light event (bits 5:3) and range event (bits 2:0). Several conditions can
/// hold of one register value; [`ResultInterruptStatusGpioCode::has_status`]
/// tests one of them.
#[derive(Debug, Copy, Clone, PartialEq, Eq)]
pub enum ResultInterruptStatusGpioCode {
    /// No error is reported.
    NoError,
    /// Laser safety error.
    LaserSafetyError,
    /// Phase locked loop error (either PLL1 or PLL2).
    PllError,
    /// No ambient light event is reported.
    NoAmbientEvents,
    /// Ambient light level below the low threshold.
    LevelLowAmbientEvent,
    /// Ambient light level above the high threshold.
    LevelHighAmbientEvent,
    /// Ambient light level outside the window between the thresholds.
    OutOfWindowAmbientEvent,
    /// A new ambient light sample is ready.
    NewSampleReadyAmbientEvent,
    /// No range event is reported.
    NoRangeEvents,
    /// Range below the low threshold.
    LevelLowRangeEvent,
    /// Range above the high threshold.
    LevelHighRangeEvent,
    /// Range outside the window between the thresholds.
    OutOfWindowRangeEvent,
    /// A new range sample is ready.
    NewSampleReadyRangeEvent,
}

impl ResultInterruptStatusGpioCode {
    /// The bit pattern of an event in the register. The three conditions that
    /// say that a field is empty have no bits of their own.
    pub open spec fn spec_bits(self) -> u8 {
        match self {
            ResultInterruptStatusGpioCode::NoError => 0,
            ResultInterruptStatusGpioCode::LaserSafetyError => 0b01_000_000,
            ResultInterruptStatusGpioCode::PllError => 0b10_000_000,
            ResultInterruptStatusGpioCode::NoAmbientEvents => 0,
            ResultInterruptStatusGpioCode::LevelLowAmbientEvent => 0b00_001_000,
            ResultInterruptStatusGpioCode::LevelHighAmbientEvent => 0b00_010_000,
            ResultInterruptStatusGpioCode::OutOfWindowAmbientEvent => 0b00_011_000,
            ResultInterruptStatusGpioCode::NewSampleReadyAmbientEvent => 0b00_100_000,
            ResultInterruptStatusGpioCode::NoRangeEvents => 0,
            ResultInterruptStatusGpioCode::LevelLowRangeEvent => 0b00_000_001,
            ResultInterruptStatusGpioCode::LevelHighRangeEvent => 0b00_000_010,
            ResultInterruptStatusGpioCode::OutOfWindowRangeEvent => 0b00_000_011,
            ResultInterruptStatusGpioCode::NewSampleReadyRangeEvent => 0b00_000_100,
        }
    }

    /// The bit pattern of an event in the register.
    #[verifier::when_used_as_spec(spec_bits)]
    pub fn bits(self) -> (value: u8)
        ensures
            value == self.spec_bits(),
    {
        match self {
            ResultInterruptStatusGpioCode::NoError => 0,
            ResultInterruptStatusGpioCode::LaserSafetyError => 0b01_000_000,
            ResultInterruptStatusGpioCode::PllError => 0b10_000_000,
            ResultInterruptStatusGpioCode::NoAmbientEvents => 0,
            ResultInterruptStatusGpioCode::LevelLowAmbientEvent => 0b00_001_000,
            ResultInterruptStatusGpioCode::LevelHighAmbientEvent => 0b00_010_000,
            ResultInterruptStatusGpioCode::OutOfWindowAmbientEvent => 0b00_011_000,
            ResultInterruptStatusGpioCode::NewSampleReadyAmbientEvent => 0b00_100_000,
            ResultInterruptStatusGpioCode::NoRangeEvents => 0,
            ResultInterruptStatusGpioCode::LevelLowRangeEvent => 0b00_000_001,
            ResultInterruptStatusGpioCode::LevelHighRangeEvent => 0b00_000_010,
            ResultInterruptStatusGpioCode::OutOfWindowRangeEvent => 0b00_000_011,
            ResultInterruptStatusGpioCode::NewSampleReadyRangeEvent => 0b00_000_100,
        }
    }

    /// Whether the register value `within` reports the condition `look_for`.
    ///
    /// A field is empty when all bits under its mask are zero. An event is
    /// reported when any bit of its pattern is set in the register value.
    pub open spec fn spec_has_status(look_for: ResultInterruptStatusGpioCode, within: u8) -> bool {
        match look_for {
            ResultInterruptStatusGpioCode::NoError => within & ERROR_MASK == 0,
            ResultInterruptStatusGpioCode::NoAmbientEvents => within & AMBIENT_MASK == 0,
            ResultInterruptStatusGpioCode::NoRangeEvents => within & RANGE_MASK == 0,
            event => within & event.spec_bits() != 0,
        }
    }

    /// Whether the register value `within` reports the condition `look_for`.
    #[verifier::when_used_as_spec(spec_has_status)]
    pub fn has_status(look_for: ResultInterruptStatusGpioCode, within: u8) -> (found: bool)
        ensures
            found == Self::spec_has_status(look_for, within),
    {
        match look_for {
            ResultInterruptStatusGpioCode::NoError => within & ERROR_MASK == 0,
            ResultInterruptStatusGpioCode::NoAmbientEvents => within & AMBIENT_MASK == 0,
            ResultInterruptStatusGpioCode::NoRangeEvents => within & RANGE_MASK == 0,
            event => within & event.bits() != 0,
        }
    }

    /// The three empty-field conditions read as arithmetic on the register
    /// value: the error field is the value divided by 64, the ambient light
    /// field the next three bits, the range field the remainder by 8.
    pub proof fn law_empty_fields(within: u8)
        ensures
            Self::spec_has_status(ResultInterruptStatusGpioCode::NoError, within) <==> within
                < 64,
            Self::spec_has_status(ResultInterruptStatusGpioCode::NoAmbientEvents, within) <==> (
            within / 8) % 8 == 0,
            Self::spec_has_status(ResultInterruptStatusGpioCode::NoRangeEvents, within) <==> within
                % 8 == 0,
    {
        assert((within & 0b11_000_000 == 0) <==> within < 64) by (bit_vector);
        assert((within & 0b00_111_000 == 0) <==> (within / 8) % 8 == 0) by (bit_vector);
        assert((within & 0b00_000_111 == 0) <==> within % 8 == 0) by (bit_vector);
    }
}

/// Outcome of a range measurement: bits 7:4 of RESULT__RANGE_STATUS.
#[derive(Debug, Copy, Clone, PartialEq, Eq, Structural)]
pub enum RangeStatusErrorCode {
    /// Valid measurement.
    NoError,
    /// System error detected. No measurement possible.
    VcselContinuityTest,
    /// System error detected. No measurement possible.
    VcselWatchdogTest,
    /// System error detected. No measurement possible.
    VcselWatchdog,
    /// Phase locked loop 1 lock.
    Pll1Lock,
    /// Phase locked loop 2 lock.
    Pll2Lock,
    /// Early convergence estimate check failed.
    EarlyConvergenceEstimate,
    /// The system did not converge before the max convergence time limit. No
    /// target detected.
    MaxConvergence,
    /// Ignore threshold check failed.
    RangeIgnore,
    /// Ambient conditions too high. Measurement invalidated.
    MaxSignalToNoiseRatio,
    /// Range below zero (the offset is programmable, so a negative range is
    /// possible).
    RawRangingAlgoUnderflow,
    /// Result is out of range. This occurs typically around 200 mm.
    RawRangingAlgoOverflow,
    /// Range below zero (the offset is programmable, so a negative range is
    /// possible).
    RangingAlgoUnderflow,
    /// Result is out of range. This occurs typically around 200 mm.
    RangingAlgoOverflow,
}

impl RangeStatusErrorCode {
    /// The 4-bit code of the outcome.
    pub open spec fn spec_bits(self) -> u8 {
        match self {
            RangeStatusErrorCode::NoError => 0b0000,
            RangeStatusErrorCode::VcselContinuityTest => 0b0001,
            RangeStatusErrorCode::VcselWatchdogTest => 0b0010,
            RangeStatusErrorCode::VcselWatchdog => 0b0011,
            RangeStatusErrorCode::Pll1Lock => 0b0100,
            RangeStatusErrorCode::Pll2Lock => 0b0101,
            RangeStatusErrorCode::EarlyConvergenceEstimate => 0b0110,
            RangeStatusErrorCode::MaxConvergence => 0b0111,
            RangeStatusErrorCode::RangeIgnore => 0b1000,
            RangeStatusErrorCode::MaxSignalToNoiseRatio => 0b1011,
            RangeStatusErrorCode::RawRangingAlgoUnderflow => 0b1100,
            RangeStatusErrorCode::RawRangingAlgoOverflow => 0b1101,
            RangeStatusErrorCode::RangingAlgoUnderflow => 0b1110,
            RangeStatusErrorCode::RangingAlgoOverflow => 0b1111,
        }
    }

    /// The 4-bit code of the outcome.
    #[verifier::when_used_as_spec(spec_bits)]
    pub fn bits(self) -> (value: u8)
        ensures
            value == self.spec_bits(),
    {
        match self {
            RangeStatusErrorCode::NoError => 0b0000,
            RangeStatusErrorCode::VcselContinuityTest => 0b0001,
            RangeStatusErrorCode::VcselWatchdogTest => 0b0010,
            RangeStatusErrorCode::VcselWatchdog => 0b0011,
            RangeStatusErrorCode::Pll1Lock => 0b0100,
            RangeStatusErrorCode::Pll2Lock => 0b0101,
            RangeStatusErrorCode::EarlyConvergenceEstimate => 0b0110,
            RangeStatusErrorCode::MaxConvergence => 0b0111,
            RangeStatusErrorCode::RangeIgnore => 0b1000,
            RangeStatusErrorCode::MaxSignalToNoiseRatio => 0b1011,
            RangeStatusErrorCode::RawRangingAlgoUnderflow => 0b1100,
            RangeStatusErrorCode::RawRangingAlgoOverflow => 0b1101,
            RangeStatusErrorCode::RangingAlgoUnderflow => 0b1110,
            RangeStatusErrorCode::RangingAlgoOverflow => 0b1111,
        }
    }

    /// The outcome that a 4-bit code stands for, if it stands for one.
    pub open spec fn of_code(code: int) -> Option<RangeStatusErrorCode> {
        if code == 0b0000 {
            Some(RangeStatusErrorCode::NoError)
        } else if code == 0b0001 {
            Some(RangeStatusErrorCode::VcselContinuityTest)
        } else if code == 0b0010 {
            Some(RangeStatusErrorCode::VcselWatchdogTest)
        } else if code == 0b0011 {
            Some(RangeStatusErrorCode::VcselWatchdog)
        } else if code == 0b0100 {
            Some(RangeStatusErrorCode::Pll1Lock)
        } else if code == 0b0101 {
            Some(RangeStatusErrorCode::Pll2Lock)
        } else if code == 0b0110 {
            Some(RangeStatusErrorCode::EarlyConvergenceEstimate)
        } else if code == 0b0111 {
            Some(RangeStatusErrorCode::MaxConvergence)
        } else if code == 0b1000 {
            Some(RangeStatusErrorCode::RangeIgnore)
        } else if code == 0b1011 {
            Some(RangeStatusErrorCode::MaxSignalToNoiseRatio)
        } else if code == 0b1100 {
            Some(RangeStatusErrorCode::RawRangingAlgoUnderflow)
        } else if code == 0b1101 {
            Some(RangeStatusErrorCode::RawRangingAlgoOverflow)
        } else if code == 0b1110 {
            Some(RangeStatusErrorCode::RangingAlgoUnderflow)
        } else if code == 0b1111 {
            Some(RangeStatusErrorCode::RangingAlgoOverflow)
        } else {
            None
        }
    }

    /// Whether the register value `within` reports anything but a valid
    /// measurement: whether its upper four bits are not all zero.
    pub fn has_error(within: u8) -> (found: bool)
        ensures
            found == (within / 16 != 0),
    {
        assert(within >> 4 == within / 16) by (bit_vector);
        (within >> 4) != 0
    }

    /// Every outcome is what its own code decodes to, whatever the lower four
    /// bits of the register hold, and a register value decodes to an outcome
    /// only if its upper four bits are that outcome's code.
    pub proof fn law_decode_encode(self, low: u8)
        requires
            low < 16,
        ensures
            self.spec_bits() < 16,
            Self::of_code(self.spec_bits() as int) == Some(self),
            <Self as vstd::std_specs::convert::TryFromSpec<u8>>::try_from_spec(
                (self.spec_bits() * 16 + low) as u8,
            ) == Ok::<Self, Error<()>>(self),
            forall|value: u8|
                <Self as vstd::std_specs::convert::TryFromSpec<u8>>::try_from_spec(value) == Ok::<
                    Self,
                    Error<()>,
                >(self) ==> #[trigger] (value / 16) == self.spec_bits(),
    {
    }
}

impl TryFrom<u8> for RangeStatusErrorCode {
    type Error = Error<()>;

    /// Decodes RESULT__RANGE_STATUS: the outcome stands in bits 7:4 of the
    /// register value. A code that stands for no outcome is returned in
    /// [`Error::UnknownRegisterCode`].
    fn try_from(register_value: u8) -> (decoded: Result<Self, Error<()>>) {
        assert(register_value >> 4 == register_value / 16) by (bit_vector);
        let code: u8 = register_value >> 4;
        match code {
            0b0000 => Ok(RangeStatusErrorCode::NoError),
            0b0001 => Ok(RangeStatusErrorCode::VcselContinuityTest),
            0b0010 => Ok(RangeStatusErrorCode::VcselWatchdogTest),
            0b0011 => Ok(RangeStatusErrorCode::VcselWatchdog),
            0b0100 => Ok(RangeStatusErrorCode::Pll1Lock),
            0b0101 => Ok(RangeStatusErrorCode::Pll2Lock),
            0b0110 => Ok(RangeStatusErrorCode::EarlyConvergenceEstimate),
            0b0111 => Ok(RangeStatusErrorCode::MaxConvergence),
            0b1000 => Ok(RangeStatusErrorCode::RangeIgnore),
            0b1011 => Ok(RangeStatusErrorCode::MaxSignalToNoiseRatio),
            0b1100 => Ok(RangeStatusErrorCode::RawRangingAlgoUnderflow),
            0b1101 => Ok(RangeStatusErrorCode::RawRangingAlgoOverflow),
            0b1110 => Ok(RangeStatusErrorCode::RangingAlgoUnderflow),
            0b1111 => Ok(RangeStatusErrorCode::RangingAlgoOverflow),
            _ => Err(Error::UnknownRegisterCode(code)),
        }
    }
}

impl vstd::std_specs::convert::TryFromSpecImpl<u8> for RangeStatusErrorCode {
    open spec fn obeys_try_from_spec() -> bool {
        true
    }

    /// The outcome whose code is the register value divided by 16, or
    /// [`Error::UnknownRegisterCode`] with that quotient if there is none.
    open spec fn try_from_spec(register_value: u8) -> Result<Self, Error<()>> {
        match Self::of_code(register_value as int / 16) {
            Some(outcome) => Ok(outcome),
            None => Err(Error::UnknownRegisterCode((register_value / 16) as u8)),
        }
    }
}

/// Outcome of an ambient light measurement: bits 7:4 of RESULT__ALS_STATUS.
#[derive(Debug, Copy, Clone, PartialEq, Eq, Structural)]
pub enum AmbientStatusErrorCode {
    /// Valid measurement.
    NoError,
    /// Overflow error.
    Overflow,
    /// Underflow error.
    Underflow,
}

impl AmbientStatusErrorCode {
    /// The 4-bit code of the outcome.
    pub open spec fn spec_bits(self) -> u8 {
        match self {
            AmbientStatusErrorCode::NoError => 0b0000,
            AmbientStatusErrorCode::Overflow => 0b0001,
            AmbientStatusErrorCode::Underflow => 0b0010,
        }
    }

    /// The 4-bit code of the outcome.
    #[verifier::when_used_as_spec(spec_bits)]
    pub fn bits(self) -> (value: u8)
        ensures
            value == self.spec_bits(),
    {
        match self {
            AmbientStatusErrorCode::NoError => 0b0000,
            AmbientStatusErrorCode::Overflow => 0b0001,
            AmbientStatusErrorCode::Underflow => 0b0010,
        }
    }

    /// The outcome that a 4-bit code stands for, if it stands for one.
    pub open spec fn of_code(code: int) -> Option<AmbientStatusErrorCode> {
        if code == 0b0000 {
            Some(AmbientStatusErrorCode::NoError)
        } else if code == 0b0001 {
            Some(AmbientStatusErrorCode::Overflow)
        } else if code == 0b0010 {
            Some(AmbientStatusErrorCode::Underflow)
        } else {
            None
        }
    }

    /// Whether the register value `within` reports anything but a valid
    /// measurement: whether its upper four bits are not all zero.
    pub fn has_error(within: u8) -> (found: bool)
        ensures
            found == (within / 16 != 0),
    {
        assert(within >> 4 == within / 16) by (bit_vector);
        (within >> 4) != 0
    }

    /// Every outcome is what its own code decodes to, whatever the lower four
    /// bits of the register hold, and a register value decodes to an outcome
    /// only if its upper four bits are that outcome's code.
    pub proof fn law_decode_encode(self, low: u8)
        requires
            low < 16,
        ensures
            self.spec_bits() < 16,
            Self::of_code(self.spec_bits() as int) == Some(self),
            <Self as vstd::std_specs::convert::TryFromSpec<u8>>::try_from_spec(
                (self.spec_bits() * 16 + low) as u8,
            ) == Ok::<Self, Error<()>>(self),
            forall|value: u8|
                <Self as vstd::std_specs::convert::TryFromSpec<u8>>::try_from_spec(value) == Ok::<
                    Self,
                    Error<()>,
                >(self) ==> #[trigger] (value / 16) == self.spec_bits(),
    {
    }
}

impl TryFrom<u8> for AmbientStatusErrorCode {
    type Error = Error<()>;

    /// Decodes RESULT__ALS_STATUS: the outcome stands in bits 7:4 of the
    /// register value. A code that stands for no outcome is returned in
    /// [`Error::UnknownRegisterCode`].
    fn try_from(register_value: u8) -> (decoded: Result<Self, Error<()>>) {
        assert(register_value >> 4 == register_value / 16) by (bit_vector);
        let code: u8 = register_value >> 4;
        match code {
            0b0000 => Ok(AmbientStatusErrorCode::NoError),
            0b0001 => Ok(AmbientStatusErrorCode::Overflow),
            0b0010 => Ok(AmbientStatusErrorCode::Underflow),
            _ => Err(Error::UnknownRegisterCode(code)),
        }
    }
}

impl vstd::std_specs::convert::TryFromSpecImpl<u8> for AmbientStatusErrorCode {
    open spec fn obeys_try_from_spec() -> bool {
        true
    }

    /// The outcome whose code is the register value divided by 16, or
    /// [`Error::UnknownRegisterCode`] with that quotient if there is none.
    open spec fn try_from_spec(register_value: u8) -> Result<Self, Error<()>> {
        match Self::of_code(register_value as int / 16) {
            Some(outcome) => Ok(outcome),
            None => Err(Error::UnknownRegisterCode((register_value / 16) as u8)),
        }
    }
}

} // verus!
