//! Register addresses and register codes of the sensor, as the datasheet
//! gives them.

use vstd::prelude::*;

verus! {


/// Registers that hold one byte.
#[allow(non_camel_case_types)]
#[derive(Debug, Clone, Copy, PartialEq, Eq)]
pub enum Register8Bit {
    IDENTIFICATION__MODEL_ID,
    IDENTIFICATION__MODEL_REV_MAJOR,
    IDENTIFICATION__MODEL_REV_MINOR,
    IDENTIFICATION__MODULE_REV_MAJOR,
    IDENTIFICATION__MODULE_REV_MINOR,
    IDENTIFICATION__DATE_HI,
    IDENTIFICATION__DATE_LO,
    SYSTEM__MODE_GPIO0,
    SYSTEM__MODE_GPIO1,
    SYSTEM__HISTORY_CTRL,
    SYSTEM__INTERRUPT_CONFIG_GPIO,
    SYSTEM__INTERRUPT_CLEAR,
    SYSTEM__FRESH_OUT_OF_RESET,
    SYSTEM__GROUPED_PARAMETER_HOLD,
    SYSRANGE__START,
    SYSRANGE__THRESH_HIGH,
    SYSRANGE__THRESH_LOW,
    SYSRANGE__INTERMEASUREMENT_PERIOD,
    SYSRANGE__MAX_CONVERGENCE_TIME,
    SYSRANGE__CROSSTALK_VALID_HEIGHT,
    SYSRANGE__PART_TO_PART_RANGE_OFFSET,
    SYSRANGE__RANGE_IGNORE_VALID_HEIGHT,
    SYSRANGE__MAX_AMBIENT_LEVEL_MULT,
    SYSRANGE__RANGE_CHECK_ENABLES,
    SYSRANGE__VHV_RECALIBRATE,
    SYSRANGE__VHV_REPEAT_RATE,
    SYSALS__START,
    SYSALS__INTERMEASUREMENT_PERIOD,
    SYSALS__ANALOGUE_GAIN,
    RESULT__RANGE_STATUS,
    RESULT__ALS_STATUS,
    RESULT__INTERRUPT_STATUS_GPIO,
    RESULT__RANGE_VAL,
    RESULT__RANGE_RAW,
    READOUT__AVERAGING_SAMPLE_PERIOD,
    FIRMWARE__BOOTUP,
    FIRMWARE__RESULT_SCALER,
    I2C_SLAVE__DEVICE_ADDRESS,
    INTERLEAVED_MODE__ENABLE,
}

impl Register8Bit {
    /// The address of the register in the device's 16-bit register space.
    pub open spec fn spec_address(self) -> u16 {
        match self {
            Register8Bit::IDENTIFICATION__MODEL_ID => 0x000,
            Register8Bit::IDENTIFICATION__MODEL_REV_MAJOR => 0x001,
            Register8Bit::IDENTIFICATION__MODEL_REV_MINOR => 0x002,
            Register8Bit::IDENTIFICATION__MODULE_REV_MAJOR => 0x003,
            Register8Bit::IDENTIFICATION__MODULE_REV_MINOR => 0x004,
            Register8Bit::IDENTIFICATION__DATE_HI => 0x006,
            Register8Bit::IDENTIFICATION__DATE_LO => 0x007,
            Register8Bit::SYSTEM__MODE_GPIO0 => 0x010,
            Register8Bit::SYSTEM__MODE_GPIO1 => 0x011,
            Register8Bit::SYSTEM__HISTORY_CTRL => 0x012,
            Register8Bit::SYSTEM__INTERRUPT_CONFIG_GPIO => 0x014,
            Register8Bit::SYSTEM__INTERRUPT_CLEAR => 0x015,
            Register8Bit::SYSTEM__FRESH_OUT_OF_RESET => 0x016,
            Register8Bit::SYSTEM__GROUPED_PARAMETER_HOLD => 0x017,
            Register8Bit::SYSRANGE__START => 0x018,
            Register8Bit::SYSRANGE__THRESH_HIGH => 0x019,
            Register8Bit::SYSRANGE__THRESH_LOW => 0x01A,
            Register8Bit::SYSRANGE__INTERMEASUREMENT_PERIOD => 0x01B,
            Register8Bit::SYSRANGE__MAX_CONVERGENCE_TIME => 0x01C,
            Register8Bit::SYSRANGE__CROSSTALK_VALID_HEIGHT => 0x021,
            Register8Bit::SYSRANGE__PART_TO_PART_RANGE_OFFSET => 0x024,
            Register8Bit::SYSRANGE__RANGE_IGNORE_VALID_HEIGHT => 0x025,
            Register8Bit::SYSRANGE__MAX_AMBIENT_LEVEL_MULT => 0x02C,
            Register8Bit::SYSRANGE__RANGE_CHECK_ENABLES => 0x02D,
            Register8Bit::SYSRANGE__VHV_RECALIBRATE => 0x02E,
            Register8Bit::SYSRANGE__VHV_REPEAT_RATE => 0x031,
            Register8Bit::SYSALS__START => 0x038,
            Register8Bit::SYSALS__INTERMEASUREMENT_PERIOD => 0x03E,
            Register8Bit::SYSALS__ANALOGUE_GAIN => 0x03F,
            Register8Bit::RESULT__RANGE_STATUS => 0x04D,
            Register8Bit::RESULT__ALS_STATUS => 0x04E,
            Register8Bit::RESULT__INTERRUPT_STATUS_GPIO => 0x04F,
            Register8Bit::RESULT__RANGE_VAL => 0x062,
            Register8Bit::RESULT__RANGE_RAW => 0x064,
            Register8Bit::READOUT__AVERAGING_SAMPLE_PERIOD => 0x10A,
            Register8Bit::FIRMWARE__BOOTUP => 0x119,
            Register8Bit::FIRMWARE__RESULT_SCALER => 0x120,
            Register8Bit::I2C_SLAVE__DEVICE_ADDRESS => 0x212,
            Register8Bit::INTERLEAVED_MODE__ENABLE => 0x2A3,
        }
    }

    /// The address of the register in the device's 16-bit register space.
    #[verifier::when_used_as_spec(spec_address)]
    pub fn address(self) -> (value: u16)
        ensures
            value == self.spec_address(),
    {
        match self {
            Register8Bit::IDENTIFICATION__MODEL_ID => 0x000,
            Register8Bit::IDENTIFICATION__MODEL_REV_MAJOR => 0x001,
            Register8Bit::IDENTIFICATION__MODEL_REV_MINOR => 0x002,
            Register8Bit::IDENTIFICATION__MODULE_REV_MAJOR => 0x003,
            Register8Bit::IDENTIFICATION__MODULE_REV_MINOR => 0x004,
            Register8Bit::IDENTIFICATION__DATE_HI => 0x006,
            Register8Bit::IDENTIFICATION__DATE_LO => 0x007,
            Register8Bit::SYSTEM__MODE_GPIO0 => 0x010,
            Register8Bit::SYSTEM__MODE_GPIO1 => 0x011,
            Register8Bit::SYSTEM__HISTORY_CTRL => 0x012,
            Register8Bit::SYSTEM__INTERRUPT_CONFIG_GPIO => 0x014,
            Register8Bit::SYSTEM__INTERRUPT_CLEAR => 0x015,
            Register8Bit::SYSTEM__FRESH_OUT_OF_RESET => 0x016,
            Register8Bit::SYSTEM__GROUPED_PARAMETER_HOLD => 0x017,
            Register8Bit::SYSRANGE__START => 0x018,
            Register8Bit::SYSRANGE__THRESH_HIGH => 0x019,
            Register8Bit::SYSRANGE__THRESH_LOW => 0x01A,
            Register8Bit::SYSRANGE__INTERMEASUREMENT_PERIOD => 0x01B,
            Register8Bit::SYSRANGE__MAX_CONVERGENCE_TIME => 0x01C,
            Register8Bit::SYSRANGE__CROSSTALK_VALID_HEIGHT => 0x021,
            Register8Bit::SYSRANGE__PART_TO_PART_RANGE_OFFSET => 0x024,
            Register8Bit::SYSRANGE__RANGE_IGNORE_VALID_HEIGHT => 0x025,
            Register8Bit::SYSRANGE__MAX_AMBIENT_LEVEL_MULT => 0x02C,
            Register8Bit::SYSRANGE__RANGE_CHECK_ENABLES => 0x02D,
            Register8Bit::SYSRANGE__VHV_RECALIBRATE => 0x02E,
            Register8Bit::SYSRANGE__VHV_REPEAT_RATE => 0x031,
            Register8Bit::SYSALS__START => 0x038,
            Register8Bit::SYSALS__INTERMEASUREMENT_PERIOD => 0x03E,
            Register8Bit::SYSALS__ANALOGUE_GAIN => 0x03F,
            Register8Bit::RESULT__RANGE_STATUS => 0x04D,
            Register8Bit::RESULT__ALS_STATUS => 0x04E,
            Register8Bit::RESULT__INTERRUPT_STATUS_GPIO => 0x04F,
            Register8Bit::RESULT__RANGE_VAL => 0x062,
            Register8Bit::RESULT__RANGE_RAW => 0x064,
            Register8Bit::READOUT__AVERAGING_SAMPLE_PERIOD => 0x10A,
            Register8Bit::FIRMWARE__BOOTUP => 0x119,
            Register8Bit::FIRMWARE__RESULT_SCALER => 0x120,
            Register8Bit::I2C_SLAVE__DEVICE_ADDRESS => 0x212,
            Register8Bit::INTERLEAVED_MODE__ENABLE => 0x2A3,
        }
    }
}

/// Registers that hold two bytes, most significant byte first.
#[allow(non_camel_case_types)]
#[derive(Debug, Clone, Copy, PartialEq, Eq)]
pub enum Register16Bit {
    IDENTIFICATION__TIME,
    SYSRANGE__CROSSTALK_COMPENSATION_RATE,
    SYSRANGE__EARLY_CONVERGENCE_ESTIMATE,
    SYSRANGE__RANGE_IGNORE_THRESHOLD,
    SYSALS__THRESH_HIGH,
    SYSALS__THRESH_LOW,
    SYSALS__INTEGRATION_PERIOD,
    RESULT__ALS_VAL,
    RESULT__HISTORY_BUFFER_0,
    RESULT__HISTORY_BUFFER_1,
    RESULT__HISTORY_BUFFER_2,
    RESULT__HISTORY_BUFFER_3,
    RESULT__HISTORY_BUFFER_4,
    RESULT__HISTORY_BUFFER_5,
    RESULT__HISTORY_BUFFER_6,
    RESULT__HISTORY_BUFFER_7,
    RESULT__RANGE_RETURN_RATE,
    RESULT__RANGE_REFERENCE_RATE,
    RANGE_SCALER,
}

impl Register16Bit {
    /// The address of the register in the device's 16-bit register space.
    pub open spec fn spec_address(self) -> u16 {
        match self {
            Register16Bit::IDENTIFICATION__TIME => 0x008,
            Register16Bit::SYSRANGE__CROSSTALK_COMPENSATION_RATE => 0x01E,
            Register16Bit::SYSRANGE__EARLY_CONVERGENCE_ESTIMATE => 0x022,
            Register16Bit::SYSRANGE__RANGE_IGNORE_THRESHOLD => 0x026,
            Register16Bit::SYSALS__THRESH_HIGH => 0x03A,
            Register16Bit::SYSALS__THRESH_LOW => 0x03C,
            Register16Bit::SYSALS__INTEGRATION_PERIOD => 0x040,
            Register16Bit::RESULT__ALS_VAL => 0x050,
            Register16Bit::RESULT__HISTORY_BUFFER_0 => 0x052,
            Register16Bit::RESULT__HISTORY_BUFFER_1 => 0x054,
            Register16Bit::RESULT__HISTORY_BUFFER_2 => 0x056,
            Register16Bit::RESULT__HISTORY_BUFFER_3 => 0x058,
            Register16Bit::RESULT__HISTORY_BUFFER_4 => 0x05A,
            Register16Bit::RESULT__HISTORY_BUFFER_5 => 0x05C,
            Register16Bit::RESULT__HISTORY_BUFFER_6 => 0x05E,
            Register16Bit::RESULT__HISTORY_BUFFER_7 => 0x060,
            Register16Bit::RESULT__RANGE_RETURN_RATE => 0x066,
            Register16Bit::RESULT__RANGE_REFERENCE_RATE => 0x068,
            Register16Bit::RANGE_SCALER => 0x096,
        }
    }

    /// The address of the register in the device's 16-bit register space.
    #[verifier::when_used_as_spec(spec_address)]
    pub fn address(self) -> (value: u16)
        ensures
            value == self.spec_address(),
    {
        match self {
            Register16Bit::IDENTIFICATION__TIME => 0x008,
            Register16Bit::SYSRANGE__CROSSTALK_COMPENSATION_RATE => 0x01E,
            Register16Bit::SYSRANGE__EARLY_CONVERGENCE_ESTIMATE => 0x022,
            Register16Bit::SYSRANGE__RANGE_IGNORE_THRESHOLD => 0x026,
            Register16Bit::SYSALS__THRESH_HIGH => 0x03A,
            Register16Bit::SYSALS__THRESH_LOW => 0x03C,
            Register16Bit::SYSALS__INTEGRATION_PERIOD => 0x040,
            Register16Bit::RESULT__ALS_VAL => 0x050,
            Register16Bit::RESULT__HISTORY_BUFFER_0 => 0x052,
            Register16Bit::RESULT__HISTORY_BUFFER_1 => 0x054,
            Register16Bit::RESULT__HISTORY_BUFFER_2 => 0x056,
            Register16Bit::RESULT__HISTORY_BUFFER_3 => 0x058,
            Register16Bit::RESULT__HISTORY_BUFFER_4 => 0x05A,
            Register16Bit::RESULT__HISTORY_BUFFER_5 => 0x05C,
            Register16Bit::RESULT__HISTORY_BUFFER_6 => 0x05E,
            Register16Bit::RESULT__HISTORY_BUFFER_7 => 0x060,
            Register16Bit::RESULT__RANGE_RETURN_RATE => 0x066,
            Register16Bit::RESULT__RANGE_REFERENCE_RATE => 0x068,
            Register16Bit::RANGE_SCALER => 0x096,
        }
    }
}

/// Registers that hold four bytes, most significant byte first.
#[allow(non_camel_case_types)]
#[derive(Debug, Clone, Copy, PartialEq, Eq)]
pub enum Register32Bit {
    RESULT__RANGE_RETURN_SIGNAL_COUNT,
    RESULT__RANGE_REFERENCE_SIGNAL_COUNT,
    RESULT__RANGE_RETURN_AMB_COUNT,
    RESULT__RANGE_REFERENCE_AMB_COUNT,
    RESULT__RANGE_RETURN_CONV_TIME,
    RESULT__RANGE_REFERENCE_CONV_TIME,
}

impl Register32Bit {
    /// The address of the register in the device's 16-bit register space.
    pub open spec fn spec_address(self) -> u16 {
        match self {
            Register32Bit::RESULT__RANGE_RETURN_SIGNAL_COUNT => 0x06C,
            Register32Bit::RESULT__RANGE_REFERENCE_SIGNAL_COUNT => 0x070,
            Register32Bit::RESULT__RANGE_RETURN_AMB_COUNT => 0x074,
            Register32Bit::RESULT__RANGE_REFERENCE_AMB_COUNT => 0x078,
            Register32Bit::RESULT__RANGE_RETURN_CONV_TIME => 0x07C,
            Register32Bit::RESULT__RANGE_REFERENCE_CONV_TIME => 0x080,
        }
    }

    /// The address of the register in the device's 16-bit register space.
    #[verifier::when_used_as_spec(spec_address)]
    pub fn address(self) -> (value: u16)
        ensures
            value == self.spec_address(),
    {
        match self {
            Register32Bit::RESULT__RANGE_RETURN_SIGNAL_COUNT => 0x06C,
            Register32Bit::RESULT__RANGE_REFERENCE_SIGNAL_COUNT => 0x070,
            Register32Bit::RESULT__RANGE_RETURN_AMB_COUNT => 0x074,
            Register32Bit::RESULT__RANGE_REFERENCE_AMB_COUNT => 0x078,
            Register32Bit::RESULT__RANGE_RETURN_CONV_TIME => 0x07C,
            Register32Bit::RESULT__RANGE_REFERENCE_CONV_TIME => 0x080,
        }
    }
}

/// Polarity of the GPIO1 pin, a field of SYSTEM__MODE_GPIO1.
#[derive(Debug, Clone, Copy, PartialEq, Eq)]
pub enum SysModeGpio1Polarity {
    /// The pin is driven low while the interrupt is asserted.
    ActiveLow,
    /// The pin is driven high while the interrupt is asserted.
    ActiveHigh,
}

impl SysModeGpio1Polarity {
    /// The value written to the register for this choice.
    pub open spec fn spec_bits(self) -> u8 {
        match self {
            SysModeGpio1Polarity::ActiveLow => 0b00_0_0000_0,
            SysModeGpio1Polarity::ActiveHigh => 0b00_1_0000_0,
        }
    }

    /// The value written to the register for this choice.
    #[verifier::when_used_as_spec(spec_bits)]
    pub fn bits(self) -> (value: u8)
        ensures
            value == self.spec_bits(),
    {
        match self {
            SysModeGpio1Polarity::ActiveLow => 0b00_0_0000_0,
            SysModeGpio1Polarity::ActiveHigh => 0b00_1_0000_0,
        }
    }
}

/// Function of the GPIO1 pin, a field of SYSTEM__MODE_GPIO1.
#[derive(Debug, Clone, Copy, PartialEq, Eq)]
pub enum SysModeGpio1Select {
    /// The pin is not driven.
    Off,
    /// The pin signals interrupts.
    InterruptOutput,
}

impl SysModeGpio1Select {
    /// The value written to the register for this choice.
    pub open spec fn spec_bits(self) -> u8 {
        match self {
            SysModeGpio1Select::Off => 0b00_0_0000_0,
            SysModeGpio1Select::InterruptOutput => 0b00_0_1000_0,
        }
    }

    /// The value written to the register for this choice.
    #[verifier::when_used_as_spec(spec_bits)]
    pub fn bits(self) -> (value: u8)
        ensures
            value == self.spec_bits(),
    {
        match self {
            SysModeGpio1Select::Off => 0b00_0_0000_0,
            SysModeGpio1Select::InterruptOutput => 0b00_0_1000_0,
        }
    }
}

/// Start codes of SYSRANGE__START.
///
/// Bit 1 selects continuous mode. Bit 0 is the start or stop trigger: in
/// continuous mode it starts the measurements when they are stopped and stops
/// them when they are running. The device clears the register by itself.
#[derive(Debug, Clone, Copy, PartialEq, Eq)]
pub enum SysRangeStartCode {
    /// Start one range measurement.
    SingleStart,
    /// Start continuous range measurements, or stop them.
    ContinuousStartOrStop,
}

impl SysRangeStartCode {
    /// The value written to the register for this choice.
    pub open spec fn spec_bits(self) -> u8 {
        match self {
            SysRangeStartCode::SingleStart => 0b000000_01,
            SysRangeStartCode::ContinuousStartOrStop => 0b000000_11,
        }
    }

    /// The value written to the register for this choice.
    #[verifier::when_used_as_spec(spec_bits)]
    pub fn bits(self) -> (value: u8)
        ensures
            value == self.spec_bits(),
    {
        match self {
            SysRangeStartCode::SingleStart => 0b000000_01,
            SysRangeStartCode::ContinuousStartOrStop => 0b000000_11,
        }
    }
}

/// Bits of SYSTEM__INTERRUPT_CLEAR. Writing a 1 to a bit clears that interrupt.
#[derive(Debug, Clone, Copy, PartialEq, Eq)]
pub enum SysInterruptClearCode {
    /// Clear the range interrupt.
    Range,
    /// Clear the ambient light interrupt.
    Ambient,
    /// Clear the error interrupt.
    Error,
}

impl SysInterruptClearCode {
    /// The value written to the register for this choice.
    pub open spec fn spec_bits(self) -> u8 {
        match self {
            SysInterruptClearCode::Range => 0b00000_001,
            SysInterruptClearCode::Ambient => 0b00000_010,
            SysInterruptClearCode::Error => 0b00000_100,
        }
    }

    /// The value written to the register for this choice.
    #[verifier::when_used_as_spec(spec_bits)]
    pub fn bits(self) -> (value: u8)
        ensures
            value == self.spec_bits(),
    {
        match self {
            SysInterruptClearCode::Range => 0b00000_001,
            SysInterruptClearCode::Ambient => 0b00000_010,
            SysInterruptClearCode::Error => 0b00000_100,
        }
    }
}

/// Start codes of SYSALS__START, with the same meaning of the bits as for
/// the range start register.
#[derive(Debug, Clone, Copy, PartialEq, Eq)]
pub enum SysAmbientStartCode {
    /// Start one ambient light measurement.
    SingleStart,
    /// Start continuous ambient light measurements, or stop them.
    ContinuousStartOrStop,
}

impl SysAmbientStartCode {
    /// The value written to the register for this choice.
    pub open spec fn spec_bits(self) -> u8 {
        match self {
            SysAmbientStartCode::SingleStart => 0b000000_01,
            SysAmbientStartCode::ContinuousStartOrStop => 0b000000_11,
        }
    }

    /// The value written to the register for this choice.
    #[verifier::when_used_as_spec(spec_bits)]
    pub fn bits(self) -> (value: u8)
        ensures
            value == self.spec_bits(),
    {
        match self {
            SysAmbientStartCode::SingleStart => 0b000000_01,
            SysAmbientStartCode::ContinuousStartOrStop => 0b000000_11,
        }
    }
}

/// Values of INTERLEAVED_MODE__ENABLE.
#[derive(Debug, Clone, Copy, PartialEq, Eq)]
pub enum InterleavedModeEnableCode {
    /// Range measurements follow each ambient light measurement.
    Enable,
    /// The two channels run independently.
    Disable,
}

impl InterleavedModeEnableCode {
    /// The value written to the register for this choice.
    pub open spec fn spec_bits(self) -> u8 {
        match self {
            InterleavedModeEnableCode::Enable => 1,
            InterleavedModeEnableCode::Disable => 0,
        }
    }

    /// The value written to the register for this choice.
    #[verifier::when_used_as_spec(spec_bits)]
    pub fn bits(self) -> (value: u8)
        ensures
            value == self.spec_bits(),
    {
        match self {
            InterleavedModeEnableCode::Enable => 1,
            InterleavedModeEnableCode::Disable => 0,
        }
    }
}

/// RANGE_SCALER register values, indexed by the range scaling factor. Index 0
/// stands for no scaling factor and is never written.
pub const RANGE_SCALAR_CODE: [u16; 4] = [0, 253, 127, 84];

/// SYSALS__ANALOGUE_GAIN register values, indexed by the analogue gain level.
/// The levels stand for gains of 1.01, 1.28, 1.72, 2.60, 5.21, 10.32, 20 and 40.
pub const AMBIENT_ANALOGUE_GAIN_CODE: [u8; 8] = [0x46, 0x45, 0x44, 0x43, 0x42, 0x41, 0x40, 0x47];

/// Value of IDENTIFICATION__MODEL_ID on a VL6180X.
pub const MODEL_ID: u8 = 0xB4;

} // verus!
