//! The register writes that bring the sensor from reset into its configured
//! state.

use crate::bus::Access;
use crate::config::{Config, Settings, DEFAULT_CROSSTALK_VALID_HEIGHT};
use crate::register::{
    Register16Bit, Register8Bit, SysModeGpio1Polarity, SysModeGpio1Select,
    AMBIENT_ANALOGUE_GAIN_CODE, RANGE_SCALAR_CODE,
};
use vstd::prelude::*;

verus! {

/// Number of entries of [`PRIVATE_REGISTERS`].
pub const PRIVATE_REGISTER_COUNT: usize = 30;

/// The mandatory private register settings of the application note, each an
/// address and the value to write there, in the order in which they are
/// written.
pub const PRIVATE_REGISTERS: [(u16, u8); 30] = [
    (0x207, 0x01),
    (0x208, 0x01),
    (0x096, 0x00),
    (0x097, 0xFD),
    (0x0E3, 0x01),
    (0x0E4, 0x03),
    (0x0E5, 0x02),
    (0x0E6, 0x01),
    (0x0E7, 0x03),
    (0x0F5, 0x02),
    (0x0D9, 0x05),
    (0x0DB, 0xCE),
    (0x0DC, 0x03),
    (0x0DD, 0xF8),
    (0x09F, 0x00),
    (0x0A3, 0x3C),
    (0x0B7, 0x00),
    (0x0BB, 0x3C),
    (0x0B2, 0x09),
    (0x0CA, 0x09),
    (0x198, 0x01),
    (0x1B0, 0x17),
    (0x1AD, 0x00),
    (0x0FF, 0x05),
    (0x100, 0x05),
    (0x199, 0x05),
    (0x1A6, 0x1B),
    (0x1AC, 0x3E),
    (0x1A7, 0x1F),
    (0x030, 0x00),
];

/// Number of writes of [`configuration_writes`].
pub const CONFIGURATION_WRITE_COUNT: usize = 19;

/// The writes that a device fresh out of reset needs before it is
/// configured: the private registers, then the write that clears the
/// fresh-out-of-reset flag.
pub open spec fn reset_writes() -> Seq<Access> {
    Seq::new(
        PRIVATE_REGISTER_COUNT as nat,
        |i: int| Access::WriteByte { register: PRIVATE_REGISTERS[i].0, value: PRIVATE_REGISTERS[i].1 },
    ).push(
        Access::WriteByte { register: Register8Bit::SYSTEM__FRESH_OUT_OF_RESET.spec_address(), value: 0 },
    )
}

/// The writes that put the configuration `settings` into the registers, in
/// order: the timing and gain of the measurements, the interrupts with their
/// thresholds, the max convergence time, interleaved mode off, and at last
/// the range scaling with what depends on it.
pub open spec fn configuration_writes(settings: Settings) -> Seq<Access> {
    seq![
        Access::WriteByte {
            register: Register8Bit::READOUT__AVERAGING_SAMPLE_PERIOD.spec_address(),
            value: settings.readout_averaging_period_multiplier,
        },
        Access::WriteByte {
            register: Register8Bit::SYSALS__ANALOGUE_GAIN.spec_address(),
            value: settings.ambient_gain_code(),
        },
        Access::WriteByte {
            register: Register8Bit::FIRMWARE__RESULT_SCALER.spec_address(),
            value: settings.ambient_scaling,
        },
        Access::WriteByte {
            register: Register8Bit::SYSRANGE__VHV_REPEAT_RATE.spec_address(),
            value: settings.range_vhv_recalibration_rate,
        },
        Access::WriteWord {
            register: Register16Bit::SYSALS__INTEGRATION_PERIOD.spec_address(),
            value: settings.ambient_integration_code() as u16,
        },
        Access::WriteByte {
            register: Register8Bit::SYSALS__INTERMEASUREMENT_PERIOD.spec_address(),
            value: settings.ambient_inter_measurement_code() as u8,
        },
        Access::WriteByte {
            register: Register8Bit::SYSRANGE__VHV_RECALIBRATE.spec_address(),
            value: 0x01,
        },
        Access::WriteByte {
            register: Register8Bit::SYSRANGE__INTERMEASUREMENT_PERIOD.spec_address(),
            value: settings.range_inter_measurement_code() as u8,
        },
        Access::WriteByte {
            register: Register8Bit::SYSTEM__INTERRUPT_CONFIG_GPIO.spec_address(),
            value: settings.interrupt_config(),
        },
        Access::WriteByte {
            register: Register8Bit::SYSTEM__MODE_GPIO1.spec_address(),
            value: settings.gpio1_mode(),
        },
        Access::WriteByte {
            register: Register8Bit::SYSRANGE__THRESH_HIGH.spec_address(),
            value: settings.range_high_interrupt_threshold,
        },
        Access::WriteByte {
            register: Register8Bit::SYSRANGE__THRESH_LOW.spec_address(),
            value: settings.range_low_interrupt_threshold,
        },
        Access::WriteWord {
            register: Register16Bit::SYSALS__THRESH_HIGH.spec_address(),
            value: settings.ambient_high_interrupt_threshold,
        },
        Access::WriteWord {
            register: Register16Bit::SYSALS__THRESH_LOW.spec_address(),
            value: settings.ambient_low_interrupt_threshold,
        },
        Access::WriteByte {
            register: Register8Bit::SYSRANGE__MAX_CONVERGENCE_TIME.spec_address(),
            value: settings.range_max_convergence_time,
        },
        Access::WriteByte {
            register: Register8Bit::INTERLEAVED_MODE__ENABLE.spec_address(),
            value: 0,
        },
        Access::WriteWord {
            register: Register16Bit::RANGE_SCALER.spec_address(),
            value: settings.range_scaler_code(),
        },
        Access::WriteByte {
            register: Register8Bit::SYSRANGE__PART_TO_PART_RANGE_OFFSET.spec_address(),
            value: settings.scaled_ptp_offset() as u8,
        },
        Access::WriteByte {
            register: Register8Bit::SYSRANGE__CROSSTALK_VALID_HEIGHT.spec_address(),
            value: settings.scaled_crosstalk_valid_height() as u8,
        },
    ]
}

/// All the writes of the initialisation, in order. `fresh` says whether the
/// device is fresh out of reset: only then are the writes of
/// [`reset_writes`] needed, and they come first.
pub open spec fn init_writes(settings: Settings, fresh: bool) -> Seq<Access> {
    if fresh {
        reset_writes() + configuration_writes(settings)
    } else {
        configuration_writes(settings)
    }
}

/// The write of [`reset_writes`] at `index`, if there is one.
pub fn reset_write(index: usize) -> (write: Option<Access>)
    ensures
        reset_writes().len() == PRIVATE_REGISTER_COUNT + 1,
        write == if index < reset_writes().len() {
            Some(reset_writes()[index as int])
        } else {
            None
        },
{
    if index < PRIVATE_REGISTER_COUNT {
        let entry = PRIVATE_REGISTERS[index];
        Some(Access::WriteByte { register: entry.0, value: entry.1 })
    } else if index == PRIVATE_REGISTER_COUNT {
        Some(
            Access::WriteByte { register: Register8Bit::SYSTEM__FRESH_OUT_OF_RESET.address(), value: 0 },
        )
    } else {
        None
    }
}

/// The write of [`configuration_writes`] at `index`, if there is one.
pub fn configuration_write(config: &Config, index: usize) -> (write: Option<Access>)
    ensures
        configuration_writes(config@).len() == CONFIGURATION_WRITE_COUNT,
        write == if index < configuration_writes(config@).len() {
            Some(configuration_writes(config@)[index as int])
        } else {
            None
        },
{
    let settings = config.settings();
    match index {
        0 => Some(
            Access::WriteByte {
                register: Register8Bit::READOUT__AVERAGING_SAMPLE_PERIOD.address(),
                value: settings.readout_averaging_period_multiplier,
            },
        ),
        1 => Some(
            Access::WriteByte {
                register: Register8Bit::SYSALS__ANALOGUE_GAIN.address(),
                value: AMBIENT_ANALOGUE_GAIN_CODE[settings.ambient_analogue_gain_level as usize],
            },
        ),
        2 => Some(
            Access::WriteByte {
                register: Register8Bit::FIRMWARE__RESULT_SCALER.address(),
                value: settings.ambient_scaling,
            },
        ),
        3 => Some(
            Access::WriteByte {
                register: Register8Bit::SYSRANGE__VHV_REPEAT_RATE.address(),
                value: settings.range_vhv_recalibration_rate,
            },
        ),
        4 => Some(
            Access::WriteWord {
                register: Register16Bit::SYSALS__INTEGRATION_PERIOD.address(),
                value: settings.ambient_integration_period - 1,
            },
        ),
        5 => Some(
            Access::WriteByte {
                register: Register8Bit::SYSALS__INTERMEASUREMENT_PERIOD.address(),
                value: (settings.ambient_inter_measurement_period / 10 - 1) as u8,
            },
        ),
        6 => Some(
            Access::WriteByte { register: Register8Bit::SYSRANGE__VHV_RECALIBRATE.address(), value: 0x01 },
        ),
        7 => Some(
            Access::WriteByte {
                register: Register8Bit::SYSRANGE__INTERMEASUREMENT_PERIOD.address(),
                value: (settings.range_inter_measurement_period / 10 - 1) as u8,
            },
        ),
        8 => Some(
            Access::WriteByte {
                register: Register8Bit::SYSTEM__INTERRUPT_CONFIG_GPIO.address(),
                value: settings.range_interrupt_mode.bits() | settings.ambient_interrupt_mode.bits(),
            },
        ),
        9 => {
            let interrupts: u8 = settings.range_interrupt_mode.bits()
                | settings.ambient_interrupt_mode.bits();
            let select = if interrupts != 0 {
                SysModeGpio1Select::InterruptOutput
            } else {
                SysModeGpio1Select::Off
            };
            Some(
                Access::WriteByte {
                    register: Register8Bit::SYSTEM__MODE_GPIO1.address(),
                    value: SysModeGpio1Polarity::ActiveHigh.bits() | select.bits(),
                },
            )
        },
        10 => Some(
            Access::WriteByte {
                register: Register8Bit::SYSRANGE__THRESH_HIGH.address(),
                value: settings.range_high_interrupt_threshold,
            },
        ),
        11 => Some(
            Access::WriteByte {
                register: Register8Bit::SYSRANGE__THRESH_LOW.address(),
                value: settings.range_low_interrupt_threshold,
            },
        ),
        12 => Some(
            Access::WriteWord {
                register: Register16Bit::SYSALS__THRESH_HIGH.address(),
                value: settings.ambient_high_interrupt_threshold,
            },
        ),
        13 => Some(
            Access::WriteWord {
                register: Register16Bit::SYSALS__THRESH_LOW.address(),
                value: settings.ambient_low_interrupt_threshold,
            },
        ),
        14 => Some(
            Access::WriteByte {
                register: Register8Bit::SYSRANGE__MAX_CONVERGENCE_TIME.address(),
                value: settings.range_max_convergence_time,
            },
        ),
        15 => Some(
            Access::WriteByte { register: Register8Bit::INTERLEAVED_MODE__ENABLE.address(), value: 0 },
        ),
        16 => Some(
            Access::WriteWord {
                register: Register16Bit::RANGE_SCALER.address(),
                value: RANGE_SCALAR_CODE[settings.range_scaling as usize],
            },
        ),
        17 => Some(
            Access::WriteByte {
                register: Register8Bit::SYSRANGE__PART_TO_PART_RANGE_OFFSET.address(),
                value: settings.ptp_offset / settings.range_scaling,
            },
        ),
        18 => Some(
            Access::WriteByte {
                register: Register8Bit::SYSRANGE__CROSSTALK_VALID_HEIGHT.address(),
                value: DEFAULT_CROSSTALK_VALID_HEIGHT / settings.range_scaling,
            },
        ),
        _ => None,
    }
}

/// The write of [`init_writes`] at `index`, if there is one.
pub fn init_write(config: &Config, fresh: bool, index: usize) -> (write: Option<Access>)
    ensures
        init_writes(config@, fresh).len() == if fresh {
            PRIVATE_REGISTER_COUNT + 1 + CONFIGURATION_WRITE_COUNT
        } else {
            CONFIGURATION_WRITE_COUNT as int
        },
        write == if index < init_writes(config@, fresh).len() {
            Some(init_writes(config@, fresh)[index as int])
        } else {
            None
        },
{
    if fresh {
        if index <= PRIVATE_REGISTER_COUNT {
            let write = reset_write(index);
            assert(configuration_writes(config@).len() == CONFIGURATION_WRITE_COUNT);
            write
        } else {
            configuration_write(config, index - (PRIVATE_REGISTER_COUNT + 1))
        }
    } else {
        configuration_write(config, index)
    }
}

} // verus!
